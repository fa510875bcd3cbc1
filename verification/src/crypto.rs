//! Segment decryption: AES-128-CBC with PKCS7 unpadding, or pass-through.
//!
//! A segment travels as ciphertext only when a key/IV pair was resolved for
//! it; otherwise its bytes go to the sink unchanged.  Decryption failure is
//! fatal: there is no partial-output recovery.

use vstd::prelude::*;
use vstd::slice::slice_to_vec;
use crate::errors::PipelineError;
use aes::Aes128;
use cbc::Decryptor;
use cipher::{block_padding::Pkcs7, BlockDecryptMut, KeyIvInit};

verus! {

/// A resolved 16-byte AES-128 key with its 16-byte initialization vector.
pub struct KeyIv {
    pub key: Vec<u8>,
    pub iv: Vec<u8>,
}

/// Mathematical value of a [`KeyIv`].
pub struct KeyIvV {
    pub key: Seq<u8>,
    pub iv: Seq<u8>,
}

impl View for KeyIv {
    type V = KeyIvV;

    open spec fn view(&self) -> KeyIvV {
        KeyIvV { key: self.key@, iv: self.iv@ }
    }
}

impl DeepView for KeyIv {
    type V = KeyIvV;

    open spec fn deep_view(&self) -> KeyIvV {
        self.view()
    }
}

impl KeyIvV {
    /// Both halves have the AES-128 block length.
    pub open spec fn wf(&self) -> bool {
        self.key.len() == 16 && self.iv.len() == 16
    }
}

impl KeyIv {
    pub open spec fn wf(&self) -> bool {
        self@.wf()
    }

    /// Builds a pair from its two 16-byte halves.
    pub fn new(key: Vec<u8>, iv: Vec<u8>) -> (r: KeyIv)
        requires
            key@.len() == 16,
            iv@.len() == 16,
        ensures
            r.wf(),
            r@ == (KeyIvV { key: key@, iv: iv@ }),
    {
        KeyIv { key, iv }
    }
}

impl Clone for KeyIv {
    fn clone(&self) -> (r: Self)
        ensures
            r@ == self@,
    {
        KeyIv { key: slice_to_vec(self.key.as_slice()), iv: slice_to_vec(self.iv.as_slice()) }
    }
}

/// What AES-128-CBC decryption with PKCS7 unpadding returns for a key, an IV
/// and a ciphertext; a function of its arguments alone.
pub uninterp spec fn aes128_cbc_decrypt_of(key: Seq<u8>, iv: Seq<u8>, ct: Seq<u8>) -> Option<
    Seq<u8>,
>;

/// Relies on `cbc::Decryptor::<aes::Aes128>` with
/// `cipher::BlockDecryptMut::decrypt_padded_mut::<Pkcs7>`: deciphers the
/// buffer in CBC mode and strips the PKCS7 padding.  The result depends on
/// the key, the IV and the ciphertext alone; it is `None` exactly when the
/// input length is zero or not a multiple of 16 or the final block's padding
/// does not validate, and unpadding removes between 1 and 16 bytes.
#[verifier::external_body]
fn aes128_cbc_decrypt(key: &Vec<u8>, iv: &Vec<u8>, ciphertext: &Vec<u8>) -> (r: Option<Vec<u8>>)
    requires
        key@.len() == 16,
        iv@.len() == 16,
    ensures
        r.deep_view() == aes128_cbc_decrypt_of(key@, iv@, ciphertext@),
        ciphertext@.len() == 0 || ciphertext@.len() % 16 != 0 ==> r is None,
        r matches Some(pt) ==> ciphertext@.len() >= 16 && ciphertext@.len() - 16 <= pt@.len()
            <= ciphertext@.len() - 1,
{
    let cipher = Decryptor::<Aes128>::new_from_slices(key, iv).unwrap();
    let mut buffer = ciphertext.clone();
    match cipher.decrypt_padded_mut::<Pkcs7>(&mut buffer) {
        Ok(plain) => Some(plain.to_vec()),
        Err(_) => None,
    }
}

/// What the decryption stage yields for a segment body: the body itself when
/// no key/IV pair applies, else the deciphered and unpadded plaintext.
pub open spec fn decrypt_model(key: Option<KeyIvV>, data: Seq<u8>) -> Option<Seq<u8>> {
    match key {
        None => Some(data),
        Some(k) => aes128_cbc_decrypt_of(k.key, k.iv, data),
    }
}

/// Decrypts one segment body with the resolved key/IV pair, or passes it
/// through unchanged when none applies.  Any decryption failure (length not
/// a block multiple, bad padding, wrong key) is the fatal
/// [`PipelineError::Decryption`].
pub fn decrypt_segment(data: Vec<u8>, key: Option<&KeyIv>) -> (r: Result<Vec<u8>, PipelineError>)
    requires
        key matches Some(k) ==> k.wf(),
    ensures
        match r {
            Ok(pt) => decrypt_model(view_of_key(key), data@) == Some(pt@),
            Err(e) => e == PipelineError::Decryption && decrypt_model(view_of_key(key), data@)
                is None,
        },
{
    match key {
        None => Ok(data),
        Some(k) => match aes128_cbc_decrypt(&k.key, &k.iv, &data) {
            Some(pt) => Ok(pt),
            None => Err(PipelineError::Decryption),
        },
    }
}

/// The view of an optional borrowed key/IV pair.
pub open spec fn view_of_key(key: Option<&KeyIv>) -> Option<KeyIvV> {
    match key {
        None => None,
        Some(k) => Some(k@),
    }
}

} // verus!
