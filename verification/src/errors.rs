//! Error taxonomy of the pipeline.
//!
//! Every fatal condition aborts the whole pipeline for the current output;
//! there is no per-segment skip-and-continue.

use vstd::prelude::*;

verus! {

/// A fatal pipeline error, identifying the stage that failed.
#[derive(Clone, Copy, Debug, PartialEq, Eq, Structural)]
pub enum PipelineError {
    /// A network or HTTP failure that survived the transport's own retries.
    Transport,
    /// A playlist body (or an IV string inside one) that does not parse.
    Parse,
    /// A chain of variant playlists deeper than the resolution bound.
    MalformedPlaylist,
    /// A key fetch that returned fewer than 16 bytes where no fallback exists.
    KeyTooShort,
    /// Ciphertext whose length or PKCS7 padding does not validate.
    Decryption,
    /// The sink process refused input or finished with a failure status.
    Sink,
    /// The conduit's consumer went away before the producer finished.
    ConduitClosed,
}

impl PipelineError {
    /// A short, stable description of the failed stage.
    pub fn describe(&self) -> (m: &'static str)
        ensures
            m@ == describe_spec(*self),
    {
        match self {
            PipelineError::Transport => "transport error",
            PipelineError::Parse => "parse error",
            PipelineError::MalformedPlaylist => "malformed playlist",
            PipelineError::KeyTooShort => "key too short",
            PipelineError::Decryption => "decryption error",
            PipelineError::Sink => "sink error",
            PipelineError::ConduitClosed => "conduit closed",
        }
    }
}

/// The description each error variant carries.
pub open spec fn describe_spec(e: PipelineError) -> Seq<char> {
    match e {
        PipelineError::Transport => "transport error"@,
        PipelineError::Parse => "parse error"@,
        PipelineError::MalformedPlaylist => "malformed playlist"@,
        PipelineError::KeyTooShort => "key too short"@,
        PipelineError::Decryption => "decryption error"@,
        PipelineError::Sink => "sink error"@,
        PipelineError::ConduitClosed => "conduit closed"@,
    }
}

/// Errors of the surrounding catalog client that callers match on.
#[derive(Clone, Copy, Debug, PartialEq, Eq, Structural)]
pub enum NicoChannelError {
    /// The output file already exists, so the download is skipped.
    NCDFileExist,
}

} // verus!
