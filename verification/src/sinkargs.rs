//! The sink process's argument list.
//!
//! The sink is one subprocess per download that reads a raw MPEG-TS byte
//! stream on its standard input and packages it into the output file.  Its
//! invocation takes a fixed prelude, then the caller's muxing and metadata
//! arguments (opaque here), then the output path.

use vstd::prelude::*;
use vstd::string::StringExecFns;

verus! {

/// The fixed arguments every sink invocation starts with: no banner, errors
/// only, no statistics, overwrite the output, read MPEG-TS from standard
/// input.
pub open spec fn base_sink_args() -> Seq<Seq<char>> {
    seq![
        "-hide_banner"@,
        "-loglevel"@,
        "error"@,
        "-nostats"@,
        "-y"@,
        "-f"@,
        "mpegts"@,
        "-i"@,
        "pipe:0"@,
    ]
}

/// The whole argument list: the fixed prelude, the caller's arguments, the
/// output path last.
pub open spec fn sink_args_spec(extra: Seq<Seq<char>>, output: Seq<char>) -> Seq<Seq<char>> {
    base_sink_args() + extra + seq![output]
}

/// Builds the sink process's argument list for one output file.
pub fn sink_command_args(extra: &Vec<String>, output: &str) -> (r: Vec<String>)
    ensures
        r.deep_view() == sink_args_spec(extra.deep_view(), output@),
{
    let mut args: Vec<String> = Vec::new();
    args.push(String::from_str("-hide_banner"));
    args.push(String::from_str("-loglevel"));
    args.push(String::from_str("error"));
    args.push(String::from_str("-nostats"));
    args.push(String::from_str("-y"));
    args.push(String::from_str("-f"));
    args.push(String::from_str("mpegts"));
    args.push(String::from_str("-i"));
    args.push(String::from_str("pipe:0"));
    proof {
        assert(args.deep_view() =~= base_sink_args());
    }
    let mut i: usize = 0;
    while i < extra.len()
        invariant
            i <= extra@.len(),
            extra.deep_view().len() == extra@.len(),
            args.deep_view() == base_sink_args() + extra.deep_view().take(i as int),
        decreases extra@.len() - i,
    {
        let ghost prev = args.deep_view();
        let ghost prev_raw = args@;
        args.push(extra[i].clone());
        proof {
            assert forall|j: int| 0 <= j < prev.len() implies args.deep_view()[j] == prev[j] by {
                assert(args@[j] == prev_raw[j]);
            }
            let ghost target = base_sink_args() + extra.deep_view().take(i as int + 1);
            assert(args.deep_view().len() == args@.len());
            assert(args@.len() == prev_raw.len() + 1);
            assert(prev.len() == prev_raw.len());
            assert(prev.len() == 9 + i);
            assert(extra.deep_view().take(i as int + 1).len() == i + 1);
            assert(target.len() == 9 + i + 1);
            assert(args.deep_view().len() == target.len());
            assert forall|j: int| 0 <= j < target.len() implies args.deep_view()[j] == target[j] by {
                if j < prev.len() {
                    assert(prev[j] == (base_sink_args() + extra.deep_view().take(i as int))[j]);
                    if j >= 9 {
                        assert(extra.deep_view().take(i as int)[j - 9] == extra.deep_view()[j - 9]);
                        assert(extra.deep_view().take(i as int + 1)[j - 9] == extra.deep_view()[j
                            - 9]);
                    }
                } else {
                    assert(args@[j] == extra@[i as int]);
                    assert(target[j] == extra.deep_view()[i as int]);
                }
            }
            assert(args.deep_view() =~= target);
        }
        i = i + 1;
    }
    proof {
        assert(extra.deep_view().take(extra@.len() as int) =~= extra.deep_view());
    }
    args.push(output.to_owned());
    proof {
        assert(args.deep_view() =~~= sink_args_spec(extra.deep_view(), output@));
    }
    args
}

} // verus!
