use vstd::prelude::*;
use vstd::string::StringExecFns;
use crate::paths::{output_path, spec_output_path};

verus! {

/// The outcome of one external transcode run: the output file was produced,
/// or the run failed with the tool's diagnostic text.
pub enum TranscodeOutcome {
    Success { output_path: String },
    Failure { diagnostic: String },
}

/// The fixed argument template of the external transcoder: read the input
/// file, re-encode video as HEVC with a fixed preset and quality, re-encode
/// audio as AAC, write the output file.
pub open spec fn spec_ffmpeg_args(input: Seq<char>, output: Seq<char>) -> Seq<Seq<char>> {
    seq![
        "-i"@,
        input,
        "-c:v"@,
        "libx265"@,
        "-preset"@,
        "faster"@,
        "-crf"@,
        "28"@,
        "-c:a"@,
        "aac"@,
        output,
    ]
}

/// The program name of the external transcoder.
pub fn ffmpeg_program() -> (r: String)
    ensures
        r@ == "ffmpeg"@,
{
    String::from_str("ffmpeg")
}

/// Builds the deterministic argument list for one transcode run.
pub fn ffmpeg_args(input_path: &str, out_path: &str) -> (r: Vec<String>)
    ensures
        r@.map_values(|s: String| s@) == spec_ffmpeg_args(input_path@, out_path@),
{
    let mut v: Vec<String> = Vec::new();
    v.push(String::from_str("-i"));
    v.push(String::from_str(input_path));
    v.push(String::from_str("-c:v"));
    v.push(String::from_str("libx265"));
    v.push(String::from_str("-preset"));
    v.push(String::from_str("faster"));
    v.push(String::from_str("-crf"));
    v.push(String::from_str("28"));
    v.push(String::from_str("-c:a"));
    v.push(String::from_str("aac"));
    v.push(String::from_str(out_path));
    proof {
        assert(v@.map_values(|s: String| s@) =~= spec_ffmpeg_args(input_path@, out_path@));
    }
    v
}

/// Classifies the result of one external transcode run. A run succeeds only
/// when the process could be spawned and exited with a zero status; a spawn
/// failure and a failed run are distinguished by `spawned` but both surface
/// as `Failure` carrying the diagnostic text.
pub fn classify_transcode(spawned: bool, exit_zero: bool, diagnostic: String) -> (r:
    TranscodeOutcome)
    ensures
        spawned && exit_zero ==> (r matches TranscodeOutcome::Success { output_path: p } &&
            p@ == spec_output_path()),
        !(spawned && exit_zero) ==> (r matches TranscodeOutcome::Failure { diagnostic: d } &&
            d@ == diagnostic@),
{
    if spawned && exit_zero {
        TranscodeOutcome::Success { output_path: output_path() }
    } else {
        TranscodeOutcome::Failure { diagnostic }
    }
}

} // verus!
