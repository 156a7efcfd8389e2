use vstd::prelude::*;
use vstd::string::StringExecFns;

verus! {

/// The status of an outbound message: the request succeeded so far, or failed.
#[derive(Clone, Copy, PartialEq, Eq, Structural, Debug)]
pub enum StatusKind {
    Success,
    Error,
}

/// The wire word for a status kind.
pub open spec fn status_word(k: StatusKind) -> Seq<char> {
    match k {
        StatusKind::Success => "success"@,
        StatusKind::Error => "error"@,
    }
}

/// Text that can stand inside a JSON string literal without escaping:
/// no quote, no backslash, no control character.
pub open spec fn json_plain(s: Seq<char>) -> bool {
    forall|i: int| 0 <= i < s.len() ==> s[i] != '"' && s[i] != '\\' && (s[i] as u32) >= 32
}

/// The serialized status message: a JSON object with a `status` field
/// holding the status word and a `message` field holding the text.
pub open spec fn spec_render_status(k: StatusKind, msg: Seq<char>) -> Seq<char> {
    "{\"status\":\""@ + status_word(k) + "\",\"message\":\""@ + msg + "\"}"@
}

/// Serializes a status message onto the wire format.
pub fn render_status(kind: StatusKind, message: &str) -> (r: String)
    requires
        json_plain(message@),
    ensures
        r@ == spec_render_status(kind, message@),
{
    let mut s = String::new();
    s.append("{\"status\":\"");
    match kind {
        StatusKind::Success => s.append("success"),
        StatusKind::Error => s.append("error"),
    }
    s.append("\",\"message\":\"");
    s.append(message);
    s.append("\"}");
    s
}

/// The status message sent after an upload is persisted, before transcoding.
pub fn converting_status() -> (r: String)
    ensures
        r@ == spec_render_status(StatusKind::Success, "Converting video to HEVC"@),
{
    proof {
        reveal_strlit("Converting video to HEVC");
    }
    render_status(StatusKind::Success, "Converting video to HEVC")
}

/// The status message sent when a payload fails to decode.
pub fn decode_failure_status() -> (r: String)
    ensures
        r@ == spec_render_status(StatusKind::Error, "Failed to decode video data."@),
{
    proof {
        reveal_strlit("Failed to decode video data.");
    }
    render_status(StatusKind::Error, "Failed to decode video data.")
}

/// The status message sent when a request carries an unsafe file name.
pub fn invalid_name_status() -> (r: String)
    ensures
        r@ == spec_render_status(StatusKind::Error, "Invalid file name."@),
{
    proof {
        reveal_strlit("Invalid file name.");
    }
    render_status(StatusKind::Error, "Invalid file name.")
}

} // verus!
