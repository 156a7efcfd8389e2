use vstd::prelude::*;
use vstd::string::StrSliceExecFns;
use vstd::string::StringExecFns;

verus! {

/// The intake path of an upload: the intake directory followed by the
/// client-supplied file name.
pub open spec fn spec_intake_path(name: Seq<char>) -> Seq<char> {
    "./uploads/"@ + name
}

/// The fixed path that the transcoded output is written to.
pub open spec fn spec_output_path() -> Seq<char> {
    "./transform_data/output.mp4"@
}

/// The fixed fallback path that a raw binary upload is written to.
pub open spec fn spec_fallback_path() -> Seq<char> {
    "./uploads/upload.bin"@
}

/// A file name is safe as a single path segment under the intake directory:
/// it holds no path separator and at least one character other than a dot,
/// so it cannot name the directory itself, its parent, or anything outside.
pub open spec fn safe_file_name(name: Seq<char>) -> bool {
    &&& !name.contains('/')
    &&& !name.contains('\\')
    &&& exists|i: int| 0 <= i < name.len() && name[i] != '.'
}

/// Builds the intake path for a file name.
pub fn intake_path(name: &str) -> (r: String)
    ensures
        r@ == spec_intake_path(name@),
{
    let mut s = String::new();
    s.append("./uploads/");
    s.append(name);
    s
}

/// Builds the fixed transcode output path.
pub fn output_path() -> (r: String)
    ensures
        r@ == spec_output_path(),
{
    String::from_str("./transform_data/output.mp4")
}

/// Builds the fixed fallback path for raw binary uploads.
pub fn fallback_path() -> (r: String)
    ensures
        r@ == spec_fallback_path(),
{
    String::from_str("./uploads/upload.bin")
}

/// Decides whether a client-supplied file name is safe to use as a path
/// segment under the intake directory.
pub fn check_file_name(name: &str) -> (r: bool)
    ensures
        r == safe_file_name(name@),
{
    let n = name.unicode_len();
    let mut i: usize = 0;
    let mut has_sep = false;
    let mut has_non_dot = false;
    while i < n
        invariant
            n == name@.len(),
            0 <= i <= n,
            has_sep == exists|j: int| 0 <= j < i && (name@[j] == '/' || name@[j] == '\\'),
            has_non_dot == exists|j: int| 0 <= j < i && name@[j] != '.',
        decreases n - i,
    {
        let c = name.get_char(i);
        if c == '/' || c == '\\' {
            has_sep = true;
        }
        if c != '.' {
            has_non_dot = true;
        }
        i += 1;
    }
    proof {
        assert(name@.contains('/') == exists|j: int| 0 <= j < n && name@[j] == '/');
        assert(name@.contains('\\') == exists|j: int| 0 <= j < n && name@[j] == '\\');
    }
    !has_sep && has_non_dot
}

} // verus!
