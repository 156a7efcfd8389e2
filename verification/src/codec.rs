use vstd::prelude::*;
use vstd::string::StrSliceExecFns;
use vstd::string::StringExecFns;

verus! {

/// Error of the payload decoder: the text after the optional header is not
/// valid encoded data.
#[derive(Clone, Copy, PartialEq, Eq, Structural, Debug)]
pub enum DecodeError {
    InvalidEncoding,
}

/// The text after the first comma of `s`; `s` itself when it has no comma.
/// A data-URI-style payload carries a metadata header up to the first comma,
/// which is discarded before decoding.
pub open spec fn strip_header(s: Seq<char>) -> Seq<char>
    decreases s.len(),
{
    if !s.contains(',') {
        s
    } else if s[0] == ',' {
        s.skip(1)
    } else {
        strip_header(s.skip(1))
    }
}

/// Whether `s` is valid base64 text, as base64::decode accepts it.
pub uninterp spec fn b64_valid(s: Seq<char>) -> bool;

/// The octets that valid base64 text `s` decodes to.
pub uninterp spec fn b64_decoded(s: Seq<char>) -> Seq<u8>;

/// The base64 text that octets `b` encode to.
pub uninterp spec fn b64_encoding(b: Seq<u8>) -> Seq<char>;

/// Relies on base64::decode (crate base64, standard alphabet with padding):
/// it succeeds exactly on valid base64 text and returns the decoded octets,
/// a function of the input text alone.
#[verifier::external_body]
fn b64_decode(s: &str) -> (r: Option<Vec<u8>>)
    ensures
        r matches Some(b) ==> b64_valid(s@) && b@ == b64_decoded(s@),
        r is None ==> !b64_valid(s@),
{
    base64::decode(s).ok()
}

/// Relies on base64::encode (crate base64, standard alphabet with padding):
/// the encoding is a function of the octets alone, is valid base64 text, and
/// base64::decode inverts it.
#[verifier::external_body]
fn b64_encode(b: &[u8]) -> (r: String)
    ensures
        r@ == b64_encoding(b@),
        b64_valid(r@),
        b64_decoded(r@) == b@,
{
    base64::encode(b)
}

proof fn lemma_strip_header_at(s: Seq<char>, i: int)
    requires
        0 <= i < s.len(),
        s[i] == ',',
        forall|j: int| 0 <= j < i ==> s[j] != ',',
    ensures
        strip_header(s) == s.skip(i + 1),
    decreases i,
{
    assert(s.contains(','));
    if i == 0 {
    } else {
        let t = s.skip(1);
        assert(t[i - 1] == ',');
        assert(forall|j: int| 0 <= j < i - 1 ==> t[j] == s[j + 1] && t[j] != ',');
        lemma_strip_header_at(t, i - 1);
        assert(t.skip(i) =~= s.skip(i + 1));
    }
}

proof fn lemma_strip_header_none(s: Seq<char>)
    requires
        forall|j: int| 0 <= j < s.len() ==> s[j] != ',',
    ensures
        strip_header(s) == s,
{
    assert(!s.contains(','));
}

/// A header prefix up to the first comma is stripped regardless of its
/// content: for any comma-free header `h` and any remainder `rest`,
/// stripping `h + "," + rest` yields exactly `rest`.
pub proof fn lemma_header_stripped(h: Seq<char>, rest: Seq<char>)
    requires
        !h.contains(','),
    ensures
        strip_header(h + seq![','] + rest) == rest,
{
    let s = h + seq![','] + rest;
    assert(s[h.len() as int] == ',');
    assert(forall|j: int| 0 <= j < h.len() ==> s[j] == h[j] && s[j] != ',');
    lemma_strip_header_at(s, h.len() as int);
    assert(s.skip(h.len() as int + 1) =~= rest);
}

/// Decodes a text-encoded media payload: discards everything up to and
/// including the first comma, then decodes the remainder from base64.
/// Succeeds exactly when the remainder is valid base64, and returns its
/// decoded octets; has no side effects.
pub fn decode_payload(payload: &str) -> (r: Result<Vec<u8>, DecodeError>)
    ensures
        match r {
            Ok(b) => b64_valid(strip_header(payload@)) && b@ == b64_decoded(
                strip_header(payload@),
            ),
            Err(e) => !b64_valid(strip_header(payload@)) && e == DecodeError::InvalidEncoding,
        },
{
    let n = payload.unicode_len();
    let mut i: usize = 0;
    let mut comma: Option<usize> = None;
    while i < n && comma.is_none()
        invariant
            n == payload@.len(),
            0 <= i <= n,
            forall|j: int| 0 <= j < i ==> payload@[j] != ',',
            comma matches Some(k) ==> k < n && payload@[k as int] == ',' && forall|j: int|
                0 <= j < k ==> payload@[j] != ',',
        decreases n - i, (if comma.is_none() {
            1int
        } else {
            0int
        }),
    {
        if payload.get_char(i) == ',' {
            comma = Some(i);
        } else {
            i += 1;
        }
    }
    let tail: &str = match comma {
        Some(k) => {
            proof {
                lemma_strip_header_at(payload@, k as int);
            }
            payload.substring_char(k + 1, n)
        },
        None => {
            proof {
                lemma_strip_header_none(payload@);
            }
            payload
        },
    };
    assert(tail@ == strip_header(payload@));
    match b64_decode(tail) {
        Some(b) => Ok(b),
        None => Err(DecodeError::InvalidEncoding),
    }
}

/// Encodes octets as a base64 payload that `decode_payload` accepts.
pub fn encode_payload(bytes: &[u8]) -> (r: String)
    ensures
        r@ == b64_encoding(bytes@),
        b64_valid(r@),
        b64_decoded(r@) == bytes@,
{
    b64_encode(bytes)
}

/// Round trip: decoding a payload produced by encoding arbitrary octets,
/// behind any comma-free header, yields exactly those octets.
pub fn encode_then_decode(header: &str, bytes: &[u8]) -> (r: Vec<u8>)
    requires
        !header@.contains(','),
    ensures
        r@ == bytes@,
{
    let encoded = encode_payload(bytes);
    let mut payload = String::new();
    payload.append(header);
    payload.append(",");
    payload.append(encoded.as_str());
    proof {
        reveal_strlit(",");
        assert(","@ =~= seq![',']);
        assert(payload@ =~= header@ + seq![','] + encoded@);
        lemma_header_stripped(header@, encoded@);
    }
    let r = decode_payload(payload.as_str());
    match r {
        Ok(b) => b,
        Err(_) => {
            proof {
                assert(false);
            }
            Vec::new()
        },
    }
}

} // verus!
