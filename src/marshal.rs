use vstd::prelude::*;
use vstd::string::*;

verus! {

/// What `String::from_utf8_lossy` makes of a byte string: the text it
/// encodes, with each invalid sequence replaced by U+FFFD.
pub uninterp spec fn lossy_text_of(b: Seq<u8>) -> Seq<char>;

/// Relies on `String::from_utf8_lossy`: the decoded text depends on the
/// bytes alone, and no bytes give no text.
#[verifier::external_body]
fn utf8_lossy(b: &[u8]) -> (r: String)
    ensures
        r@ == lossy_text_of(b@),
        b@.len() == 0 ==> r@.len() == 0,
{
    String::from_utf8_lossy(b).into_owned()
}

/// Decodes the bytes of a null-terminated string handed across the boundary
/// (without its terminator) into text, replacing what is not valid UTF-8.
pub fn decode_text(bytes: &[u8]) -> (r: String)
    ensures
        r@ == lossy_text_of(bytes@),
        bytes@.len() == 0 ==> r@.len() == 0,
{
    utf8_lossy(bytes)
}

/// Encodes `s` as a null-terminated byte string: its UTF-8 bytes followed by
/// a zero. Text that holds a zero byte itself cannot be encoded so.
pub fn encode_c_string(s: &str) -> (r: Option<Vec<u8>>)
    ensures
        r is Some <==> !s.spec_bytes().contains(0u8),
        r matches Some(v) ==> v@ == s.spec_bytes().push(0u8),
{
    let b = s.as_bytes();
    let mut out: Vec<u8> = Vec::new();
    let mut i: usize = 0;
    while i < b.len()
        invariant
            b@ == s.spec_bytes(),
            i <= b@.len(),
            out@ == b@.subrange(0, i as int),
            forall|j: int| 0 <= j < i ==> b@[j] != 0u8,
        decreases b@.len() - i,
    {
        if b[i] == 0u8 {
            assert(b@[i as int] == 0u8);
            return None;
        }
        out.push(b[i]);
        i = i + 1;
        assert(out@ =~= b@.subrange(0, i as int));
    }
    assert(out@ =~= b@);
    assert(!b@.contains(0u8));
    out.push(0u8);
    Some(out)
}

} // verus!
