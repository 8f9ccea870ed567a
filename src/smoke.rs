use vstd::prelude::*;

verus! {

/// The constant that the simplest entry point answers with.
pub const SMOKE_ANSWER: i32 = 42;

/// Status returned by the string writer when there is no room at all.
pub const NO_BUFFER: i32 = -1;

/// The value of an integer in two's complement with 32 bits, as the
/// wrapping operations of `i32` define it.
pub open spec fn wrap_i32(v: int) -> int {
    let m = v % 0x1_0000_0000;
    if m >= 0x8000_0000 {
        m - 0x1_0000_0000
    } else {
        m
    }
}

/// The greeting written by `wry_test_string`: the ASCII bytes of
/// "Hello from Rust!".
pub open spec fn greeting() -> Seq<u8> {
    seq![72u8, 101, 108, 108, 111, 32, 102, 114, 111, 109, 32, 82, 117, 115, 116, 33]
}

/// How many greeting bytes fit in a buffer of `n` bytes that also holds the
/// terminating zero.
pub open spec fn payload_len(n: int) -> int {
    if greeting().len() < n - 1 {
        greeting().len() as int
    } else {
        n - 1
    }
}

/// The buffer after the greeting was written into it: the payload, a zero,
/// and the untouched rest.
pub open spec fn with_greeting(buf: Seq<u8>) -> Seq<u8> {
    let k = payload_len(buf.len() as int);
    greeting().subrange(0, k) + seq![0u8] + buf.subrange(k + 1, buf.len() as int)
}

fn greeting_bytes() -> (r: Vec<u8>)
    ensures
        r@ == greeting(),
{
    let r: Vec<u8> = vec![72u8, 101, 108, 108, 111, 32, 102, 114, 111, 109, 32, 82, 117, 115, 116, 33];
    assert(r@ =~= greeting());
    r
}

/// Returns a fixed integer, so that a caller can see that a call across the
/// boundary reaches this library at all.
pub fn wry_test_simple() -> (r: i32)
    ensures
        r == SMOKE_ANSWER,
{
    SMOKE_ANSWER
}

/// Doubles `x`, wrapping around on overflow.
pub fn wry_test_with_param(x: i32) -> (r: i32)
    ensures
        r as int == wrap_i32(2 * x as int),
        i32::MIN <= 2 * x <= i32::MAX ==> r == 2 * x,
{
    let d: i64 = (x as i64) * 2;
    if d > i32::MAX as i64 {
        let r = (d - 0x1_0000_0000i64) as i32;
        assert(wrap_i32(2 * x as int) == r as int);
        r
    } else if d < i32::MIN as i64 {
        let r = (d + 0x1_0000_0000i64) as i32;
        assert(wrap_i32(2 * x as int) == r as int);
        r
    } else {
        assert(wrap_i32(2 * x as int) == d as int);
        d as i32
    }
}

/// Writes as much of the greeting as fits into `output`, followed by a zero
/// byte, and returns the number of greeting bytes written. An empty buffer is
/// left alone and gives `NO_BUFFER`.
pub fn wry_test_string(output: &mut [u8]) -> (r: i32)
    ensures
        final(output)@.len() == old(output)@.len(),
        old(output)@.len() == 0 ==> r == NO_BUFFER && final(output)@ == old(output)@,
        old(output)@.len() > 0 ==> r as int == payload_len(old(output)@.len() as int)
            && final(output)@ == with_greeting(old(output)@),
{
    let len = output.len();
    if len == 0 {
        return NO_BUFFER;
    }
    let s = greeting_bytes();
    let copy_len: usize = if s.len() < len - 1 { s.len() } else { len - 1 };
    let mut i: usize = 0;
    while i < copy_len
        invariant
            copy_len == payload_len(len as int),
            s@ == greeting(),
            len == old(output)@.len(),
            copy_len < len,
            copy_len <= s@.len(),
            i <= copy_len,
            output@.len() == len,
            forall|j: int| 0 <= j < i ==> output@[j] == s@[j],
            forall|j: int| i <= j < len ==> output@[j] == old(output)@[j],
        decreases copy_len - i,
    {
        output[i] = s[i];
        i = i + 1;
    }
    output[copy_len] = 0;
    assert(output@ =~= with_greeting(old(output)@));
    copy_len as i32
}

} // verus!
