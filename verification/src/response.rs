//! Response composition: the decimal rendering of the body's byte length
//! and the full response buffer, `status-line CRLF Content-Length: n
//! CRLF CRLF body`.

use vstd::prelude::*;
use vstd::arithmetic::div_mod::lemma_fundamental_div_mod;

verus! {

/// The ASCII digit of a value below ten.
pub open spec fn digit_byte(d: nat) -> u8 {
    (48 + d) as u8
}

/// The decimal rendering of `n`, most significant digit first, without
/// leading zeros (a lone zero for `n == 0`).
pub open spec fn spec_decimal(n: nat) -> Seq<u8>
    decreases n,
{
    if n < 10 {
        seq![digit_byte(n)]
    } else {
        spec_decimal(n / 10).push(digit_byte(n % 10))
    }
}

/// The number that a digit string denotes.
pub open spec fn spec_decimal_value(s: Seq<u8>) -> nat
    decreases s.len(),
{
    if s.len() == 0 {
        0
    } else {
        spec_decimal_value(s.drop_last()) * 10 + ((s.last() - 48) as nat)
    }
}

/// Reading the decimal rendering of `n` back yields `n`: the digits in
/// the header denote exactly the number they were rendered from.
pub proof fn lemma_decimal_round_trip(n: nat)
    ensures
        spec_decimal_value(spec_decimal(n)) == n,
    decreases n,
{
    if n < 10 {
        let s = spec_decimal(n);
        assert(s.drop_last() =~= Seq::<u8>::empty());
        assert(spec_decimal_value(Seq::<u8>::empty()) == 0);
        assert(s.last() == digit_byte(n));
        assert(digit_byte(n) == 48 + n);
        assert(spec_decimal_value(s) == spec_decimal_value(s.drop_last()) * 10 + ((s.last()
            - 48) as nat));
    } else {
        lemma_decimal_round_trip(n / 10);
        let s = spec_decimal(n);
        assert(s.drop_last() =~= spec_decimal(n / 10));
        assert(s.last() == digit_byte(n % 10));
        assert(digit_byte(n % 10) == 48 + n % 10);
        assert(spec_decimal_value(s) == spec_decimal_value(s.drop_last()) * 10 + ((s.last()
            - 48) as nat));
        lemma_fundamental_div_mod(n as int, 10);
        assert(n == 10 * (n / 10) + n % 10);
    }
}

/// The decimal rendering of `n` as a byte vector.
pub fn decimal_bytes(n: u64) -> (v: Vec<u8>)
    ensures
        v@ == spec_decimal(n as nat),
    decreases n,
{
    if n < 10 {
        let mut v: Vec<u8> = Vec::new();
        v.push(48 + (n as u8));
        proof {
            assert(v@ =~= spec_decimal(n as nat));
        }
        v
    } else {
        let mut v = decimal_bytes(n / 10);
        v.push(48 + ((n % 10) as u8));
        v
    }
}

/// Appends `src` to `dst`.
fn push_bytes(dst: &mut Vec<u8>, src: &Vec<u8>)
    ensures
        final(dst)@ == old(dst)@ + src@,
{
    let n = src.len();
    let mut i: usize = 0;
    while i < n
        invariant
            n == src.len(),
            i <= n,
            dst@ =~= old(dst)@ + src@.subrange(0, i as int),
        decreases n - i,
    {
        dst.push(src[i]);
        i += 1;
    }
    proof {
        assert(src@.subrange(0, n as int) =~= src@);
    }
}

/// "\r\n".
pub open spec fn crlf() -> Seq<u8> {
    seq![13u8, 10u8]
}

/// "Content-Length: ".
pub open spec fn content_length_prefix() -> Seq<u8> {
    seq!['C' as u8, 'o' as u8, 'n' as u8, 't' as u8, 'e' as u8, 'n' as u8, 't' as u8, '-' as u8, 'L' as u8, 'e' as u8, 'n' as u8, 'g' as u8, 't' as u8, 'h' as u8, ':' as u8, ' ' as u8]
}

/// The full response for a status line and a body: the status line, the
/// Content-Length header carrying the body's byte length, a blank line,
/// and the body itself.
pub open spec fn spec_response(status: Seq<u8>, body: Seq<u8>) -> Seq<u8> {
    status + crlf() + content_length_prefix() + spec_decimal(body.len()) + crlf() + crlf() + body
}

/// Composes the response buffer for a status line and a body, written
/// out in one piece by the caller.
pub fn compose_response(status: &Vec<u8>, body: &Vec<u8>) -> (r: Vec<u8>)
    ensures
        r@ == spec_response(status@, body@),
{
    let mut r: Vec<u8> = Vec::new();
    push_bytes(&mut r, status);
    let crlf_v: Vec<u8> = vec![13u8, 10u8];
    proof {
        assert(crlf_v@ =~= crlf());
    }
    push_bytes(&mut r, &crlf_v);
    let prefix: Vec<u8> = vec!['C' as u8, 'o' as u8, 'n' as u8, 't' as u8, 'e' as u8, 'n' as u8, 't' as u8, '-' as u8, 'L' as u8, 'e' as u8, 'n' as u8, 'g' as u8, 't' as u8, 'h' as u8, ':' as u8, ' ' as u8];
    proof {
        assert(prefix@ =~= content_length_prefix());
    }
    push_bytes(&mut r, &prefix);
    let len64: u64 = body.len() as u64;
    let digits = decimal_bytes(len64);
    push_bytes(&mut r, &digits);
    push_bytes(&mut r, &crlf_v);
    push_bytes(&mut r, &crlf_v);
    push_bytes(&mut r, body);
    proof {
        assert(r@ =~= spec_response(status@, body@));
    }
    r
}

/// In every composed response, the body is the exact suffix after the
/// blank line, and the number written in the Content-Length header
/// denotes exactly that body's byte length.
pub proof fn lemma_content_length_exact(status: Seq<u8>, body: Seq<u8>)
    ensures
        ({
            let r = spec_response(status, body);
            let digits = spec_decimal(body.len());
            let header_end = status.len() + 2 + content_length_prefix().len() + digits.len() + 4;
            &&& r.len() == header_end + body.len()
            &&& r.subrange(header_end as int, r.len() as int) == body
            &&& r.subrange(
                status.len() + 2 + content_length_prefix().len() as int,
                status.len() + 2 + content_length_prefix().len() + digits.len() as int,
            ) == digits
            &&& spec_decimal_value(digits) == body.len()
        }),
{
    let r = spec_response(status, body);
    let digits = spec_decimal(body.len());
    let header_end = status.len() + 2 + content_length_prefix().len() + digits.len() + 4;
    assert(r.subrange(header_end as int, r.len() as int) =~= body);
    assert(r.subrange(
        status.len() + 2 + content_length_prefix().len() as int,
        status.len() + 2 + content_length_prefix().len() + digits.len() as int,
    ) =~= digits);
    lemma_decimal_round_trip(body.len());
}

} // verus!
