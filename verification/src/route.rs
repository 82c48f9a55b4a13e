//! The responder: maps a request line to a route, and a route to the
//! status line, the resource name, and the artificial delay of the slow
//! route. Matching is exact; everything unrecognized falls to not-found.

use vstd::prelude::*;

verus! {

/// "GET / HTTP/1.1": the request line for the root path.
pub open spec fn root_request() -> Seq<u8> {
    seq!['G' as u8, 'E' as u8, 'T' as u8, ' ' as u8, '/' as u8, ' ' as u8, 'H' as u8, 'T' as u8, 'T' as u8, 'P' as u8, '/' as u8, '1' as u8, '.' as u8, '1' as u8]
}

/// "GET /sleep HTTP/1.1": the request line for the deliberately slow path.
pub open spec fn slow_request() -> Seq<u8> {
    seq!['G' as u8, 'E' as u8, 'T' as u8, ' ' as u8, '/' as u8, 's' as u8, 'l' as u8, 'e' as u8, 'e' as u8, 'p' as u8, ' ' as u8, 'H' as u8, 'T' as u8, 'T' as u8, 'P' as u8, '/' as u8, '1' as u8, '.' as u8, '1' as u8]
}

/// "HTTP/1.1 200 OK": the success status line.
pub open spec fn ok_status() -> Seq<u8> {
    seq!['H' as u8, 'T' as u8, 'T' as u8, 'P' as u8, '/' as u8, '1' as u8, '.' as u8, '1' as u8, ' ' as u8, '2' as u8, '0' as u8, '0' as u8, ' ' as u8, 'O' as u8, 'K' as u8]
}

/// "HTTP/1.1 404 NOT FOUND": the not-found status line.
pub open spec fn not_found_status() -> Seq<u8> {
    seq!['H' as u8, 'T' as u8, 'T' as u8, 'P' as u8, '/' as u8, '1' as u8, '.' as u8, '1' as u8, ' ' as u8, '4' as u8, '0' as u8, '4' as u8, ' ' as u8, 'N' as u8, 'O' as u8, 'T' as u8, ' ' as u8, 'F' as u8, 'O' as u8, 'U' as u8, 'N' as u8, 'D' as u8]
}

/// "hello.html": the resource served on recognized routes.
pub open spec fn hello_file() -> Seq<u8> {
    seq!['h' as u8, 'e' as u8, 'l' as u8, 'l' as u8, 'o' as u8, '.' as u8, 'h' as u8, 't' as u8, 'm' as u8, 'l' as u8]
}

/// "404.html": the resource served on unrecognized routes.
pub open spec fn error_file() -> Seq<u8> {
    seq!['4' as u8, '0' as u8, '4' as u8, '.' as u8, 'h' as u8, 't' as u8, 'm' as u8, 'l' as u8]
}

/// Milliseconds of artificial delay on the slow route.
pub const SLOW_DELAY_MS: u64 = 5000;

/// Which of the fixed routes a trimmed request line names.
#[derive(Clone, Copy, Debug, PartialEq, Eq, Structural)]
pub enum Route {
    /// The root path: success, primary resource.
    Root,
    /// The slow path: success, primary resource, after a fixed delay.
    Slow,
    /// Anything else: not-found.
    Unknown,
}

/// The route of a trimmed request line, by exact match.
pub open spec fn spec_route(line: Seq<u8>) -> Route {
    if line == root_request() {
        Route::Root
    } else if line == slow_request() {
        Route::Slow
    } else {
        Route::Unknown
    }
}

/// The status line of a route.
pub open spec fn spec_status_line(r: Route) -> Seq<u8> {
    match r {
        Route::Root => ok_status(),
        Route::Slow => ok_status(),
        Route::Unknown => not_found_status(),
    }
}

/// The resource name of a route.
pub open spec fn spec_file_name(r: Route) -> Seq<u8> {
    match r {
        Route::Root => hello_file(),
        Route::Slow => hello_file(),
        Route::Unknown => error_file(),
    }
}

/// The artificial delay of a route, in milliseconds.
pub open spec fn spec_delay_ms(r: Route) -> u64 {
    match r {
        Route::Slow => SLOW_DELAY_MS,
        _ => 0,
    }
}

/// ASCII whitespace: space, tab, line feed, vertical tab, form feed and
/// carriage return; what `char::is_whitespace` accepts on the ASCII range,
/// and in particular every byte of an HTTP line terminator.
pub open spec fn is_ascii_ws(b: u8) -> bool {
    b == 32 || 9 <= b && b <= 13
}

/// `s` with leading and trailing ASCII whitespace removed.
pub open spec fn spec_trim(s: Seq<u8>) -> Seq<u8>
    decreases s.len(),
{
    if s.len() == 0 {
        s
    } else if is_ascii_ws(s[0]) {
        spec_trim(s.subrange(1, s.len() as int))
    } else if is_ascii_ws(s[s.len() - 1]) {
        spec_trim(s.subrange(0, s.len() - 1))
    } else {
        s
    }
}

/// Tests a byte for ASCII whitespace.
fn is_ws_byte(b: u8) -> (r: bool)
    ensures
        r == is_ascii_ws(b),
{
    b == 32 || 9 <= b && b <= 13
}

/// Strips leading and trailing ASCII whitespace, the line terminator
/// of the request line included, before the line is matched.
pub fn trim_line(line: &Vec<u8>) -> (t: Vec<u8>)
    ensures
        t@ == spec_trim(line@),
{
    let n = line.len();
    proof {
        assert(line@.subrange(0, n as int) =~= line@);
    }
    let mut lo: usize = 0;
    while lo < n && is_ws_byte(line[lo])
        invariant
            n == line.len(),
            lo <= n,
            spec_trim(line@) == spec_trim(line@.subrange(lo as int, n as int)),
        decreases n - lo,
    {
        proof {
            assert(line@.subrange(lo as int, n as int).subrange(1, n - lo) =~= line@.subrange(
                lo + 1,
                n as int,
            ));
        }
        lo += 1;
    }
    let mut hi: usize = n;
    while hi > lo && is_ws_byte(line[hi - 1])
        invariant
            n == line.len(),
            lo <= hi <= n,
            lo == n || !is_ascii_ws(line@[lo as int]),
            spec_trim(line@) == spec_trim(line@.subrange(lo as int, hi as int)),
        decreases hi,
    {
        proof {
            assert(line@.subrange(lo as int, hi as int).subrange(0, hi - lo - 1) =~= line@.subrange(
                lo as int,
                hi - 1,
            ));
        }
        hi -= 1;
    }
    let mut t: Vec<u8> = Vec::new();
    let mut i: usize = lo;
    while i < hi
        invariant
            n == line.len(),
            lo <= i <= hi <= n,
            t@ =~= line@.subrange(lo as int, i as int),
        decreases hi - i,
    {
        t.push(line[i]);
        i += 1;
    }
    proof {
        assert(t@ =~= line@.subrange(lo as int, hi as int));
    }
    t
}

/// Byte-for-byte equality of two byte vectors.
fn bytes_eq(a: &Vec<u8>, b: &Vec<u8>) -> (r: bool)
    ensures
        r == (a@ == b@),
{
    if a.len() != b.len() {
        assert(a@ != b@);
        return false;
    }
    let n = a.len();
    let mut i: usize = 0;
    while i < n
        invariant
            n == a.len() == b.len(),
            i <= n,
            forall|j: int| 0 <= j < i ==> a@[j] == b@[j],
        decreases n - i,
    {
        if a[i] != b[i] {
            return false;
        }
        i += 1;
    }
    proof {
        assert(a@ =~= b@);
    }
    true
}

/// The root request line as a byte vector.
pub fn root_request_bytes() -> (v: Vec<u8>)
    ensures
        v@ == root_request(),
{
    let v: Vec<u8> = vec!['G' as u8, 'E' as u8, 'T' as u8, ' ' as u8, '/' as u8, ' ' as u8, 'H' as u8, 'T' as u8, 'T' as u8, 'P' as u8, '/' as u8, '1' as u8, '.' as u8, '1' as u8];
    proof {
        assert(v@ =~= root_request());
    }
    v
}

/// The slow request line as a byte vector.
pub fn slow_request_bytes() -> (v: Vec<u8>)
    ensures
        v@ == slow_request(),
{
    let v: Vec<u8> = vec!['G' as u8, 'E' as u8, 'T' as u8, ' ' as u8, '/' as u8, 's' as u8, 'l' as u8, 'e' as u8, 'e' as u8, 'p' as u8, ' ' as u8, 'H' as u8, 'T' as u8, 'T' as u8, 'P' as u8, '/' as u8, '1' as u8, '.' as u8, '1' as u8];
    proof {
        assert(v@ =~= slow_request());
    }
    v
}

/// The route of a trimmed request line.
pub fn route_of(line: &Vec<u8>) -> (r: Route)
    ensures
        r == spec_route(line@),
{
    let root = root_request_bytes();
    if bytes_eq(line, &root) {
        return Route::Root;
    }
    let slow = slow_request_bytes();
    if bytes_eq(line, &slow) {
        return Route::Slow;
    }
    Route::Unknown
}

/// The status line of a route, as a byte vector.
pub fn status_line(r: Route) -> (v: Vec<u8>)
    ensures
        v@ == spec_status_line(r),
{
    match r {
        Route::Root | Route::Slow => {
            let v: Vec<u8> = vec!['H' as u8, 'T' as u8, 'T' as u8, 'P' as u8, '/' as u8, '1' as u8, '.' as u8, '1' as u8, ' ' as u8, '2' as u8, '0' as u8, '0' as u8, ' ' as u8, 'O' as u8, 'K' as u8];
            proof {
                assert(v@ =~= ok_status());
            }
            v
        },
        Route::Unknown => {
            let v: Vec<u8> = vec!['H' as u8, 'T' as u8, 'T' as u8, 'P' as u8, '/' as u8, '1' as u8, '.' as u8, '1' as u8, ' ' as u8, '4' as u8, '0' as u8, '4' as u8, ' ' as u8, 'N' as u8, 'O' as u8, 'T' as u8, ' ' as u8, 'F' as u8, 'O' as u8, 'U' as u8, 'N' as u8, 'D' as u8];
            proof {
                assert(v@ =~= not_found_status());
            }
            v
        },
    }
}

/// The resource name of a route, as a byte vector.
pub fn file_name(r: Route) -> (v: Vec<u8>)
    ensures
        v@ == spec_file_name(r),
{
    match r {
        Route::Root | Route::Slow => {
            let v: Vec<u8> = vec!['h' as u8, 'e' as u8, 'l' as u8, 'l' as u8, 'o' as u8, '.' as u8, 'h' as u8, 't' as u8, 'm' as u8, 'l' as u8];
            proof {
                assert(v@ =~= hello_file());
            }
            v
        },
        Route::Unknown => {
            let v: Vec<u8> = vec!['4' as u8, '0' as u8, '4' as u8, '.' as u8, 'h' as u8, 't' as u8, 'm' as u8, 'l' as u8];
            proof {
                assert(v@ =~= error_file());
            }
            v
        },
    }
}

/// The artificial delay of a route, in milliseconds.
pub fn delay_ms(r: Route) -> (d: u64)
    ensures
        d == spec_delay_ms(r),
{
    match r {
        Route::Slow => SLOW_DELAY_MS,
        _ => 0,
    }
}

/// The responder's decision on a trimmed request line: its status line
/// and its resource name.
pub fn decide(line: &Vec<u8>) -> (p: (Vec<u8>, Vec<u8>))
    ensures
        p.0@ == spec_status_line(spec_route(line@)),
        p.1@ == spec_file_name(spec_route(line@)),
{
    let r = route_of(line);
    (status_line(r), file_name(r))
}

/// Deciding equal request lines yields equal pairs: the decision is a
/// function of the line alone.
pub proof fn lemma_decide_pure(l1: Seq<u8>, l2: Seq<u8>)
    requires
        l1 == l2,
    ensures
        spec_route(l1) == spec_route(l2),
        spec_status_line(spec_route(l1)) == spec_status_line(spec_route(l2)),
        spec_file_name(spec_route(l1)) == spec_file_name(spec_route(l2)),
{
}

/// Every line other than the two recognized request lines is routed to
/// the not-found status and the not-found resource.
pub proof fn lemma_unrecognized_is_not_found(line: Seq<u8>)
    requires
        line != root_request(),
        line != slow_request(),
    ensures
        spec_route(line) == Route::Unknown,
        spec_status_line(spec_route(line)) == not_found_status(),
        spec_file_name(spec_route(line)) == error_file(),
{
}

} // verus!
