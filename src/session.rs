use vstd::prelude::*;
use crate::views::ChatView;

verus! {

/// Whether `c` is an ASCII decimal digit.
pub open spec fn is_digit(c: char) -> bool {
    '0' <= c && c <= '9'
}

/// The value of a decimal digit.
pub open spec fn digit_value(c: char) -> int {
    c as int - '0' as int
}

/// The digit that writes `d`, for `d` below ten.
pub open spec fn digit_char(d: nat) -> char {
    ((d + '0' as nat) as u32) as char
}

/// The number that a string of decimal digits writes, most significant first.
pub open spec fn digits_value(s: Seq<char>) -> int
    decreases s.len(),
{
    if s.len() == 0 {
        0
    } else {
        digits_value(s.drop_last()) * 10 + digit_value(s.last())
    }
}

/// The shortest decimal writing of `n`.
pub open spec fn decimal(n: nat) -> Seq<char>
    decreases n,
{
    if n < 10 {
        seq![digit_char(n)]
    } else {
        decimal(n / 10).push(digit_char(n % 10))
    }
}

/// The digits after an optional leading `+`.
pub open spec fn unsigned_body(s: Seq<char>) -> Seq<char> {
    if s.len() > 0 && s[0] == '+' {
        s.drop_first()
    } else {
        s
    }
}

/// What reading `s` as a session identifier gives: an optional `+`, then one
/// or more decimal digits whose value fits in sixteen bits.
pub open spec fn spec_parse_id(s: Seq<char>) -> Option<u16> {
    let d = unsigned_body(s);
    if d.len() > 0 && (forall|i: int| 0 <= i < d.len() ==> is_digit(#[trigger] d[i]))
        && digits_value(d) <= u16::MAX {
        Some(digits_value(d) as u16)
    } else {
        None
    }
}

/// Relies on `u16`'s `Display` (through `to_string`): the shortest decimal
/// writing of the number.
#[verifier::external_body]
fn u16_to_decimal(n: u16) -> (r: String)
    ensures
        r@ == decimal(n as nat),
{
    n.to_string()
}

/// Relies on rand::random for `u16`: any value may come back.
pub assume_specification<T>[ rand::random::<T> ]() -> (r: T)
    where
        rand::distributions::Standard: rand::distributions::Distribution<T>,
;

/// A fresh random session identifier. Nothing rules out a value that is
/// already registered; registering it supersedes the earlier session.
pub fn issue_session_id() -> (r: u16) {
    rand::random::<u16>()
}

/// The decimal text that carries `id` in a page or a cookie.
pub fn render_session_id(id: u16) -> (r: String)
    ensures
        r@ == decimal(id as nat),
{
    u16_to_decimal(id)
}

/// Reads a session identifier the way `u16`'s `FromStr` does: an optional
/// `+`, then decimal digits, with a value of at most 65535.
pub fn parse_session_id(s: &str) -> (r: Option<u16>)
    ensures
        r == spec_parse_id(s@),
{
    let n = s.unicode_len();
    let mut start: usize = 0;
    if n > 0 && s.get_char(0) == '+' {
        start = 1;
    }
    let ghost d = unsigned_body(s@);
    assert(d =~= s@.subrange(start as int, n as int));
    if start >= n {
        return None;
    }
    let mut acc: u32 = 0;
    let mut i: usize = start;
    while i < n
        invariant
            start <= i <= n,
            n == s@.len(),
            d =~= s@.subrange(start as int, n as int),
            d == unsigned_body(s@),
            forall|j: int| 0 <= j < i - start ==> is_digit(#[trigger] d[j]),
            acc as int == digits_value(d.take(i - start)),
            acc <= u16::MAX,
        decreases n - i,
    {
        let c = s.get_char(i);
        if !('0' <= c && c <= '9') {
            proof {
                let k: int = i - start;
                assert(!is_digit(d[k]));
                assert(!(forall|j: int| 0 <= j < d.len() ==> is_digit(#[trigger] d[j])));
            }
            return None;
        }
        let v = (c as u32) - ('0' as u32);
        assert(d.take(i - start + 1).drop_last() =~= d.take(i - start));
        let next = acc * 10 + v;
        if next > 65535 {
            proof {
                let k: int = i - start + 1;
                assert(d.take(k) =~= d.take(k - 1).push(d[k - 1]));
                assert(next as int == digits_value(d.take(k)));
                if forall|j: int| 0 <= j < d.len() ==> is_digit(#[trigger] d[j]) {
                    lemma_digits_value_prefix(d, k);
                }
            }
            return None;
        }
        proof {
            let k: int = i - start + 1;
            assert(d.take(k) =~= d.take(k - 1).push(d[k - 1]));
        }
        acc = next;
        i = i + 1;
    }
    assert(d.take(i - start) =~= d);
    Some(acc as u16)
}

/// A prefix of digits never writes more than the whole.
proof fn lemma_digits_value_prefix(d: Seq<char>, k: int)
    requires
        0 <= k <= d.len(),
        forall|j: int| 0 <= j < d.len() ==> is_digit(#[trigger] d[j]),
    ensures
        digits_value(d.take(k)) <= digits_value(d),
        0 <= digits_value(d.take(k)),
    decreases d.len() - k,
{
    lemma_digits_value_nonneg(d.take(k));
    if k < d.len() {
        lemma_digits_value_prefix(d, k + 1);
        assert(d.take(k + 1).drop_last() =~= d.take(k));
    } else {
        assert(d.take(k) =~= d);
    }
}

proof fn lemma_digits_value_nonneg(d: Seq<char>)
    requires
        forall|j: int| 0 <= j < d.len() ==> is_digit(#[trigger] d[j]),
    ensures
        0 <= digits_value(d),
    decreases d.len(),
{
    if d.len() > 0 {
        lemma_digits_value_nonneg(d.drop_last());
    }
}

/// The decimal writing of `n` is non-empty, all digits, and writes `n`.
proof fn lemma_decimal(n: nat)
    ensures
        decimal(n).len() > 0,
        forall|j: int| 0 <= j < decimal(n).len() ==> is_digit(#[trigger] decimal(n)[j]),
        digits_value(decimal(n)) == n,
    decreases n,
{
    if n < 10 {
        assert(digit_value(digit_char(n)) == n);
        assert(decimal(n).drop_last() =~= Seq::<char>::empty());
        assert(digits_value(Seq::<char>::empty()) == 0);
        assert(decimal(n).last() == digit_char(n));
    } else {
        lemma_decimal(n / 10);
        let s = decimal(n);
        assert(s.drop_last() =~= decimal(n / 10));
        assert(digit_value(digit_char(n % 10)) == n % 10);
        assert(s.last() == digit_char(n % 10));
        assert(digits_value(s) == (n / 10) * 10 + n % 10);
        assert((n / 10) * 10 + n % 10 == n) by (nonlinear_arith);
        assert forall|j: int| 0 <= j < s.len() implies is_digit(#[trigger] s[j]) by {
            if j < s.len() - 1 {
                assert(s[j] == decimal(n / 10)[j]);
            }
        }
    }
}

/// Reading back the decimal writing of an identifier gives the identifier.
pub proof fn lemma_parse_render(id: u16)
    ensures
        spec_parse_id(decimal(id as nat)) == Some(id),
{
    lemma_decimal(id as nat);
    assert(unsigned_body(decimal(id as nat)) == decimal(id as nat));
}

/// Why a request carries no usable session identifier.
#[derive(Clone, Copy, Debug, PartialEq, Eq, Structural)]
pub enum SessionError {
    /// No session cookie came with the request.
    Missing,
    /// The cookie does not hold a session identifier.
    Malformed,
}

/// The session that a request belongs to, from the value of its session
/// cookie, if it had one.
pub fn session_from_cookie(value: Option<&str>) -> (r: Result<u16, SessionError>)
    ensures
        value.is_none() ==> r == Err::<u16, SessionError>(SessionError::Missing),
        value.is_some() ==> r == (match spec_parse_id(value.unwrap()@) {
            Some(id) => Ok(id),
            None => Err(SessionError::Malformed),
        }),
{
    match value {
        None => Err(SessionError::Missing),
        Some(v) => match parse_session_id(v) {
            Some(id) => Ok(id),
            None => Err(SessionError::Malformed),
        },
    }
}

/// The response status that reports a session error: unauthorized for a
/// missing cookie, bad request for a malformed one.
pub fn session_error_status(e: SessionError) -> (r: u16)
    ensures
        r == (match e {
            SessionError::Missing => 401u16,
            SessionError::Malformed => 400u16,
        }),
{
    match e {
        SessionError::Missing => 401,
        SessionError::Malformed => 400,
    }
}

impl ChatView {
    /// The chat page for the session `id`.
    pub fn for_session(id: u16) -> (r: ChatView)
        ensures
            r.user_id@ == decimal(id as nat),
    {
        ChatView { user_id: render_session_id(id) }
    }
}

} // verus!
