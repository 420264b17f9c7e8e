//! Text helpers and the validation of what users type into the prompts.

use vstd::prelude::*;

verus! {

/// Character-wise equality of two strings.
pub fn str_eq(a: &str, b: &str) -> (r: bool)
    ensures
        r == (a@ == b@),
{
    let n = a.unicode_len();
    if n != b.unicode_len() {
        return false;
    }
    let mut i: usize = 0;
    while i < n
        invariant
            n == a@.len(),
            n == b@.len(),
            i <= n,
            forall|k: int| 0 <= k < i ==> a@[k] == b@[k],
        decreases n - i,
    {
        if a.get_char(i) != b.get_char(i) {
            return false;
        }
        i += 1;
    }
    assert(a@ =~= b@);
    true
}

pub open spec fn is_digit(c: char) -> bool {
    '0' <= c <= '9'
}

pub open spec fn is_sign(c: char) -> bool {
    c == '+' || c == '-'
}

pub open spec fn is_exp_mark(c: char) -> bool {
    c == 'e' || c == 'E'
}

pub const INF_LOWER: &'static str = "inf";
pub const INF_UPPER: &'static str = "INF";
pub const INFINITY_LOWER: &'static str = "infinity";
pub const INFINITY_UPPER: &'static str = "INFINITY";
pub const NAN_LOWER: &'static str = "nan";
pub const NAN_UPPER: &'static str = "NAN";

/// `s` spells a word whose lower-case form is `lw` and upper-case form `uw`,
/// each letter in either case.
pub open spec fn word_ci(s: Seq<char>, lw: Seq<char>, uw: Seq<char>) -> bool {
    s.len() == lw.len() && forall|i: int| 0 <= i < s.len() ==> #[trigger] s[i] == lw[i] || s[i] == uw[i]
}

/// Digits with at most one decimal point, and at least one digit.
pub open spec fn is_mantissa(m: Seq<char>) -> bool {
    &&& forall|i: int| 0 <= i < m.len() ==> is_digit(#[trigger] m[i]) || m[i] == '.'
    &&& forall|i: int, j: int|
        0 <= i < m.len() && 0 <= j < m.len() && #[trigger] m[i] == '.' && #[trigger] m[j] == '.'
            ==> i == j
    &&& exists|i: int| 0 <= i < m.len() && is_digit(#[trigger] m[i])
}

pub open spec fn all_digits(d: Seq<char>) -> bool {
    forall|i: int| 0 <= i < d.len() ==> is_digit(#[trigger] d[i])
}

/// `s` without its leading sign, if it has one.
pub open spec fn unsigned_part(s: Seq<char>) -> Seq<char> {
    if s.len() > 0 && is_sign(s[0]) {
        s.drop_first()
    } else {
        s
    }
}

/// What follows the exponent mark: an optional sign, then at least one digit.
pub open spec fn is_exponent(e: Seq<char>) -> bool {
    unsigned_part(e).len() > 0 && all_digits(unsigned_part(e))
}

pub open spec fn is_number(b: Seq<char>) -> bool {
    is_mantissa(b) || exists|k: int|
        0 <= k < b.len() && is_exp_mark(b[k]) && is_mantissa(#[trigger] b.subrange(0, k))
            && is_exponent(b.subrange(k + 1, b.len() as int))
}

/// The text of a floating-point number as Rust's `f64` parser reads it: an
/// optional sign, then `inf`, `infinity` or `nan` in any case, or digits with
/// an optional decimal point and an optional exponent.
pub open spec fn float_literal(s: Seq<char>) -> bool {
    let b = unsigned_part(s);
    ||| word_ci(b, INF_LOWER@, INF_UPPER@)
    ||| word_ci(b, INFINITY_LOWER@, INFINITY_UPPER@)
    ||| word_ci(b, NAN_LOWER@, NAN_UPPER@)
    ||| is_number(b)
}

fn word_at(s: &str, lo: usize, lw: &str, uw: &str) -> (r: bool)
    requires
        lo <= s@.len(),
        lw@.len() == uw@.len(),
    ensures
        r == word_ci(s@.subrange(lo as int, s@.len() as int), lw@, uw@),
{
    let ghost b = s@.subrange(lo as int, s@.len() as int);
    let n = s.unicode_len();
    let w = lw.unicode_len();
    if n - lo != w {
        return false;
    }
    let mut i: usize = 0;
    while i < w
        invariant
            n == s@.len(),
            w == lw@.len(),
            w == uw@.len(),
            lo + w == n,
            b == s@.subrange(lo as int, s@.len() as int),
            i <= w,
            forall|k: int| 0 <= k < i ==> #[trigger] b[k] == lw@[k] || b[k] == uw@[k],
        decreases w - i,
    {
        let c = s.get_char(lo + i);
        assert(c == b[i as int]);
        if c != lw.get_char(i) && c != uw.get_char(i) {
            return false;
        }
        i += 1;
    }
    true
}

fn mantissa_at(s: &str, lo: usize, hi: usize) -> (r: bool)
    requires
        lo <= hi <= s@.len(),
    ensures
        r == is_mantissa(s@.subrange(lo as int, hi as int)),
{
    let ghost m = s@.subrange(lo as int, hi as int);
    let mut i: usize = lo;
    let mut dot_seen = false;
    let mut dot_at: usize = 0;
    let mut digit_seen = false;
    let mut digit_at: usize = 0;
    while i < hi
        invariant
            lo <= i <= hi,
            hi <= s@.len(),
            m == s@.subrange(lo as int, hi as int),
            forall|j: int| 0 <= j < i - lo ==> is_digit(#[trigger] m[j]) || m[j] == '.',
            !dot_seen ==> forall|j: int| 0 <= j < i - lo ==> #[trigger] m[j] != '.',
            dot_seen ==> lo <= dot_at < i && m[dot_at - lo] == '.' && forall|j: int|
                0 <= j < i - lo && #[trigger] m[j] == '.' ==> j == dot_at - lo,
            digit_seen ==> lo <= digit_at < i && is_digit(m[digit_at - lo]),
            !digit_seen ==> forall|j: int| 0 <= j < i - lo ==> !is_digit(#[trigger] m[j]),
        decreases hi - i,
    {
        let c = s.get_char(i);
        assert(c == m[i - lo]);
        if c == '.' {
            if dot_seen {
                assert(m[dot_at - lo] == '.' && m[i - lo] == '.');
                return false;
            }
            dot_seen = true;
            dot_at = i;
        } else if '0' <= c && c <= '9' {
            digit_seen = true;
            digit_at = i;
        } else {
            assert(!(is_digit(m[i - lo]) || m[i - lo] == '.'));
            return false;
        }
        i += 1;
    }
    if digit_seen {
        assert(is_digit(m[digit_at - lo]));
    }
    digit_seen
}

fn exponent_at(s: &str, lo: usize, hi: usize) -> (r: bool)
    requires
        lo <= hi <= s@.len(),
    ensures
        r == is_exponent(s@.subrange(lo as int, hi as int)),
{
    let ghost e = s@.subrange(lo as int, hi as int);
    let mut start: usize = lo;
    if lo < hi {
        let c = s.get_char(lo);
        if c == '+' || c == '-' {
            start = lo + 1;
        }
    }
    let ghost d = s@.subrange(start as int, hi as int);
    assert(d =~= unsigned_part(e));
    if start == hi {
        assert(d.len() == 0);
        assert(!is_exponent(e));
        return false;
    }
    let mut i: usize = start;
    while i < hi
        invariant
            lo <= start <= i <= hi,
            hi <= s@.len(),
            d == s@.subrange(start as int, hi as int),
            e == s@.subrange(lo as int, hi as int),
            d.len() > 0,
            d == unsigned_part(e),
            forall|j: int| 0 <= j < i - start ==> is_digit(#[trigger] d[j]),
        decreases hi - i,
    {
        let c = s.get_char(i);
        assert(c == d[i - start]);
        if !('0' <= c && c <= '9') {
            assert(!is_digit(d[i - start]));
            return false;
        }
        i += 1;
    }
    true
}

fn number_at(s: &str, lo: usize) -> (r: bool)
    requires
        lo <= s@.len(),
    ensures
        r == is_number(s@.subrange(lo as int, s@.len() as int)),
{
    let n = s.unicode_len();
    let ghost b = s@.subrange(lo as int, n as int);
    let mut k: usize = lo;
    while k < n && !(s.get_char(k) == 'e' || s.get_char(k) == 'E')
        invariant
            lo <= k <= n,
            n == s@.len(),
            b == s@.subrange(lo as int, n as int),
            forall|j: int| 0 <= j < k - lo ==> !is_exp_mark(#[trigger] b[j]),
        decreases n - k,
    {
        assert(s@[k as int] == b[k - lo]);
        k += 1;
    }
    if k == n {
        assert forall|j: int| 0 <= j < b.len() implies !(is_exp_mark(b[j]) && is_mantissa(
            #[trigger] b.subrange(0, j),
        ) && is_exponent(b.subrange(j + 1, b.len() as int))) by {}
        mantissa_at(s, lo, n)
    } else {
        let kb: usize = k - lo;
        assert(is_exp_mark(b[kb as int]));
        assert(!is_mantissa(b));
        assert(b.subrange(0, kb as int) =~= s@.subrange(lo as int, k as int));
        assert(b.subrange(kb + 1, b.len() as int) =~= s@.subrange(k + 1, n as int));
        assert forall|j: int|
            0 <= j < b.len() && j != kb && is_exp_mark(b[j]) implies !is_mantissa(
            #[trigger] b.subrange(0, j),
        ) by {
            if j > kb {
                assert(b.subrange(0, j)[kb as int] == b[kb as int]);
            }
        }
        let m = mantissa_at(s, lo, k);
        let x = exponent_at(s, k + 1, n);
        m && x
    }
}

/// Whether a reply to the amount prompt is a number, integer or decimal,
/// that is, text that Rust's `f64` parser accepts.
pub fn is_numeric(s: &str) -> (r: bool)
    ensures
        r == float_literal(s@),
{
    let n = s.unicode_len();
    let mut start: usize = 0;
    if n > 0 {
        let c = s.get_char(0);
        if c == '+' || c == '-' {
            start = 1;
        }
    }
    assert(s@.subrange(start as int, n as int) =~= unsigned_part(s@));
    proof {
        reveal_strlit("inf");
        reveal_strlit("INF");
        reveal_strlit("infinity");
        reveal_strlit("INFINITY");
        reveal_strlit("nan");
        reveal_strlit("NAN");
    }
    if word_at(s, start, INF_LOWER, INF_UPPER) {
        return true;
    }
    if word_at(s, start, INFINITY_LOWER, INFINITY_UPPER) {
        return true;
    }
    if word_at(s, start, NAN_LOWER, NAN_UPPER) {
        return true;
    }
    number_at(s, start)
}

pub open spec fn is_hex_digit(c: char) -> bool {
    ('0' <= c <= '9') || ('a' <= c <= 'f') || ('A' <= c <= 'F')
}

/// The white space that the address parser passes over.
pub open spec fn is_hex_space(c: char) -> bool {
    c == ' ' || c == '\r' || c == '\n' || c == '\t'
}

pub open spec fn hex_digit_count(t: Seq<char>) -> nat
    decreases t.len(),
{
    if t.len() == 0 {
        0
    } else {
        hex_digit_count(t.drop_last()) + if is_hex_digit(t.last()) {
            1nat
        } else {
            0nat
        }
    }
}

/// Forty hex digits, with spaces, tabs and line breaks allowed among them.
pub open spec fn hex_address_body(t: Seq<char>) -> bool {
    &&& forall|i: int| 0 <= i < t.len() ==> is_hex_digit(#[trigger] t[i]) || is_hex_space(t[i])
    &&& hex_digit_count(t) == 40
}

pub open spec fn has_hex_prefix(s: Seq<char>) -> bool {
    s.len() >= 2 && s[0] == '0' && s[1] == 'x'
}

/// A token address as users type it: `0x`, then the forty hex digits.
pub open spec fn valid_address(s: Seq<char>) -> bool {
    has_hex_prefix(s) && hex_address_body(s.subrange(2, s.len() as int))
}

/// Relies on ethers' `Address::from_str` (the fixed-hash parser of `H160`):
/// it drops one leading `0x`, passes over spaces, tabs, carriage returns and
/// line feeds, fails on any other character that is not a hex digit, and
/// succeeds exactly when forty hex digits remain.
#[verifier::external_body]
fn address_parses(s: &str) -> (r: bool)
    ensures
        r == hex_address_body(
            if has_hex_prefix(s@) {
                s@.subrange(2, s@.len() as int)
            } else {
                s@
            },
        ),
{
    match <ethers::types::Address as std::str::FromStr>::from_str(s) {
        Ok(_) => true,
        Err(_) => false,
    }
}

/// Whether a reply to a token prompt is an account address: it starts with
/// `0x` and ethers reads it as an address.
pub fn is_valid_address(s: &str) -> (r: bool)
    ensures
        r == valid_address(s@),
{
    let n = s.unicode_len();
    if n < 2 || s.get_char(0) != '0' || s.get_char(1) != 'x' {
        return false;
    }
    address_parses(s)
}

proof fn lemma_all_hex_count(t: Seq<char>)
    requires
        forall|i: int| 0 <= i < t.len() ==> is_hex_digit(#[trigger] t[i]),
    ensures
        hex_digit_count(t) == t.len(),
    decreases t.len(),
{
    if t.len() > 0 {
        let u = t.drop_last();
        assert forall|i: int| 0 <= i < u.len() implies is_hex_digit(#[trigger] u[i]) by {
            assert(u[i] == t[i]);
        }
        lemma_all_hex_count(u);
    }
}

/// `0x` followed by forty hex digits is an address. Text that does not
/// start with `0x` is not, nor is text with a character after the prefix
/// that is neither a hex digit nor white space.
pub proof fn lemma_address_forms(s: Seq<char>)
    ensures
        (has_hex_prefix(s) && s.len() == 42 && forall|i: int|
            2 <= i < 42 ==> is_hex_digit(#[trigger] s[i])) ==> valid_address(s),
        !has_hex_prefix(s) ==> !valid_address(s),
        (exists|i: int| 2 <= i < s.len() && !is_hex_digit(#[trigger] s[i]) && !is_hex_space(s[i]))
            ==> !valid_address(s),
{
    let t = s.subrange(2, s.len() as int);
    if has_hex_prefix(s) && s.len() == 42 && forall|i: int|
        2 <= i < 42 ==> is_hex_digit(#[trigger] s[i]) {
        assert forall|i: int| 0 <= i < t.len() implies is_hex_digit(#[trigger] t[i]) by {
            assert(t[i] == s[i + 2]);
        }
        lemma_all_hex_count(t);
    }
    if exists|i: int| 2 <= i < s.len() && !is_hex_digit(#[trigger] s[i]) && !is_hex_space(s[i]) {
        let i = choose|i: int| 2 <= i < s.len() && !is_hex_digit(#[trigger] s[i]) && !is_hex_space(s[i]);
        assert(t[i - 2] == s[i]);
    }
}

} // verus!
