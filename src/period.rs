//! Parsing of a minimum-age threshold, and a tokenizer for unit-suffixed
//! durations such as `1h30m`.

use vstd::prelude::*;
use vstd::string::StrSliceExecFns;

verus! {

/// A signed span of time, in whole seconds.
#[derive(Clone, Copy, Debug, PartialEq, Eq)]
pub struct Duration {
    pub secs: i64,
}

/// The text that could not be read as a duration.
#[derive(Clone, Debug, PartialEq, Eq)]
pub struct DurationError {
    pub text: String,
}

pub open spec fn is_digit(c: char) -> bool {
    '0' <= c && c <= '9'
}

pub open spec fn all_digits(s: Seq<char>) -> bool {
    forall|i: int| 0 <= i < s.len() ==> is_digit(#[trigger] s[i])
}

/// The value of a string of decimal digits, most significant first.
pub open spec fn digits_value(s: Seq<char>) -> int
    decreases s.len(),
{
    if s.len() == 0 {
        0
    } else {
        digits_value(s.drop_last()) * 10 + (s.last() as u32 - '0' as u32)
    }
}

/// The integer that `s` writes in decimal: an optional sign, then one or
/// more ASCII digits and nothing else.
pub open spec fn decimal_value(s: Seq<char>) -> Option<int> {
    if s.len() > 0 && (s[0] == '+' || s[0] == '-') {
        let d = s.subrange(1, s.len() as int);
        if d.len() > 0 && all_digits(d) {
            if s[0] == '-' {
                Some(-digits_value(d))
            } else {
                Some(digits_value(d))
            }
        } else {
            None
        }
    } else if s.len() > 0 && all_digits(s) {
        Some(digits_value(s))
    } else {
        None
    }
}

/// What `s` reads as, as a 64-bit signed integer.
pub open spec fn i64_value(s: Seq<char>) -> Option<int> {
    match decimal_value(s) {
        Some(v) => if i64::MIN <= v <= i64::MAX {
            Some(v)
        } else {
            None
        },
        None => None,
    }
}

/// The ASCII digit for `d`, below ten.
pub open spec fn digit_char(d: nat) -> char {
    (d + 48) as u8 as char
}

/// `n` written in decimal, with no sign and no leading zero.
pub open spec fn decimal_text(n: nat) -> Seq<char>
    decreases n,
{
    if n < 10 {
        seq![digit_char(n)]
    } else {
        decimal_text(n / 10).push(digit_char(n % 10))
    }
}

proof fn lemma_digit_char(d: nat)
    requires
        d < 10,
    ensures
        is_digit(digit_char(d)),
        digit_char(d) as u32 - '0' as u32 == d,
{
    assert((d + 48) as u8 as char as u32 == d + 48);
}

proof fn lemma_decimal_text_digits(n: nat)
    ensures
        decimal_text(n).len() > 0,
        all_digits(decimal_text(n)),
        digits_value(decimal_text(n)) == n,
    decreases n,
{
    if n < 10 {
        lemma_digit_char(n);
        let s = decimal_text(n);
        assert(s.drop_last() =~= Seq::<char>::empty());
        assert(digits_value(s.drop_last()) == 0);
        assert(s.last() == digit_char(n));
    } else {
        lemma_decimal_text_digits(n / 10);
        lemma_digit_char(n % 10);
        let s = decimal_text(n);
        assert(s.drop_last() =~= decimal_text(n / 10));
        assert(s.last() == digit_char(n % 10));
        assert(digits_value(s) == digits_value(decimal_text(n / 10)) * 10 + (n % 10));
        assert(n == (n / 10) * 10 + n % 10) by (nonlinear_arith);
        assert forall|i: int| 0 <= i < s.len() implies is_digit(#[trigger] s[i]) by {
            if i < s.len() - 1 {
                assert(s[i] == decimal_text(n / 10)[i]);
            }
        }
    }
}

/// Every non-negative integer that fits in 64 bits, written in decimal,
/// reads back as itself.
pub proof fn lemma_decimal_text_reads_back(n: nat)
    requires
        n <= i64::MAX,
    ensures
        i64_value(decimal_text(n)) == Some(n as int),
{
    lemma_decimal_text_digits(n);
}

/// Relies on std's `FromStr for i64`: it accepts an optional `+` or `-`
/// followed by ASCII digits only, and fails when the value is out of range.
#[verifier::external_body]
fn parse_i64(s: &str) -> (r: Option<i64>)
    ensures
        match r {
            Some(v) => i64_value(s@) == Some(v as int),
            None => i64_value(s@) is None,
        },
{
    s.parse::<i64>().ok()
}

/// Reads a whole number of seconds.
pub fn parse_duration(s: &str) -> (r: Result<Duration, DurationError>)
    ensures
        match i64_value(s@) {
            Some(v) => r is Ok && r->Ok_0.secs == v,
            None => r is Err && r->Err_0.text@ == s@,
        },
{
    match parse_i64(s) {
        Some(secs) => Ok(Duration { secs }),
        None => Err(DurationError { text: s.to_owned() }),
    }
}

pub open spec fn is_ascii_alpha(c: char) -> bool {
    ('a' <= c && c <= 'z') || ('A' <= c && c <= 'Z')
}

pub open spec fn ascii_upper(c: char) -> char {
    if 'a' <= c && c <= 'z' {
        ((c as u8) - 32) as u8 as char
    } else {
        c
    }
}

fn upper_of(c: char) -> (r: char)
    ensures
        r == ascii_upper(c),
{
    if 'a' <= c && c <= 'z' {
        (c as u8 - 32u8) as char
    } else {
        c
    }
}

/// Splits text such as `1h30m` into pieces: the text before each ASCII
/// letter, with that letter in upper case.
pub struct Parts<'s> {
    inner: &'s str,
}

impl<'s> View for Parts<'s> {
    type V = Seq<char>;

    /// The text not yet split.
    closed spec fn view(&self) -> Seq<char> {
        self.inner@
    }
}

impl<'s> Parts<'s> {
    pub fn new(inner: &'s str) -> (r: Parts<'s>)
        ensures
            r@ == inner@,
    {
        Parts { inner }
    }

    /// The text up to the next ASCII letter, and that letter in upper case;
    /// the rest is kept for the following call. `None`, with nothing
    /// consumed, once no letter is left.
    pub fn next(&mut self) -> (r: Option<(&'s str, char)>)
        ensures
            match r {
                Some((init, unit)) => {
                    let k = init@.len();
                    &&& k < old(self)@.len()
                    &&& init@ == old(self)@.take(k as int)
                    &&& forall|j: int| 0 <= j < k ==> !is_ascii_alpha(#[trigger] old(self)@[j])
                    &&& is_ascii_alpha(old(self)@[k as int])
                    &&& unit == ascii_upper(old(self)@[k as int])
                    &&& final(self)@ == old(self)@.skip(k + 1 as int)
                },
                None => {
                    &&& forall|j: int| 0 <= j < old(self)@.len() ==> !is_ascii_alpha(#[trigger] old(self)@[j])
                    &&& final(self)@ == old(self)@
                },
            },
    {
        let n = self.inner.unicode_len();
        let mut i: usize = 0;
        while i < n
            invariant
                self@ == old(self)@,
                n == self.inner@.len(),
                i <= n,
                forall|j: int| 0 <= j < i ==> !is_ascii_alpha(#[trigger] self.inner@[j]),
            decreases n - i,
        {
            let c = self.inner.get_char(i);
            if ('a' <= c && c <= 'z') || ('A' <= c && c <= 'Z') {
                let init = self.inner.substring_char(0, i);
                let rest = self.inner.substring_char(i + 1, n);
                assert(init@.len() == i);
                self.inner = rest;
                return Some((init, upper_of(c)));
            }
            i = i + 1;
        }
        None
    }
}

} // verus!
