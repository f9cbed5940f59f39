//! The minute count given as text, and the settings made from it.
use vstd::prelude::*;

verus! {

/// The command line: a length in minutes, as typed.
#[derive(Debug)]
pub struct Cli {
    pub time: String,
}

/// A session's length in minutes and seconds, and the seconds counted.
#[derive(Debug, Clone, Copy, PartialEq, Eq, Structural)]
pub struct Config {
    pub time_min: usize,
    pub time_sec: usize,
    pub current_time: usize,
}

pub open spec fn is_digit(c: char) -> bool {
    '0' <= c && c <= '9'
}

pub open spec fn digit_value(c: char) -> nat {
    (c as int - '0' as int) as nat
}

pub open spec fn all_digits(s: Seq<char>) -> bool {
    forall|i: int| 0 <= i < s.len() ==> is_digit(#[trigger] s[i])
}

/// The number that a string of decimal digits writes.
pub open spec fn digits_value(s: Seq<char>) -> nat
    decreases s.len(),
{
    if s.len() == 0 {
        0
    } else {
        digits_value(s.drop_last()) * 10 + digit_value(s.last())
    }
}

/// The text after an optional leading `+`.
pub open spec fn unsigned_body(s: Seq<char>) -> Seq<char> {
    if s.len() > 0 && s[0] == '+' {
        s.drop_first()
    } else {
        s
    }
}

/// The unsigned number that `s` writes: an optional `+`, then one or more
/// decimal digits and nothing else.
pub open spec fn parsed_number(s: Seq<char>) -> Option<nat> {
    let b = unsigned_body(s);
    if b.len() > 0 && all_digits(b) {
        Some(digits_value(b))
    } else {
        None
    }
}

/// Whether `s` gives a minute count whose length in seconds fits a `usize`.
pub open spec fn valid_minutes(s: Seq<char>) -> bool {
    parsed_number(s) is Some && 60 * parsed_number(s)->0 <= usize::MAX
}

/// A prefix of a string of digits writes a number no larger than the whole.
proof fn lemma_prefix_value_le(b: Seq<char>, j: int)
    requires
        0 <= j <= b.len(),
    ensures
        digits_value(b.take(j)) <= digits_value(b),
    decreases b.len(),
{
    if j < b.len() {
        assert(b.drop_last().take(j) =~= b.take(j));
        lemma_prefix_value_le(b.drop_last(), j);
    } else {
        assert(b.take(j) =~= b);
    }
}

/// Reads an unsigned decimal number, as `str::parse::<usize>` does: an
/// optional `+`, then one or more digits, no more than `usize::MAX`.
pub fn parse_number(s: &str) -> (r: Option<usize>)
    ensures
        r is Some <==> (parsed_number(s@) is Some && parsed_number(s@)->0 <= usize::MAX),
        r is Some ==> r->0 == parsed_number(s@)->0,
{
    let len = s.unicode_len();
    let start: usize = if len > 0 && s.get_char(0) == '+' {
        1
    } else {
        0
    };
    let ghost b = unsigned_body(s@);
    assert(b =~= s@.subrange(start as int, len as int));
    if start == len {
        return None;
    }
    let mut acc: usize = 0;
    let mut i: usize = start;
    assert(s@.subrange(start as int, start as int) =~= Seq::<char>::empty());
    while i < len
        invariant
            start <= i <= len,
            len == s@.len(),
            b == s@.subrange(start as int, len as int),
            b == unsigned_body(s@),
            all_digits(s@.subrange(start as int, i as int)),
            acc == digits_value(s@.subrange(start as int, i as int)),
        decreases len - i,
    {
        let c = s.get_char(i);
        if c < '0' || c > '9' {
            assert(b[i - start] == c);
            assert(!all_digits(b));
            return None;
        }
        let d = (c as u32 - '0' as u32) as usize;
        let ghost next = s@.subrange(start as int, i + 1);
        assert(next.drop_last() =~= s@.subrange(start as int, i as int));
        assert(next.last() == c);
        assert(d == digit_value(c));
        assert(digits_value(next) == acc * 10 + d);
        if acc > (usize::MAX - d) / 10 {
            assert(acc * 10 + d > usize::MAX) by (nonlinear_arith)
                requires
                    acc > (usize::MAX - d) / 10,
                    d <= 9,
            ;
            proof {
                if all_digits(b) {
                    assert(b.take(i + 1 - start) =~= next);
                    lemma_prefix_value_le(b, i + 1 - start);
                }
            }
            return None;
        }
        assert(acc * 10 + d <= usize::MAX) by (nonlinear_arith)
            requires
                acc <= (usize::MAX - d) / 10,
                d <= 9,
        ;
        acc = acc * 10 + d;
        i = i + 1;
    }
    assert(s@.subrange(start as int, i as int) =~= b);
    Some(acc)
}

impl Config {
    /// Settings for the minute count that `cli.time` gives; an error where
    /// the text is no such count or its length in seconds does not fit.
    pub fn new(cli: Cli) -> (r: Result<Config, &'static str>)
        ensures
            r is Ok <==> valid_minutes(cli.time@),
            match r {
                Ok(c) => c.time_min == parsed_number(cli.time@)->0 && c.time_sec == 60
                    * c.time_min && c.current_time == 0,
                Err(e) => e@ == "Please enter a valid time in minutes"@,
            },
    {
        let time_min = match parse_number(cli.time.as_str()) {
            Some(t) => t,
            None => return Err("Please enter a valid time in minutes"),
        };
        if time_min > usize::MAX / 60 {
            return Err("Please enter a valid time in minutes");
        }
        let time_sec: usize = 60 * time_min;
        let current_time: usize = 0;
        Ok(Config { time_min, time_sec, current_time })
    }
}

} // verus!
