//! Runtime configuration: the ZeroMQ endpoint and the concurrency limit.
use vstd::prelude::*;

verus! {

/// Configuration values that govern runtime connectivity and concurrency.
#[derive(Clone, Debug)]
pub struct ServiceConfig {
    pub zmq_endpoint: String,
    pub max_concurrent_sms: usize,
}

/// Endpoint used when none is configured.
pub open spec fn default_endpoint() -> Seq<char> {
    "tcp://127.0.0.1:5562"@
}

/// Concurrency limit used when none, or no number, is configured.
pub const DEFAULT_MAX_CONCURRENT_SMS: usize = 100;

pub open spec fn is_digit(c: char) -> bool {
    '0' <= c && c <= '9'
}

pub open spec fn digit_value(c: char) -> nat {
    (c as int - '0' as int) as nat
}

/// The number written by a sequence of decimal digits.
pub open spec fn digits_value(s: Seq<char>) -> nat
    decreases s.len(),
{
    if s.len() == 0 {
        0
    } else {
        digits_value(s.drop_last()) * 10 + digit_value(s.last())
    }
}

/// The number that `str::parse::<usize>` reads from `s`: an optional `+`
/// followed by one or more decimal digits, and nothing else, whose value
/// fits in a `usize`.
pub open spec fn parsed_usize(s: Seq<char>) -> Option<nat> {
    let digits = unsigned_part(s);
    if digits.len() > 0 && all_digits(digits) && digits_value(digits) <= usize::MAX {
        Some(digits_value(digits))
    } else {
        None
    }
}

/// The text after an optional leading `+`.
pub open spec fn unsigned_part(s: Seq<char>) -> Seq<char> {
    if s.len() > 0 && s[0] == '+' { s.drop_first() } else { s }
}

pub open spec fn all_digits(s: Seq<char>) -> bool {
    forall|i: int| 0 <= i < s.len() ==> is_digit(#[trigger] s[i])
}

/// One more digit multiplies the number by ten and adds the digit.
pub proof fn lemma_digits_value_push(s: Seq<char>, c: char)
    requires
        is_digit(c),
    ensures
        digits_value(s.push(c)) == digits_value(s) * 10 + (c as int - '0' as int),
{
    assert(s.push(c).drop_last() =~= s);
}

/// Digits that fit in a `usize` are read as their value, with or without a
/// leading `+`.
pub proof fn lemma_parsed_usize_of_digits(s: Seq<char>)
    requires
        s.len() > 0,
        forall|i: int| 0 <= i < s.len() ==> is_digit(#[trigger] s[i]),
        digits_value(s) <= usize::MAX,
    ensures
        parsed_usize(s) == Some(digits_value(s)),
        parsed_usize(seq!['+'] + s) == Some(digits_value(s)),
{
    assert((seq!['+'] + s).drop_first() =~= s);
}

/// A text with a character that is neither a digit nor a leading `+` is
/// not a number.
pub proof fn lemma_parsed_usize_rejects(s: Seq<char>, i: int)
    requires
        0 <= i < s.len(),
        !is_digit(s[i]),
        !(i == 0 && s[i] == '+'),
    ensures
        parsed_usize(s) is None,
{
    let digits = unsigned_part(s);
    if s.len() > 0 && s[0] == '+' {
        assert(digits[i - 1] == s[i]);
    } else {
        assert(digits[i] == s[i]);
    }
}

/// A number written with more digits keeps growing.
proof fn lemma_digits_value_grows(s: Seq<char>, k: int)
    requires
        0 <= k <= s.len(),
        forall|i: int| 0 <= i < s.len() ==> is_digit(#[trigger] s[i]),
    ensures
        digits_value(s.take(k)) <= digits_value(s),
    decreases s.len() - k,
{
    if k < s.len() {
        lemma_digits_value_grows(s, k + 1);
        assert(s.take(k + 1).drop_last() =~= s.take(k));
    } else {
        assert(s.take(k) =~= s);
    }
}

/// Reads a decimal number the way `str::parse::<usize>` does.
pub fn parse_usize(text: &str) -> (r: Option<usize>)
    ensures
        match r {
            Some(v) => parsed_usize(text@) == Some(v as nat),
            None => parsed_usize(text@) is None,
        },
{
    let ghost s = text@;
    let mut value: usize = 0;
    // characters seen so far, counted up to two
    let mut seen: usize = 0;
    // whether the first character was a `+`
    let mut signed = false;
    for c in it: text.chars()
        invariant
            it.seq() == s,
            s == text@,
            seen as int == if it.index() < 2 { it.index() } else { 2 },
            signed <==> (it.index() > 0 && s[0] == '+'),
            ({
                let start: int = if signed { 1 } else { 0 };
                &&& start <= it.index()
                &&& forall|i: int| start <= i < it.index() ==> is_digit(#[trigger] s[i])
                &&& value as nat == digits_value(s.subrange(start, it.index()))
            }),
    {
        let ghost idx = it.index();
        let ghost start: int = if signed { 1 } else { 0 };
        assert(s[idx] == c);
        if seen == 0 && c == '+' {
            signed = true;
            assert(s.subrange(1, 1) =~= Seq::<char>::empty());
        } else if '0' <= c && c <= '9' {
            let d = (c as u32 - '0' as u32) as usize;
            assert(s.subrange(start, idx + 1).drop_last() =~= s.subrange(start, idx));
            if value > (usize::MAX - d) / 10 {
                proof {
                    let next = s.subrange(start, idx + 1);
                    assert(digits_value(next) > usize::MAX) by (nonlinear_arith)
                        requires
                            digits_value(next) == value * 10 + d,
                            value > (usize::MAX - d) / 10,
                            d <= 9,
                    ;
                    let digits = s.subrange(start, s.len() as int);
                    assert(digits =~= unsigned_part(s));
                    if all_digits(digits) {
                        lemma_digits_value_grows(digits, idx + 1 - start);
                        assert(digits.take(idx + 1 - start) =~= next);
                    }
                }
                return None;
            }
            value = value * 10 + d;
        } else {
            proof {
                let digits = s.subrange(start, s.len() as int);
                assert(digits =~= unsigned_part(s));
                assert(!is_digit(digits[idx - start]));
            }
            return None;
        }
        if seen < 2 {
            seen = seen + 1;
        }
    }
    if seen == 0 || (seen == 1 && signed) {
        return None;
    }
    proof {
        let start: int = if signed { 1 } else { 0 };
        assert(s.subrange(start, s.len() as int) =~= unsigned_part(s));
    }
    Some(value)
}

impl ServiceConfig {
    /// The configuration given the configured endpoint and concurrency
    /// limit, when they are set: a missing endpoint is the local default;
    /// the limit must be a positive integer, and a missing, unreadable or
    /// zero limit is 100.
    pub fn from_values(zmq_endpoint: Option<String>, max_concurrent_sms: Option<String>) -> (config: Self)
        ensures
            config.zmq_endpoint@ == match zmq_endpoint {
                Some(e) => e@,
                None => default_endpoint(),
            },
            config.max_concurrent_sms as nat == match max_concurrent_sms {
                Some(t) => match parsed_usize(t@) {
                    Some(v) => if v > 0 { v } else { DEFAULT_MAX_CONCURRENT_SMS as nat },
                    None => DEFAULT_MAX_CONCURRENT_SMS as nat,
                },
                None => DEFAULT_MAX_CONCURRENT_SMS as nat,
            },
    {
        let zmq_endpoint = match zmq_endpoint {
            Some(e) => e,
            None => "tcp://127.0.0.1:5562".to_owned(),
        };
        let max_concurrent_sms = match max_concurrent_sms {
            Some(t) => match parse_usize(t.as_str()) {
                Some(v) => if v > 0 { v } else { DEFAULT_MAX_CONCURRENT_SMS },
                None => DEFAULT_MAX_CONCURRENT_SMS,
            },
            None => DEFAULT_MAX_CONCURRENT_SMS,
        };
        ServiceConfig { zmq_endpoint, max_concurrent_sms }
    }
}

} // verus!
