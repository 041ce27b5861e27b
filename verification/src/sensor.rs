//! Where a sensor sends its measurements: the sink that its rank, the
//! number at the end of its name, assigns to it.

use vstd::prelude::*;
use vstd::string::StringExecFns;
use vstd::string::StrSliceExecFns;
use vstd::utf8::encode_utf8;

verus! {

/// The rank of a node whose name carries none.
pub const DEFAULT_RANK: u64 = 3;

/// The highest rank that reports to the first sink.
pub const LAST_RANK_OF_FIRST_SINK: u64 = 7;

/// Whether `b` is the code of a decimal digit.
pub open spec fn is_digit(b: u8) -> bool {
    48 <= b <= 57
}

/// The number that the decimal digits `s` spell; zero for no digits.
pub open spec fn digits_value(s: Seq<u8>) -> nat
    decreases s.len(),
{
    if s.len() == 0 {
        0
    } else {
        (digits_value(s.drop_last()) * 10 + (s.last() - 48)) as nat
    }
}

/// Whether `s` is one decimal digit or more.
pub open spec fn all_digits(s: Seq<u8>) -> bool {
    s.len() > 0 && forall|i: int| 0 <= i < s.len() ==> is_digit(#[trigger] s[i])
}

/// The digits of `s`: what follows one leading plus sign, if there is one.
pub open spec fn unsigned_part(s: Seq<u8>) -> Seq<u8> {
    if s.len() > 0 && s[0] == 43 {
        s.skip(1)
    } else {
        s
    }
}

/// The number that the text `s` spells: decimal digits after at most one
/// plus sign, with a value that fits in 64 bits. Nothing for any other text.
pub open spec fn number_of(s: Seq<u8>) -> Option<u64> {
    let d = unsigned_part(s);
    if all_digits(d) && digits_value(d) <= u64::MAX {
        Some(digits_value(d) as u64)
    } else {
        None
    }
}

/// The rank of the node called `name`, given as bytes: the number that
/// follows the first four bytes, or the default rank if no number does.
pub open spec fn rank_of(name: Seq<u8>) -> u64 {
    if name.len() >= 4 && number_of(name.skip(4)) is Some {
        number_of(name.skip(4))->Some_0
    } else {
        DEFAULT_RANK
    }
}

/// Digits that spell too much still spell too much with more digits.
proof fn lemma_value_grows(s: Seq<u8>, n: int)
    requires
        0 <= n <= s.len(),
        forall|i: int| 0 <= i < s.len() ==> is_digit(#[trigger] s[i]),
    ensures
        digits_value(s.take(n)) <= digits_value(s),
    decreases s.len() - n,
{
    if n < s.len() {
        lemma_value_grows(s, n + 1);
        assert(s.take(n + 1).drop_last() =~= s.take(n));
        assert(s.take(n + 1).last() == s[n]);
        assert(is_digit(s[n]));
    } else {
        assert(s.take(n) =~= s);
    }
}

/// The number that `text` spells from index `from` on: see `number_of`.
fn parse_number(text: &Vec<u8>, from: usize) -> (r: Option<u64>)
    requires
        from <= text@.len(),
    ensures
        r == number_of(text@.skip(from as int)),
{
    let ghost s = text@.skip(from as int);
    let mut i: usize = from;
    if i < text.len() && text[i] == 43 {
        i += 1;
    }
    let start = i;
    let ghost d = unsigned_part(s);
    assert(d =~= text@.skip(start as int));
    if i >= text.len() {
        return None;
    }
    let mut value: u64 = 0;
    while i < text.len()
        invariant
            start <= i <= text@.len(),
            from <= text@.len(),
            d == text@.skip(start as int),
            d == unsigned_part(text@.skip(from as int)),
            d.len() > 0,
            forall|j: int| 0 <= j < i - start ==> is_digit(#[trigger] d[j]),
            value == digits_value(d.take(i - start)),
        decreases text@.len() - i,
    {
        let b = text[i];
        assert(d[i - start] == b);
        if b < 48 || b > 57 {
            assert(!is_digit(d[i - start]));
            return None;
        }
        let digit = (b - 48) as u64;
        proof {
            assert(d.take(i - start + 1).drop_last() =~= d.take(i - start));
            assert(d.take(i - start + 1).last() == b);
        }
        if value > (u64::MAX - digit) / 10 {
            proof {
                let next = d.take(i - start + 1);
                assert(digits_value(next) == value * 10 + digit);
                assert(digits_value(next) > u64::MAX);
                if all_digits(d) {
                    lemma_value_grows(d, i - start + 1);
                }
            }
            return None;
        }
        value = value * 10 + digit;
        i += 1;
    }
    assert(d.take(d.len() as int) =~= d);
    Some(value)
}

/// The sink that the sensor `node_name` reports to, and the sink it falls
/// back on: the first and the second sink for a rank up to seven, the second
/// and the first for a higher one.
pub fn closest_sink(node_name: &String) -> (sinks: (String, String))
    ensures
        rank_of(encode_utf8(node_name@)) > LAST_RANK_OF_FIRST_SINK ==> sinks.0@ == "node2"@
            && sinks.1@ == "node1"@,
        rank_of(encode_utf8(node_name@)) <= LAST_RANK_OF_FIRST_SINK ==> sinks.0@ == "node1"@
            && sinks.1@ == "node2"@,
{
    let bytes = node_name.as_str().as_bytes_vec();
    let rank = if bytes.len() >= 4 {
        match parse_number(&bytes, 4) {
            Some(n) => n,
            None => DEFAULT_RANK,
        }
    } else {
        DEFAULT_RANK
    };
    if rank > LAST_RANK_OF_FIRST_SINK {
        (String::from_str("node2"), String::from_str("node1"))
    } else {
        (String::from_str("node1"), String::from_str("node2"))
    }
}

} // verus!
