//! The text format of the answer log: one record per line, written as
//! `"<id> <answer text>"`. The id is a decimal integer, the first space
//! separates it from the answer, and the answer may itself contain spaces.
//! Lines that do not fit this shape are treated as malformed and skipped
//! by the loader.

use vstd::prelude::*;
use vstd::arithmetic::div_mod::lemma_fundamental_div_mod;
use vstd::string::*;

verus! {

/// A decimal digit, `'0'` through `'9'`.
pub open spec fn is_digit(c: char) -> bool {
    48 <= c as u32 <= 57
}

/// The numeric value of a decimal digit.
pub open spec fn digit_val(c: char) -> nat
    recommends
        is_digit(c),
{
    (c as u32 - 48) as nat
}

/// Every character of `s` is a decimal digit.
pub open spec fn all_digits(s: Seq<char>) -> bool {
    forall|i: int| 0 <= i < s.len() ==> is_digit(s[i])
}

/// The value of a digit string read most-significant first.
pub open spec fn dec_value(s: Seq<char>) -> nat
    decreases s.len(),
{
    if s.len() == 0 {
        0
    } else {
        dec_value(s.drop_last()) * 10 + digit_val(s.last())
    }
}

/// The digit character for a value below ten.
pub open spec fn digit_char(d: nat) -> char
    recommends
        d < 10,
{
    if d == 0 { '0' }
    else if d == 1 { '1' }
    else if d == 2 { '2' }
    else if d == 3 { '3' }
    else if d == 4 { '4' }
    else if d == 5 { '5' }
    else if d == 6 { '6' }
    else if d == 7 { '7' }
    else if d == 8 { '8' }
    else { '9' }
}

/// The canonical decimal rendering of `n`: no sign, no leading zeros
/// (except for zero itself).
pub open spec fn dec_digits(n: nat) -> Seq<char>
    decreases n,
{
    if n < 10 {
        seq![digit_char(n)]
    } else {
        dec_digits(n / 10).push(digit_char(n % 10))
    }
}

/// The canonical decimal rendering of a signed id: a minus sign before
/// the digits of the magnitude when negative.
pub open spec fn int_digits_spec(id: i64) -> Seq<char> {
    if id < 0 {
        seq!['-'] + dec_digits((-(id as int)) as nat)
    } else {
        dec_digits(id as nat)
    }
}

/// The index of the first occurrence of `c` in `s`, if any.
pub open spec fn find_char(s: Seq<char>, c: char) -> Option<int>
    decreases s.len(),
{
    if s.len() == 0 {
        None
    } else if s[0] == c {
        Some(0)
    } else {
        match find_char(s.skip(1), c) {
            Some(i) => Some(i + 1),
            None => None,
        }
    }
}

/// What an id field parses to: an optional sign followed by at least one
/// digit, whose value fits in `i64`; anything else is malformed.
pub open spec fn parse_int_spec(s: Seq<char>) -> Option<i64> {
    let neg = s.len() > 0 && s[0] == '-';
    let signed = s.len() > 0 && (s[0] == '-' || s[0] == '+');
    let digits = if signed { s.skip(1) } else { s };
    if digits.len() > 0 && all_digits(digits) {
        let m: int = if neg { -(dec_value(digits) as int) } else { dec_value(digits) as int };
        if i64::MIN <= m <= i64::MAX {
            Some(m as i64)
        } else {
            None
        }
    } else {
        None
    }
}

/// What a log line parses to: the text before the first space as an id,
/// everything after that space as the answer. A line with no space or an
/// unparsable id is malformed.
pub open spec fn parse_line_spec(line: Seq<char>) -> Option<(i64, Seq<char>)> {
    match find_char(line, ' ') {
        Some(i) => match parse_int_spec(line.take(i)) {
            Some(id) => Some((id, line.skip(i + 1))),
            None => None,
        },
        None => None,
    }
}

/// The line that records `answer` for `id`: the id's digits, one space,
/// then the answer text verbatim.
pub open spec fn encode_line_spec(id: i64, answer: Seq<char>) -> Seq<char> {
    int_digits_spec(id) + seq![' '] + answer
}

/// The decimal rendering of a number is nonempty and consists of digits.
pub proof fn lemma_dec_digits_wf(n: nat)
    ensures
        dec_digits(n).len() >= 1,
        all_digits(dec_digits(n)),
    decreases n,
{
    if n >= 10 {
        lemma_dec_digits_wf(n / 10);
        assert forall|i: int| 0 <= i < dec_digits(n).len() implies is_digit(dec_digits(n)[i]) by {
            if i < dec_digits(n / 10).len() {
                assert(dec_digits(n)[i] == dec_digits(n / 10)[i]);
            } else {
                assert(dec_digits(n)[i] == digit_char(n % 10));
            }
        }
    }
}

/// Reading back the decimal rendering of `n` yields `n`.
pub proof fn lemma_dec_value_of_digits(n: nat)
    ensures
        dec_value(dec_digits(n)) == n,
    decreases n,
{
    if n < 10 {
        let s = dec_digits(n);
        assert(s =~= seq![digit_char(n)]);
        assert(s.drop_last() =~= Seq::<char>::empty());
        assert(dec_value(s.drop_last()) == 0);
        assert(s.last() == digit_char(n));
        assert(dec_value(s) == 0 * 10 + digit_val(digit_char(n)));
        assert(digit_val(digit_char(n)) == n);
    } else {
        lemma_dec_value_of_digits(n / 10);
        let s = dec_digits(n);
        assert(s == dec_digits(n / 10).push(digit_char(n % 10)));
        assert(s.len() == dec_digits(n / 10).len() + 1);
        assert(s.drop_last() =~= dec_digits(n / 10));
        assert(s.last() == digit_char(n % 10));
        assert(digit_val(digit_char(n % 10)) == n % 10);
        assert(dec_value(s) == dec_value(dec_digits(n / 10)) * 10 + digit_val(digit_char(n % 10)));
        assert(dec_value(s) == (n / 10) * 10 + n % 10);
        lemma_fundamental_div_mod(n as int, 10);
        assert(n == 10 * (n / 10) + n % 10);
    }
}

/// A digit string is worth at least as much as any of its prefixes.
pub proof fn lemma_dec_value_monotone(s: Seq<char>, k: int)
    requires
        0 <= k <= s.len(),
    ensures
        dec_value(s) >= dec_value(s.take(k)),
    decreases s.len() - k,
{
    if k < s.len() {
        lemma_dec_value_monotone(s, k + 1);
        let t = s.take(k + 1);
        assert(t.drop_last() =~= s.take(k));
        assert(dec_value(t) == dec_value(s.take(k)) * 10 + digit_val(t.last()));
        assert(dec_value(s.take(k)) * 10 >= dec_value(s.take(k))) by (nonlinear_arith);
    } else {
        assert(s.take(k) =~= s);
    }
}

/// `find_char` returns the first occurrence, or rules every position out.
pub proof fn lemma_find_char_props(s: Seq<char>, c: char)
    ensures
        match find_char(s, c) {
            Some(i) => 0 <= i < s.len() && s[i] == c && (forall|j: int| 0 <= j < i ==> s[j] != c),
            None => forall|j: int| 0 <= j < s.len() ==> s[j] != c,
        },
    decreases s.len(),
{
    if s.len() > 0 && s[0] != c {
        lemma_find_char_props(s.skip(1), c);
        match find_char(s.skip(1), c) {
            Some(i) => {
                assert(s.skip(1)[i] == s[i + 1]);
                assert(find_char(s, c) == Some(i + 1));
                assert forall|j: int| 0 <= j < i + 1 implies s[j] != c by {
                    if j > 0 {
                        assert(s.skip(1)[j - 1] == s[j]);
                        assert(s.skip(1)[j - 1] != c);
                    }
                }
            },
            None => {
                assert(find_char(s, c) is None);
                assert forall|j: int| 0 <= j < s.len() implies s[j] != c by {
                    if j > 0 {
                        assert(s.skip(1)[j - 1] == s[j]);
                        assert(s.skip(1)[j - 1] != c);
                    }
                }
            },
        }
    }
}

/// A record line parses back to exactly the id and answer it was written
/// from, whatever the answer text holds.
pub proof fn lemma_encode_parse_roundtrip(id: i64, answer: Seq<char>)
    ensures
        parse_line_spec(encode_line_spec(id, answer)) == Some((id, answer)),
{
    let mag: nat = if id < 0 { (-(id as int)) as nat } else { id as nat };
    let ds = int_digits_spec(id);
    let line = encode_line_spec(id, answer);
    lemma_dec_digits_wf(mag);
    lemma_dec_value_of_digits(mag);

    // No space occurs before the separator.
    assert forall|j: int| 0 <= j < ds.len() implies line[j] != ' ' by {
        assert(line[j] == ds[j]);
        if id < 0 {
            if j == 0 {
                assert(ds[j] == '-');
            } else {
                assert(ds[j] == dec_digits(mag)[j - 1]);
                assert(is_digit(ds[j]));
            }
        } else {
            assert(is_digit(ds[j]));
        }
    }
    assert(line[ds.len() as int] == ' ');
    lemma_find_char_props(line, ' ');
    match find_char(line, ' ') {
        Some(i) => {
            assert(i == ds.len());
        },
        None => {
            assert(false);
        },
    }
    assert(line.take(ds.len() as int) =~= ds);
    assert(line.skip(ds.len() as int + 1) =~= answer);

    // The id field parses back to id.
    if id < 0 {
        assert(ds[0] == '-');
        assert(ds.skip(1) =~= dec_digits(mag));
        assert(parse_int_spec(ds) == Some(id));
    } else {
        assert(ds =~= dec_digits(mag));
        assert(is_digit(ds[0]));
        assert(ds[0] != '-' && ds[0] != '+');
        assert(parse_int_spec(ds) == Some(id));
    }
}

/// The one-character string for a digit value.
fn digit_str(d: u64) -> (r: &'static str)
    requires
        d < 10,
    ensures
        r@ =~= seq![digit_char(d as nat)],
{
    proof {
        reveal_strlit("0");
        reveal_strlit("1");
        reveal_strlit("2");
        reveal_strlit("3");
        reveal_strlit("4");
        reveal_strlit("5");
        reveal_strlit("6");
        reveal_strlit("7");
        reveal_strlit("8");
        reveal_strlit("9");
    }
    match d {
        0 => "0",
        1 => "1",
        2 => "2",
        3 => "3",
        4 => "4",
        5 => "5",
        6 => "6",
        7 => "7",
        8 => "8",
        _ => "9",
    }
}

/// Renders `n` in decimal, most significant digit first.
pub fn format_unsigned(n: u64) -> (r: String)
    ensures
        r@ == dec_digits(n as nat),
    decreases n,
{
    if n < 10 {
        digit_str(n).to_owned()
    } else {
        let mut s = format_unsigned(n / 10);
        s.append(digit_str(n % 10));
        proof {
            assert(s@ =~= dec_digits(n as nat));
        }
        s
    }
}

/// Renders a signed id in decimal, with a leading minus when negative.
pub fn format_int(id: i64) -> (r: String)
    ensures
        r@ == int_digits_spec(id),
{
    if id >= 0 {
        format_unsigned(id as u64)
    } else {
        let mag: u64 = if id == i64::MIN {
            9223372036854775808
        } else {
            (-id) as u64
        };
        proof {
            assert(mag as nat == (-(id as int)) as nat);
        }
        let mut s = "-".to_owned();
        proof {
            reveal_strlit("-");
        }
        s.append(format_unsigned(mag).as_str());
        proof {
            assert(s@ =~= int_digits_spec(id));
        }
        s
    }
}

/// Builds the log line that records `answer` for `id`.
pub fn encode_line(id: i64, answer: &str) -> (r: String)
    ensures
        r@ == encode_line_spec(id, answer@),
{
    let mut s = format_int(id);
    s.append(" ");
    s.append(answer);
    proof {
        reveal_strlit(" ");
        assert(s@ =~= encode_line_spec(id, answer@));
    }
    s
}

/// Parses an id field: an optional sign and decimal digits, with the
/// value required to fit in `i64`.
pub fn parse_int(s: &str) -> (r: Option<i64>)
    ensures
        r == parse_int_spec(s@),
{
    let n = s.unicode_len();
    let mut neg = false;
    let mut signed = false;
    if n > 0 {
        let c0 = s.get_char(0);
        neg = c0 == '-';
        signed = c0 == '-' || c0 == '+';
    }
    let start: usize = if signed { 1 } else { 0 };
    let ghost digits: Seq<char> = if signed { s@.skip(1) } else { s@ };
    assert(digits.len() == n - start);
    if n == start {
        return None;
    }
    let limit: u64 = if neg { 9223372036854775808 } else { 9223372036854775807 };
    let mut acc: u64 = 0;
    let mut i: usize = start;
    while i < n
        invariant
            start <= i <= n,
            n == s@.len(),
            start == 0 || start == 1,
            start == 1 <==> signed,
            neg <==> (s@.len() > 0 && s@[0] == '-'),
            signed <==> (s@.len() > 0 && (s@[0] == '-' || s@[0] == '+')),
            digits == (if signed { s@.skip(1) } else { s@ }),
            digits.len() == n - start,
            n > start,
            limit == (if neg { 9223372036854775808u64 } else { 9223372036854775807u64 }),
            all_digits(digits.take(i - start)),
            acc == dec_value(digits.take(i - start)),
            acc <= limit,
        decreases n - i,
    {
        let c = s.get_char(i);
        let v = c as u32;
        proof {
            assert(digits[i - start] == s@[i as int]);
        }
        if v < 48 || v > 57 {
            proof {
                assert(!is_digit(digits[i - start]));
                assert(!all_digits(digits));
            }
            return None;
        }
        let d: u64 = (v - 48) as u64;
        if acc > (limit - d) / 10 {
            proof {
                assert(acc * 10 + d > limit) by (nonlinear_arith)
                    requires
                        acc > (limit - d) / 10,
                        d <= limit,
                        acc <= 0xffff_ffff_ffff_ffff,
                        limit <= 0x8000_0000_0000_0000,
                ;
                let t = digits.take(i - start + 1);
                assert(t.drop_last() =~= digits.take(i - start));
                assert(t.last() == digits[i - start]);
                assert(digit_val(digits[i - start]) == d);
                assert(dec_value(t) == acc * 10 + d);
                if all_digits(digits) {
                    lemma_dec_value_monotone(digits, i - start + 1);
                    assert(dec_value(digits) > limit);
                }
            }
            return None;
        }
        proof {
            assert(acc * 10 + d <= limit) by (nonlinear_arith)
                requires
                    acc <= (limit - d) / 10,
                    d <= 57,
                    limit >= d,
                    limit <= 0x8000_0000_0000_0000,
            ;
            let t = digits.take(i - start + 1);
            assert(t.drop_last() =~= digits.take(i - start));
            assert(t.last() == digits[i - start]);
        }
        acc = acc * 10 + d;
        i = i + 1;
    }
    proof {
        assert(digits.take(i - start) =~= digits);
    }
    if neg {
        if acc == 9223372036854775808 {
            proof {
                assert(parse_int_spec(s@) == Some(i64::MIN));
            }
            Some(i64::MIN)
        } else {
            let r = -(acc as i64);
            proof {
                assert(parse_int_spec(s@) == Some(r));
            }
            Some(r)
        }
    } else {
        proof {
            assert(parse_int_spec(s@) == Some(acc as i64));
        }
        Some(acc as i64)
    }
}

/// Parses one log line into its id and answer text, or reports it
/// malformed.
pub fn parse_line(line: &str) -> (r: Option<(i64, String)>)
    ensures
        match parse_line_spec(line@) {
            Some(p) => r is Some && (r->0).0 == p.0 && ((r->0).1)@ == p.1,
            None => r is None,
        },
{
    let n = line.unicode_len();
    let mut i: usize = 0;
    while i < n && line.get_char(i) != ' '
        invariant
            0 <= i <= n,
            n == line@.len(),
            forall|j: int| 0 <= j < i ==> line@[j] != ' ',
        decreases n - i,
    {
        i = i + 1;
    }
    proof {
        lemma_find_char_props(line@, ' ');
    }
    if i == n {
        proof {
            assert(find_char(line@, ' ') is None);
        }
        return None;
    }
    proof {
        assert(line@[i as int] == ' ');
        assert(find_char(line@, ' ') == Some(i as int));
    }
    let id_str = line.substring_char(0, i);
    proof {
        assert(id_str@ =~= line@.take(i as int));
    }
    match parse_int(id_str) {
        None => None,
        Some(id) => {
            let rest = line.substring_char(i + 1, n);
            proof {
                assert(rest@ =~= line@.skip(i + 1));
            }
            Some((id, rest.to_owned()))
        },
    }
}

} // verus!
