//! Text routines over the character view of `str`: comparison, decimal
//! rendering and parsing of unsigned numbers.

use vstd::prelude::*;
use vstd::string::*;

verus! {

/// Whether `c` is one of the ASCII digits `0` to `9`.
pub open spec fn is_digit(c: char) -> bool {
    '0' <= c <= '9'
}

/// The value of the ASCII digit `c`.
pub open spec fn digit_value(c: char) -> nat
    recommends
        is_digit(c),
{
    (c as int - '0' as int) as nat
}

/// The ASCII digit that stands for `d`.
pub open spec fn digit_char(d: nat) -> char
    recommends
        d <= 9,
{
    (d + '0' as nat) as char
}

/// Whether every character of `s` is an ASCII digit.
pub open spec fn all_digits(s: Seq<char>) -> bool {
    forall|i: int| 0 <= i < s.len() ==> is_digit(#[trigger] s[i])
}

/// The number that the digits of `s` spell in base ten, most significant first.
pub open spec fn digits_value(s: Seq<char>) -> nat
    decreases s.len(),
{
    if s.len() == 0 {
        0
    } else {
        digits_value(s.drop_last()) * 10 + digit_value(s.last())
    }
}

/// The shortest base-ten spelling of `n`.
pub open spec fn decimal_text(n: nat) -> Seq<char>
    decreases n,
{
    if n < 10 {
        seq![digit_char(n)]
    } else {
        decimal_text(n / 10).push(digit_char(n % 10))
    }
}

/// `s` without one leading plus sign, where it has one.
pub open spec fn unsigned_digits(s: Seq<char>) -> Seq<char> {
    if s.len() > 0 && s[0] == '+' {
        s.subrange(1, s.len() as int)
    } else {
        s
    }
}

/// The number that `s` spells, where it is an optional plus sign followed by
/// one or more ASCII digits whose value is at most `max`.
pub open spec fn parse_unsigned(s: Seq<char>, max: nat) -> Option<nat> {
    let digits = unsigned_digits(s);
    if digits.len() > 0 && all_digits(digits) && digits_value(digits) <= max {
        Some(digits_value(digits))
    } else {
        None
    }
}

/// Adding digits never makes the spelled number smaller.
pub proof fn lemma_digits_value_grows(s: Seq<char>, k: int)
    requires
        0 <= k <= s.len(),
        all_digits(s),
    ensures
        digits_value(s.take(k)) <= digits_value(s),
    decreases s.len() - k,
{
    if k < s.len() {
        let shorter = s.drop_last();
        assert(all_digits(shorter)) by {
            assert forall|i: int| 0 <= i < shorter.len() implies is_digit(
                #[trigger] shorter[i],
            ) by {
                assert(shorter[i] == s[i]);
            }
        }
        assert(shorter.take(k) =~= s.take(k));
        lemma_digits_value_grows(shorter, k);
    } else {
        assert(s.take(k) =~= s);
    }
}

/// The spelling of a number is made of digits only and spells that number.
pub proof fn lemma_decimal_text_spells(n: nat)
    ensures
        decimal_text(n).len() > 0,
        all_digits(decimal_text(n)),
        digits_value(decimal_text(n)) == n,
    decreases n,
{
    let text = decimal_text(n);
    if n < 10 {
        assert(text.drop_last() =~= Seq::<char>::empty());
        assert(digits_value(text.drop_last()) == 0);
    } else {
        let head = decimal_text(n / 10);
        lemma_decimal_text_spells(n / 10);
        assert(text.drop_last() =~= head);
        assert forall|i: int| 0 <= i < text.len() implies is_digit(#[trigger] text[i]) by {
            if i < head.len() {
                assert(text[i] == head[i]);
            }
        }
    }
}

/// Reading back the spelling of a number gives that number, where it is
/// within the bound.
pub proof fn lemma_parse_decimal_text(n: nat, max: nat)
    requires
        n <= max,
    ensures
        parse_unsigned(decimal_text(n), max) == Some(n),
{
    lemma_decimal_text_spells(n);
    let text = decimal_text(n);
    assert(is_digit(text[0]));
    assert(unsigned_digits(text) == text);
}

/// Different numbers have different spellings.
pub proof fn lemma_decimal_text_distinct(a: nat, b: nat)
    requires
        a != b,
    ensures
        decimal_text(a) != decimal_text(b),
{
    lemma_decimal_text_spells(a);
    lemma_decimal_text_spells(b);
}

/// Compares two strings character by character.
pub fn same_text(a: &str, b: &str) -> (r: bool)
    ensures
        r == (a@ == b@),
{
    let left: String = a.to_owned();
    let right: String = b.to_owned();
    left == right
}

/// Whether `s` begins with `prefix`.
pub fn starts_with(s: &str, prefix: &str) -> (r: bool)
    ensures
        r == prefix@.is_prefix_of(s@),
{
    let n: usize = s.unicode_len();
    let k: usize = prefix.unicode_len();
    if k > n {
        return false;
    }
    same_text(s.substring_char(0, k), prefix)
}

/// Whether `s` ends with `suffix`.
pub fn ends_with(s: &str, suffix: &str) -> (r: bool)
    ensures
        r == suffix@.is_suffix_of(s@),
{
    let n: usize = s.unicode_len();
    let k: usize = suffix.unicode_len();
    if k > n {
        return false;
    }
    same_text(s.substring_char(n - k, n), suffix)
}

/// The one-character string that spells the digit `d`.
fn digit_str(d: u8) -> (r: &'static str)
    requires
        d <= 9,
    ensures
        r@ == seq![digit_char(d as nat)],
{
    proof {
        reveal_strlit("0");
        reveal_strlit("1");
        reveal_strlit("2");
        reveal_strlit("3");
        reveal_strlit("4");
        reveal_strlit("5");
        reveal_strlit("6");
        reveal_strlit("7");
        reveal_strlit("8");
        reveal_strlit("9");
    }
    let r: &'static str = if d == 0 {
        "0"
    } else if d == 1 {
        "1"
    } else if d == 2 {
        "2"
    } else if d == 3 {
        "3"
    } else if d == 4 {
        "4"
    } else if d == 5 {
        "5"
    } else if d == 6 {
        "6"
    } else if d == 7 {
        "7"
    } else if d == 8 {
        "8"
    } else {
        "9"
    };
    assert(r@ =~= seq![digit_char(d as nat)]);
    r
}

/// Spells `n` in base ten without leading zeros.
pub fn decimal(n: u8) -> (r: String)
    ensures
        r@ == decimal_text(n as nat),
{
    let mut r: String = String::new();
    if n >= 100 {
        r.append(digit_str(n / 100));
    }
    if n >= 10 {
        r.append(digit_str((n / 10) % 10));
    }
    r.append(digit_str(n % 10));
    proof {
        let v: nat = n as nat;
        reveal_with_fuel(decimal_text, 3);
        assert(r@ =~= decimal_text(v));
    }
    r
}

/// Reads an unsigned base-ten number of at most `max` from `s`: an optional
/// plus sign, then digits only.
pub fn parse_bounded(s: &str, max: u64) -> (r: Option<u64>)
    ensures
        r is Some <==> parse_unsigned(s@, max as nat) is Some,
        r matches Some(v) ==> parse_unsigned(s@, max as nat) == Some(v as nat),
{
    let ghost all: Seq<char> = s@;
    let ghost digits: Seq<char> = unsigned_digits(all);
    let ghost start: int = all.len() - digits.len();
    let mut first: bool = true;
    let mut any: bool = false;
    let mut acc: u64 = 0;
    assert(digits =~= all.subrange(start, all.len() as int));
    assert(digits.take(0) =~= Seq::<char>::empty());
    for c in it: s.chars()
        invariant
            it.seq() == all,
            all == s@,
            digits == unsigned_digits(all),
            start == all.len() - digits.len(),
            digits == all.subrange(start, all.len() as int),
            first == (it.index() == 0),
            first ==> !any && acc == 0,
            !first ==> start <= it.index(),
            !first ==> any == (it.index() > start),
            !first ==> all_digits(digits.take(it.index() - start)),
            !first ==> acc == digits_value(digits.take(it.index() - start)),
            acc <= max,
    {
        let ghost k: int = it.index();
        assert(all[k] == c);
        if first && c == '+' {
            first = false;
            assert(start == 1);
            assert(digits.take(k + 1 - start) =~= Seq::<char>::empty());
        } else {
            let ghost before: Seq<char> = digits.take(k - start);
            let ghost after: Seq<char> = digits.take(k + 1 - start);
            proof {
                if first {
                    assert(start == 0);
                    assert(before =~= Seq::<char>::empty());
                }
                assert(acc == digits_value(before));
            }
            first = false;
            assert(after.drop_last() =~= before);
            assert(after.last() == c);
            if !('0' <= c && c <= '9') {
                assert(!all_digits(digits)) by {
                    assert(digits[k - start] == c);
                }
                return None;
            }
            let d: u64 = ((c as u8) - 48u8) as u64;
            assert(d == digit_value(c));
            assert(all_digits(after)) by {
                assert forall|j: int| 0 <= j < after.len() implies is_digit(
                    #[trigger] after[j],
                ) by {
                    if j < before.len() {
                        assert(after[j] == before[j]);
                    }
                }
            }
            if d > max || acc > (max - d) / 10 {
                proof {
                    assert(digits_value(after) == acc * 10 + d);
                    if all_digits(digits) {
                        lemma_digits_value_grows(digits, k + 1 - start);
                    }
                }
                return None;
            }
            acc = acc * 10 + d;
            any = true;
        }
    }
    proof {
        if !first {
            assert(digits.take(all.len() - start) =~= digits);
        }
    }
    if any {
        Some(acc)
    } else {
        None
    }
}

/// Reads a JDK major version from `s`, as an unsigned number that fits eight bits.
pub fn parse_u8(s: &str) -> (r: Option<u8>)
    ensures
        r is Some <==> parse_unsigned(s@, 255) is Some,
        r matches Some(v) ==> parse_unsigned(s@, 255) == Some(v as nat),
{
    match parse_bounded(s, 255) {
        Some(v) => Some(v as u8),
        None => None,
    }
}

/// Reads a byte count from `s`, as an unsigned number that fits sixty-four bits.
pub fn parse_u64(s: &str) -> (r: Option<u64>)
    ensures
        r is Some <==> parse_unsigned(s@, u64::MAX as nat) is Some,
        r matches Some(v) ==> parse_unsigned(s@, u64::MAX as nat) == Some(v as nat),
{
    parse_bounded(s, u64::MAX)
}

} // verus!
