use vstd::prelude::*;

verus! {

pub open spec fn is_digit(c: char) -> bool {
    '0' <= c && c <= '9'
}

pub open spec fn all_digits(s: Seq<char>) -> bool {
    forall|i: int| 0 <= i < s.len() ==> is_digit(#[trigger] s[i])
}

/// The value of a string of decimal digits, most significant first.
pub open spec fn decimal_value(s: Seq<char>) -> nat
    decreases s.len(),
{
    if s.len() == 0 {
        0
    } else {
        decimal_value(s.drop_last()) * 10 + ((s.last() as u32 - '0' as u32) as nat)
    }
}

/// The digits of an unsigned number: the text after one optional leading `+`.
pub open spec fn unsigned_digits(s: Seq<char>) -> Seq<char> {
    if s.len() > 0 && s[0] == '+' {
        s.drop_first()
    } else {
        s
    }
}

/// The `u8` that a text reads as: one or more decimal digits after an optional `+`,
/// whose value is at most 255.
pub open spec fn parse_u8(s: Seq<char>) -> Option<u8> {
    let d = unsigned_digits(s);
    if d.len() > 0 && all_digits(d) && decimal_value(d) <= 255 {
        Some(decimal_value(d) as u8)
    } else {
        None
    }
}

/// The number that a guess reads as, and 0 for a text that is not a `u8`.
pub open spec fn number_or_zero(s: Seq<char>) -> u8 {
    match parse_u8(s) {
        Some(n) => n,
        None => 0,
    }
}

/// Reads a sequence of characters as a `u8`, as `parse_u8` says.
pub fn parse_chars(s: &Vec<char>) -> (r: Option<u8>)
    ensures
        r == parse_u8(s@),
{
    let start: usize = if s.len() > 0 && s[0] == '+' { 1 } else { 0 };
    let ghost d = unsigned_digits(s@);
    assert(d == s@.subrange(start as int, s@.len() as int));
    let mut ok: bool = true;
    let mut acc: u32 = 0;
    let mut i: usize = start;
    while i < s.len()
        invariant
            start <= i <= s.len(),
            d == s@.subrange(start as int, s@.len() as int),
            ok ==> all_digits(d.take(i - start)) && acc == decimal_value(d.take(i - start))
                && acc <= 255,
            !ok ==> !all_digits(d.take(i - start)) || decimal_value(d.take(i - start)) > 255,
        decreases s.len() - i,
    {
        let ghost k = i - start;
        let c = s[i];
        assert(d.take(k + 1).drop_last() == d.take(k));
        assert(d.take(k + 1).last() == c);
        if ok {
            if '0' <= c && c <= '9' {
                let v: u32 = acc * 10 + (c as u32 - '0' as u32);
                assert(all_digits(d.take(k + 1))) by {
                    assert forall|j: int| 0 <= j < k + 1 implies is_digit(#[trigger] d.take(k + 1)[j]) by {
                        if j < k {
                            assert(d.take(k + 1)[j] == d.take(k)[j]);
                        }
                    }
                }
                if v <= 255 {
                    acc = v;
                } else {
                    ok = false;
                }
            } else {
                assert(!is_digit(d.take(k + 1)[k as int]));
                ok = false;
            }
        } else {
            proof {
                if !all_digits(d.take(k)) {
                    let j = choose|j: int| 0 <= j < k && !is_digit(#[trigger] d.take(k)[j]);
                    assert(d.take(k + 1)[j] == d.take(k)[j]);
                }
            }
        }
        i = i + 1;
    }
    assert(d.take(d.len() as int) == d);
    if ok && i > start {
        Some(acc as u8)
    } else {
        None
    }
}

/// Reads a guess as a number: its `u8` value, or 0 when the text is not one.
pub fn convert_to_number(s: &str) -> (r: u8)
    ensures
        r == number_or_zero(s@),
{
    let mut chars: Vec<char> = Vec::new();
    for c in it: s.chars()
        invariant
            chars@ == it.seq().take(it.index() as int),
    {
        chars.push(c);
    }
    assert(chars@ == s@);
    match parse_chars(&chars) {
        Some(n) => n,
        None => 0,
    }
}

} // verus!
