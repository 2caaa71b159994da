//! Decimal digits: the spec-level reading and writing of base-ten numbers,
//! and the verified executable routines that match them.

use vstd::prelude::*;

verus! {

/// Is `c` one of the ten decimal digit characters?
pub open spec fn is_digit(c: char) -> bool {
    48 <= c as int && c as int <= 57
}

/// Numeric value of a digit character.
pub open spec fn digit_val(c: char) -> int {
    c as int - 48
}

/// The digit character for a value in `0..10`.
pub open spec fn digit_char(d: int) -> char {
    if d == 0 {
        '0'
    } else if d == 1 {
        '1'
    } else if d == 2 {
        '2'
    } else if d == 3 {
        '3'
    } else if d == 4 {
        '4'
    } else if d == 5 {
        '5'
    } else if d == 6 {
        '6'
    } else if d == 7 {
        '7'
    } else if d == 8 {
        '8'
    } else {
        '9'
    }
}

/// Decimal digits of `n`, most significant first, without leading zeros
/// (a single zero for `n == 0`).
pub open spec fn dec_digits(n: int) -> Seq<char>
    decreases n,
{
    if n < 10 {
        seq![digit_char(n)]
    } else {
        dec_digits(n / 10).push(digit_char(n % 10))
    }
}

/// The number a digit string denotes, read in base ten.
pub open spec fn digits_val(s: Seq<char>) -> int
    decreases s.len(),
{
    if s.len() == 0 {
        0
    } else {
        digits_val(s.drop_last()) * 10 + digit_val(s.last())
    }
}

/// Every character of `s` is a decimal digit.
pub open spec fn all_digits(s: Seq<char>) -> bool {
    forall|i: int| 0 <= i < s.len() ==> is_digit(#[trigger] s[i])
}

/// Two digit characters: `n` modulo one hundred, zero padded.
pub open spec fn pad2(n: int) -> Seq<char> {
    seq![digit_char(n / 10 % 10), digit_char(n % 10)]
}

/// Four digit characters: `n` modulo ten thousand, zero padded.
pub open spec fn pad4(n: int) -> Seq<char> {
    seq![
        digit_char(n / 1000 % 10),
        digit_char(n / 100 % 10),
        digit_char(n / 10 % 10),
        digit_char(n % 10),
    ]
}

/// A digit string denotes a number that is not negative.
pub proof fn lemma_digits_val_nonneg(s: Seq<char>)
    requires
        all_digits(s),
    ensures
        digits_val(s) >= 0,
    decreases s.len(),
{
    if s.len() > 0 {
        assert(all_digits(s.drop_last()));
        lemma_digits_val_nonneg(s.drop_last());
    }
}

/// Dropping trailing digits can only shrink the number a digit string
/// denotes.
pub proof fn lemma_digits_val_prefix(s: Seq<char>, i: int)
    requires
        all_digits(s),
        0 <= i <= s.len(),
    ensures
        digits_val(s.subrange(0, i)) <= digits_val(s),
    decreases s.len() - i,
{
    if i == s.len() {
        assert(s.subrange(0, i) =~= s);
    } else {
        lemma_digits_val_prefix(s, i + 1);
        let longer = s.subrange(0, i + 1);
        assert(longer.drop_last() =~= s.subrange(0, i));
        assert(all_digits(s.subrange(0, i)));
        lemma_digits_val_nonneg(s.subrange(0, i));
        assert(digits_val(longer) == digits_val(s.subrange(0, i)) * 10 + digit_val(s[i]));
    }
}

/// A digit character reads back as its value.
pub proof fn lemma_digit_char_val(d: int)
    requires
        0 <= d < 10,
    ensures
        is_digit(digit_char(d)),
        digit_val(digit_char(d)) == d,
{
}

/// The decimal digits of a number denote it.
pub proof fn lemma_dec_digits_val(n: int)
    requires
        n >= 0,
    ensures
        all_digits(dec_digits(n)),
        digits_val(dec_digits(n)) == n,
        dec_digits(n).len() >= 1,
    decreases n,
{
    if n < 10 {
        lemma_digit_char_val(n);
        assert(dec_digits(n).drop_last() =~= Seq::<char>::empty());
        assert(digits_val(dec_digits(n).drop_last()) == 0);
        assert(dec_digits(n).last() == digit_char(n));
    } else {
        vstd::arithmetic::div_mod::lemma_fundamental_div_mod(n, 10);
        lemma_dec_digits_val(n / 10);
        lemma_digit_char_val(n % 10);
        let s = dec_digits(n);
        assert(s == dec_digits(n / 10).push(digit_char(n % 10)));
        assert(s.drop_last() =~= dec_digits(n / 10));
        assert(s.last() == digit_char(n % 10));
        assert forall|i: int| 0 <= i < s.len() implies is_digit(#[trigger] s[i]) by {
            if i < s.len() - 1 {
                assert(s[i] == dec_digits(n / 10)[i]);
            } else {
                assert(s[i] == digit_char(n % 10));
            }
        }
    }
}

/// Two zero-padded digits denote the number below one hundred.
pub proof fn lemma_pad2_val(n: int)
    requires
        0 <= n < 100,
    ensures
        all_digits(pad2(n)),
        digits_val(pad2(n)) == n,
        pad2(n).len() == 2,
{
    vstd::arithmetic::div_mod::lemma_fundamental_div_mod(n, 10);
    assert(n / 10 < 10);
    vstd::arithmetic::div_mod::lemma_small_mod((n / 10) as nat, 10);
    lemma_digit_char_val(n / 10 % 10);
    lemma_digit_char_val(n % 10);
    let s = pad2(n);
    assert(s.drop_last() =~= seq![digit_char(n / 10 % 10)]);
    assert(s.drop_last().drop_last() =~= Seq::<char>::empty());
    assert(digits_val(s.drop_last().drop_last()) == 0);
    assert(s.drop_last().last() == digit_char(n / 10 % 10));
    assert(digits_val(s.drop_last()) == n / 10 % 10);
    assert(s.last() == digit_char(n % 10));
    assert(digits_val(s) == digits_val(s.drop_last()) * 10 + digit_val(s.last()));
}

/// Is `c` a decimal digit, as executable code.
pub fn is_digit_char(c: char) -> (r: bool)
    ensures
        r == is_digit(c),
{
    let x = c as u32;
    48 <= x && x <= 57
}

/// Numeric value of a digit character, as executable code.
pub fn char_to_digit(c: char) -> (r: u8)
    requires
        is_digit(c),
    ensures
        r as int == digit_val(c),
        r < 10,
{
    (c as u32 - 48) as u8
}

/// The digit character for an in-range value, as executable code.
pub fn digit_to_char(d: u8) -> (c: char)
    requires
        d < 10,
    ensures
        c == digit_char(d as int),
{
    match d {
        0 => '0',
        1 => '1',
        2 => '2',
        3 => '3',
        4 => '4',
        5 => '5',
        6 => '6',
        7 => '7',
        8 => '8',
        _ => '9',
    }
}

/// Decimal formatting of an unsigned number.
pub fn fmt_u64(n: u64) -> (r: Vec<char>)
    ensures
        r@ == dec_digits(n as int),
    decreases n,
{
    if n < 10 {
        let mut v: Vec<char> = Vec::new();
        v.push(digit_to_char(n as u8));
        proof {
            assert(v@ =~= seq![digit_char(n as int)]);
        }
        v
    } else {
        let mut v = fmt_u64(n / 10);
        v.push(digit_to_char((n % 10) as u8));
        proof {
            assert(v@ =~= dec_digits(n as int / 10).push(digit_char(n as int % 10)));
        }
        v
    }
}

/// Two-digit zero-padded formatting.
pub fn fmt_pad2(n: u8) -> (r: Vec<char>)
    requires
        n < 100,
    ensures
        r@ == pad2(n as int),
{
    let mut v: Vec<char> = Vec::new();
    v.push(digit_to_char(n / 10));
    v.push(digit_to_char(n % 10));
    proof {
        assert(v@ =~= pad2(n as int));
    }
    v
}

/// Four-digit zero-padded formatting.
pub fn fmt_pad4(n: u16) -> (r: Vec<char>)
    requires
        n < 10000,
    ensures
        r@ == pad4(n as int),
{
    let mut v: Vec<char> = Vec::new();
    v.push(digit_to_char((n / 1000) as u8));
    v.push(digit_to_char((n / 100 % 10) as u8));
    v.push(digit_to_char((n / 10 % 10) as u8));
    v.push(digit_to_char((n % 10) as u8));
    proof {
        assert(v@ =~= pad4(n as int));
    }
    v
}

/// Reads `v[from..to]` as a base-ten number; `None` when the value does
/// not fit in `u64`.
pub fn digits_to_val(v: &Vec<char>, from: usize, to: usize) -> (r: Option<u64>)
    requires
        from <= to && to <= v.len(),
        all_digits(v@.subrange(from as int, to as int)),
    ensures
        match r {
            Some(x) => x as int == digits_val(v@.subrange(from as int, to as int)),
            None => digits_val(v@.subrange(from as int, to as int)) > u64::MAX as int,
        },
{
    let ghost whole = v@.subrange(from as int, to as int);
    let mut acc: u64 = 0;
    let mut i: usize = from;
    while i < to
        invariant
            from <= i <= to <= v.len(),
            all_digits(whole),
            whole == v@.subrange(from as int, to as int),
            acc as int == digits_val(v@.subrange(from as int, i as int)),
        decreases to - i,
    {
        proof {
            assert(whole[i - from] == v@[i as int]);
        }
        let d = char_to_digit(v[i]);
        if acc > (u64::MAX - d as u64) / 10 {
            proof {
                let part = v@.subrange(from as int, i + 1);
                assert(part.drop_last() =~= v@.subrange(from as int, i as int));
                assert(part.last() == v@[i as int]);
                vstd::arithmetic::div_mod::lemma_fundamental_div_mod(
                    u64::MAX as int - d as int,
                    10,
                );
                assert(digits_val(part) == acc as int * 10 + d as int);
                assert(digits_val(part) > u64::MAX as int);
                assert(forall|j: int|
                    0 <= j < whole.len() ==> whole[j] == #[trigger] v@[from + j]);
                assert(all_digits(v@.subrange(from as int, to as int)));
                lemma_digits_val_prefix(v@.subrange(from as int, to as int), i + 1 - from);
                assert(v@.subrange(from as int, to as int).subrange(0, i + 1 - from) =~= part);
            }
            return None;
        }
        proof {
            let part = v@.subrange(from as int, i + 1);
            assert(part.drop_last() =~= v@.subrange(from as int, i as int));
            assert(part.last() == v@[i as int]);
            vstd::arithmetic::div_mod::lemma_fundamental_div_mod(u64::MAX as int - d as int, 10);
        }
        acc = acc * 10 + d as u64;
        i += 1;
    }
    proof {
        assert(v@.subrange(from as int, i as int) =~= whole);
    }
    Some(acc)
}

} // verus!
