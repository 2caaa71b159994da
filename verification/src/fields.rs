//! The text of transaction fields: how each table column is rendered as
//! text, and how edited text is read back into the field it came from.
//! Amounts are held in minor units (cents) and written `whole.ff`; dates
//! are written `YYYY-MM-DD`.

use vstd::prelude::*;

use crate::chars::{chars_to_string, push_all};
use crate::digits::{
    all_digits, char_to_digit, dec_digits, digit_val, digits_to_val, digits_val, fmt_pad2,
    digit_char, fmt_pad4, fmt_u64, is_digit, is_digit_char, lemma_dec_digits_val,
    lemma_digit_char_val,
    lemma_digits_val_nonneg, lemma_pad2_val, pad2, pad4,
};
use crate::types::{date_wf, Date, Transaction, TransactionModel, NUM_COLUMNS};

verus! {

/// Index of the first dot in `s`, or a negative number when there is none.
pub open spec fn find_dot(s: Seq<char>) -> int
    decreases s.len(),
{
    if s.len() == 0 {
        -1
    } else if s[0] == '.' {
        0
    } else if find_dot(s.drop_first()) < 0 {
        -1
    } else {
        find_dot(s.drop_first()) + 1
    }
}

/// When a dot stands at `k` and none before it, `k` is where `find_dot`
/// points.
pub proof fn lemma_find_dot_at(s: Seq<char>, k: int)
    requires
        0 <= k < s.len(),
        s[k] == '.',
        forall|i: int| 0 <= i < k ==> s[i] != '.',
    ensures
        find_dot(s) == k,
    decreases k,
{
    if k > 0 {
        lemma_find_dot_at(s.drop_first(), k - 1);
    }
}

/// When no character of `s` is a dot, `find_dot` reports none.
pub proof fn lemma_find_dot_none(s: Seq<char>)
    requires
        forall|i: int| 0 <= i < s.len() ==> s[i] != '.',
    ensures
        find_dot(s) == -1,
    decreases s.len(),
{
    if s.len() > 0 {
        lemma_find_dot_none(s.drop_first());
    }
}

/// First dot of `v` at or after `start`, measured against the tail
/// `v[start..]`.
fn find_dot_from(v: &Vec<char>, start: usize) -> (r: Option<usize>)
    requires
        start <= v.len(),
    ensures
        ({
            let u = v@.subrange(start as int, v@.len() as int);
            match r {
                Some(k) => start <= k < v.len() && v@[k as int] == '.' && find_dot(u) == k - start,
                None => find_dot(u) == -1,
            }
        }),
{
    let ghost u = v@.subrange(start as int, v@.len() as int);
    let mut i: usize = start;
    while i < v.len()
        invariant
            start <= i <= v.len(),
            u == v@.subrange(start as int, v@.len() as int),
            forall|j: int| start <= j < i ==> v@[j] != '.',
        decreases v.len() - i,
    {
        if v[i] == '.' {
            proof {
                assert(forall|j: int| 0 <= j < u.len() ==> u[j] == #[trigger] v@[start + j]);
                lemma_find_dot_at(u, i - start);
            }
            return Some(i);
        }
        i += 1;
    }
    proof {
        assert(forall|j: int| 0 <= j < u.len() ==> u[j] == #[trigger] v@[start + j]);
        lemma_find_dot_none(u);
    }
    None
}

/// Are all of `v[from..to]` digit characters?
fn check_digits(v: &Vec<char>, from: usize, to: usize) -> (r: bool)
    requires
        from <= to <= v.len(),
    ensures
        r == all_digits(v@.subrange(from as int, to as int)),
{
    let ghost u = v@.subrange(from as int, to as int);
    let mut i: usize = from;
    while i < to
        invariant
            from <= i <= to <= v.len(),
            u == v@.subrange(from as int, to as int),
            forall|j: int| from <= j < i ==> is_digit(#[trigger] v@[j]),
        decreases to - i,
    {
        if !is_digit_char(v[i]) {
            proof {
                assert(u[i - from] == v@[i as int]);
            }
            return false;
        }
        i += 1;
    }
    proof {
        assert(forall|j: int| 0 <= j < u.len() ==> u[j] == #[trigger] v@[from + j]);
    }
    true
}

/// The unsigned part of an amount: digits, optionally followed by a dot
/// and one or two fraction digits.
pub open spec fn valid_unsigned_amount(u: Seq<char>) -> bool {
    let d = find_dot(u);
    if d < 0 {
        u.len() >= 1 && all_digits(u)
    } else {
        &&& d >= 1
        &&& all_digits(u.subrange(0, d))
        &&& 1 <= u.len() - d - 1 <= 2
        &&& all_digits(u.subrange(d + 1, u.len() as int))
    }
}

/// Minor units denoted by an unsigned amount text: whole part in hundreds,
/// a single fraction digit counting tens.
pub open spec fn unsigned_cents(u: Seq<char>) -> int {
    let d = find_dot(u);
    if d < 0 {
        digits_val(u) * 100
    } else {
        let frac = u.subrange(d + 1, u.len() as int);
        digits_val(u.subrange(0, d)) * 100 + (if frac.len() == 1 {
            digits_val(frac) * 10
        } else {
            digits_val(frac)
        })
    }
}

/// Does the amount text carry a leading minus sign?
pub open spec fn amount_is_negative(s: Seq<char>) -> bool {
    s.len() > 0 && s[0] == '-'
}

/// The amount text without its sign.
pub open spec fn amount_body(s: Seq<char>) -> Seq<char> {
    if amount_is_negative(s) {
        s.drop_first()
    } else {
        s
    }
}

/// A well-formed amount text whose value fits the signed 64-bit range.
pub open spec fn valid_amount_text(s: Seq<char>) -> bool {
    &&& valid_unsigned_amount(amount_body(s))
    &&& if amount_is_negative(s) {
        unsigned_cents(amount_body(s)) <= -(i64::MIN as int)
    } else {
        unsigned_cents(amount_body(s)) <= i64::MAX as int
    }
}

/// Minor units denoted by an amount text.
pub open spec fn amount_value(s: Seq<char>) -> int {
    if amount_is_negative(s) {
        -unsigned_cents(amount_body(s))
    } else {
        unsigned_cents(amount_body(s))
    }
}

/// How an amount in minor units is rendered: optional sign, whole part,
/// dot, two fraction digits.
pub open spec fn amount_text(a: int) -> Seq<char> {
    if a < 0 {
        seq!['-'] + dec_digits(-a / 100) + seq!['.'] + pad2(-a % 100)
    } else {
        dec_digits(a / 100) + seq!['.'] + pad2(a % 100)
    }
}

/// Renders an amount held in minor units.
pub fn format_amount(a: i64) -> (r: String)
    ensures
        r@ == amount_text(a as int),
{
    let neg = a < 0;
    let mag: u64 = if a < 0 {
        (-(a + 1)) as u64 + 1
    } else {
        a as u64
    };
    proof {
        if a < 0 {
            assert(mag as int == -(a as int));
        }
    }
    let mut out: Vec<char> = Vec::new();
    if neg {
        out.push('-');
    }
    let whole = fmt_u64(mag / 100);
    push_all(&mut out, &whole);
    out.push('.');
    let frac = fmt_pad2((mag % 100) as u8);
    push_all(&mut out, &frac);
    proof {
        assert(out@ =~= amount_text(a as int));
    }
    chars_to_string(&out)
}

/// Reads an edited amount text back into minor units. `None` exactly on
/// texts that the amount grammar refuses or whose value does not fit.
pub fn parse_amount(v: &Vec<char>) -> (r: Option<i64>)
    ensures
        match r {
            Some(x) => valid_amount_text(v@) && x as int == amount_value(v@),
            None => !valid_amount_text(v@),
        },
{
    let neg = v.len() > 0 && v[0] == '-';
    let start: usize = if neg {
        1
    } else {
        0
    };
    proof {
        assert(amount_body(v@) =~= v@.subrange(start as int, v@.len() as int));
    }
    let ghost body = amount_body(v@);
    let limit: u64 = if neg {
        9223372036854775808
    } else {
        9223372036854775807
    };
    match find_dot_from(v, start) {
        None => {
            if v.len() == start {
                return None;
            }
            if !check_digits(v, start, v.len()) {
                return None;
            }
            let whole = match digits_to_val(v, start, v.len()) {
                None => {
                    proof {
                        lemma_digits_val_nonneg(body);
                    }
                    return None;
                },
                Some(w) => w,
            };
            if whole > limit / 100 {
                proof {
                    vstd::arithmetic::div_mod::lemma_fundamental_div_mod(limit as int, 100);
                }
                return None;
            }
            proof {
                vstd::arithmetic::div_mod::lemma_fundamental_div_mod(limit as int, 100);
            }
            let cents = whole * 100;
            if neg {
                Some(-(cents as i64))
            } else {
                Some(cents as i64)
            }
        },
        Some(k) => {
            if k == start {
                return None;
            }
            let flen = v.len() - (k + 1);
            let ghost dpos = k - start;
            let ghost frac = body.subrange(dpos + 1, body.len() as int);
            proof {
                assert(frac =~= v@.subrange(k + 1, v@.len() as int));
                assert(body.subrange(0, dpos) =~= v@.subrange(start as int, k as int));
            }
            if flen == 0 || flen > 2 {
                return None;
            }
            if !check_digits(v, start, k) {
                return None;
            }
            if !check_digits(v, k + 1, v.len()) {
                return None;
            }
            proof {
                assert(all_digits(frac));
                assert(frac[0] == v@[k + 1]);
                assert(is_digit(v@[k + 1]));
                if flen == 2 {
                    assert(frac[1] == v@[k + 2]);
                    assert(is_digit(v@[k + 2]));
                }
            }
            let d1 = char_to_digit(v[k + 1]);
            let fc: u8 = if flen == 1 {
                proof {
                    assert(frac.drop_last() =~= Seq::<char>::empty());
                    assert(digits_val(frac.drop_last()) == 0);
                    assert(frac.last() == frac[0]);
                    assert(digits_val(frac) == digit_val(frac[0]));
                }
                d1 * 10
            } else {
                let d2 = char_to_digit(v[k + 2]);
                proof {
                    assert(frac.drop_last() =~= seq![v@[k + 1]]);
                    assert(frac.drop_last().drop_last() =~= Seq::<char>::empty());
                    assert(digits_val(frac.drop_last().drop_last()) == 0);
                    assert(digits_val(frac.drop_last()) == digit_val(frac[0]));
                    assert(frac.last() == frac[1]);
                    assert(digits_val(frac) == digit_val(frac[0]) * 10 + digit_val(frac[1]));
                }
                d1 * 10 + d2
            };
            proof {
                if frac.len() == 1 {
                    assert(fc as int == digits_val(frac) * 10);
                } else {
                    assert(fc as int == digits_val(frac));
                }
            }
            let whole = match digits_to_val(v, start, k) {
                None => {
                    proof {
                        lemma_digits_val_nonneg(body.subrange(0, dpos));
                    }
                    return None;
                },
                Some(w) => w,
            };
            if whole > (limit - fc as u64) / 100 {
                proof {
                    vstd::arithmetic::div_mod::lemma_fundamental_div_mod(
                        limit as int - fc as int,
                        100,
                    );
                }
                return None;
            }
            proof {
                vstd::arithmetic::div_mod::lemma_fundamental_div_mod(limit as int - fc as int, 100);
            }
            let cents = whole * 100 + fc as u64;
            if neg {
                if cents == 9223372036854775808 {
                    Some(i64::MIN)
                } else {
                    Some(-(cents as i64))
                }
            } else {
                Some(cents as i64)
            }
        },
    }
}

/// How a date is rendered: four-digit year, two-digit month and day,
/// separated by dashes.
pub open spec fn date_text(d: Date) -> Seq<char> {
    pad4(d.year as int) + seq!['-'] + pad2(d.month as int) + seq!['-'] + pad2(d.day as int)
}

/// The two-digit number standing at position `i`.
pub open spec fn text_num2(s: Seq<char>, i: int) -> int {
    digit_val(s[i]) * 10 + digit_val(s[i + 1])
}

/// The four-digit year standing at the front of a date text.
pub open spec fn text_year(s: Seq<char>) -> int {
    digit_val(s[0]) * 1000 + digit_val(s[1]) * 100 + digit_val(s[2]) * 10 + digit_val(s[3])
}

/// A well-formed date text: `YYYY-MM-DD` with month and day in their
/// calendar ranges.
pub open spec fn valid_date_text(s: Seq<char>) -> bool {
    &&& s.len() == 10
    &&& is_digit(s[0]) && is_digit(s[1]) && is_digit(s[2]) && is_digit(s[3])
    &&& s[4] == '-'
    &&& is_digit(s[5]) && is_digit(s[6])
    &&& s[7] == '-'
    &&& is_digit(s[8]) && is_digit(s[9])
    &&& 1 <= text_num2(s, 5) <= 12
    &&& 1 <= text_num2(s, 8) <= 31
}

/// The date a well-formed date text denotes.
pub open spec fn date_of_text(s: Seq<char>) -> Date {
    Date {
        year: text_year(s) as u16,
        month: text_num2(s, 5) as u8,
        day: text_num2(s, 8) as u8,
    }
}

/// Renders a date.
pub fn format_date(d: Date) -> (r: String)
    requires
        date_wf(d),
    ensures
        r@ == date_text(d),
{
    let mut out = fmt_pad4(d.year);
    out.push('-');
    let m = fmt_pad2(d.month);
    push_all(&mut out, &m);
    out.push('-');
    let dd = fmt_pad2(d.day);
    push_all(&mut out, &dd);
    proof {
        assert(out@ =~= date_text(d));
    }
    chars_to_string(&out)
}

/// Reads an edited date text back into a date. `None` exactly on texts the
/// date grammar refuses.
pub fn parse_date(v: &Vec<char>) -> (r: Option<Date>)
    ensures
        match r {
            Some(d) => valid_date_text(v@) && d == date_of_text(v@) && date_wf(d),
            None => !valid_date_text(v@),
        },
{
    if v.len() != 10 {
        return None;
    }
    if v[4] != '-' || v[7] != '-' {
        return None;
    }
    if !is_digit_char(v[0]) || !is_digit_char(v[1]) || !is_digit_char(v[2]) || !is_digit_char(v[3])
        || !is_digit_char(v[5]) || !is_digit_char(v[6]) || !is_digit_char(v[8]) || !is_digit_char(
        v[9],
    ) {
        return None;
    }
    let year: u16 = char_to_digit(v[0]) as u16 * 1000 + char_to_digit(v[1]) as u16 * 100
        + char_to_digit(v[2]) as u16 * 10 + char_to_digit(v[3]) as u16;
    let month: u8 = char_to_digit(v[5]) * 10 + char_to_digit(v[6]);
    let day: u8 = char_to_digit(v[8]) * 10 + char_to_digit(v[9]);
    if month < 1 || month > 12 {
        return None;
    }
    if day < 1 || day > 31 {
        return None;
    }
    Some(Date { year, month, day })
}

/// Text that an optional field displays: its characters, or nothing.
pub open spec fn opt_text(o: Option<Seq<char>>) -> Seq<char> {
    match o {
        Some(s) => s,
        None => Seq::empty(),
    }
}

/// What the cell at column `col` of a transaction's row displays.
pub open spec fn cell_text_spec(t: TransactionModel, col: int) -> Seq<char> {
    if col == 0 {
        date_text(t.timestamp)
    } else if col == 1 {
        opt_text(t.category)
    } else if col == 2 {
        opt_text(t.description)
    } else {
        amount_text(t.amount)
    }
}

/// Renders the cell at column `col` of a transaction's row.
pub fn cell_text(t: &Transaction, col: usize) -> (r: String)
    requires
        date_wf(t.timestamp),
        col < NUM_COLUMNS,
    ensures
        r@ == cell_text_spec(t@, col as int),
{
    if col == 0 {
        format_date(t.timestamp)
    } else if col == 1 {
        match &t.category {
            Some(s) => s.clone(),
            None => String::new(),
        }
    } else if col == 2 {
        match &t.description {
            Some(s) => s.clone(),
            None => String::new(),
        }
    } else {
        format_amount(t.amount)
    }
}

/// Does the edited text fit the field that column `col` displays?
pub open spec fn write_back_ok(col: int, text: Seq<char>) -> bool {
    if col == 0 {
        valid_date_text(text)
    } else if col == 1 || col == 2 {
        true
    } else {
        valid_amount_text(text)
    }
}

/// The transaction after writing edited text into column `col`. An empty
/// text clears an optional field.
pub open spec fn write_back_model(t: TransactionModel, col: int, text: Seq<char>) -> TransactionModel {
    if col == 0 {
        TransactionModel { timestamp: date_of_text(text), ..t }
    } else if col == 1 {
        TransactionModel {
            category: if text.len() == 0 {
                None
            } else {
                Some(text)
            },
            ..t
        }
    } else if col == 2 {
        TransactionModel {
            description: if text.len() == 0 {
                None
            } else {
                Some(text)
            },
            ..t
        }
    } else {
        TransactionModel { amount: amount_value(text), ..t }
    }
}

/// Writes edited text back into the field that column `col` displays;
/// `None` exactly when the text does not fit that field.
pub fn write_back(t: &Transaction, col: usize, text: &Vec<char>) -> (r: Option<Transaction>)
    requires
        col < NUM_COLUMNS,
    ensures
        match r {
            Some(t2) => write_back_ok(col as int, text@) && t2@ == write_back_model(
                t@,
                col as int,
                text@,
            ) && (crate::types::trn_wf(t@) ==> crate::types::trn_wf(t2@)),
            None => !write_back_ok(col as int, text@),
        },
{
    let mut t2 = t.duplicate();
    if col == 0 {
        match parse_date(text) {
            Some(d) => {
                t2.timestamp = d;
                Some(t2)
            },
            None => None,
        }
    } else if col == 1 {
        t2.category = if text.len() == 0 {
            None
        } else {
            Some(chars_to_string(text))
        };
        Some(t2)
    } else if col == 2 {
        t2.description = if text.len() == 0 {
            None
        } else {
            Some(chars_to_string(text))
        };
        Some(t2)
    } else {
        match parse_amount(text) {
            Some(a) => {
                t2.amount = a;
                Some(t2)
            },
            None => None,
        }
    }
}

/// Rendering an amount and reading the text back yields the same amount:
/// the amount grammar accepts every text the renderer writes, and the value
/// read is the value written.
pub proof fn lemma_amount_round_trip(a: int)
    requires
        i64::MIN as int <= a <= i64::MAX as int,
    ensures
        valid_amount_text(amount_text(a)),
        amount_value(amount_text(a)) == a,
{
    let mag = if a < 0 {
        -a
    } else {
        a
    };
    vstd::arithmetic::div_mod::lemma_fundamental_div_mod(mag, 100);
    lemma_dec_digits_val(mag / 100);
    lemma_pad2_val(mag % 100);
    let dec = dec_digits(mag / 100);
    let frac = pad2(mag % 100);
    let u = dec + seq!['.'] + frac;
    let s = amount_text(a);
    let dlen = dec.len() as int;
    if a < 0 {
        assert(s =~= seq!['-'] + u);
        assert(s[0] == '-');
        assert(amount_body(s) =~= u);
    } else {
        assert(s =~= u);
        assert(s[0] == dec[0]);
        assert(is_digit(dec[0]));
        assert(!amount_is_negative(s));
        assert(amount_body(s) == s);
    }
    assert(u[dlen] == '.');
    assert forall|j: int| 0 <= j < dlen implies u[j] != '.' by {
        assert(u[j] == dec[j]);
        assert(is_digit(dec[j]));
    }
    lemma_find_dot_at(u, dlen);
    assert(u.subrange(0, dlen) =~= dec);
    assert(u.subrange(dlen + 1, u.len() as int) =~= frac);
    assert(valid_unsigned_amount(u));
    assert(unsigned_cents(u) == (mag / 100) * 100 + mag % 100);
    assert(unsigned_cents(u) == mag);
}

/// Rendering a date and reading the text back yields the same date: the
/// date grammar accepts every text the renderer writes, and the date read
/// is the date written.
pub proof fn lemma_date_round_trip(d: Date)
    requires
        date_wf(d),
    ensures
        valid_date_text(date_text(d)),
        date_of_text(date_text(d)) == d,
{
    let y = d.year as int;
    let m = d.month as int;
    let dd = d.day as int;
    let s = date_text(d);
    assert(s.len() == 10);
    assert(s[0] == digit_char(y / 1000 % 10));
    assert(s[1] == digit_char(y / 100 % 10));
    assert(s[2] == digit_char(y / 10 % 10));
    assert(s[3] == digit_char(y % 10));
    assert(s[4] == '-');
    assert(s[5] == digit_char(m / 10 % 10));
    assert(s[6] == digit_char(m % 10));
    assert(s[7] == '-');
    assert(s[8] == digit_char(dd / 10 % 10));
    assert(s[9] == digit_char(dd % 10));
    lemma_digit_char_val(y / 1000 % 10);
    lemma_digit_char_val(y / 100 % 10);
    lemma_digit_char_val(y / 10 % 10);
    lemma_digit_char_val(y % 10);
    lemma_digit_char_val(m / 10 % 10);
    lemma_digit_char_val(m % 10);
    lemma_digit_char_val(dd / 10 % 10);
    lemma_digit_char_val(dd % 10);
    // The positional digits assemble back into the year, month and day.
    vstd::arithmetic::div_mod::lemma_small_mod(d.year as nat, 10000);
    vstd::arithmetic::div_mod::lemma_breakdown(y, 1000, 10);
    vstd::arithmetic::div_mod::lemma_breakdown(y, 100, 10);
    vstd::arithmetic::div_mod::lemma_breakdown(y, 10, 10);
    assert(text_year(s) == y);
    vstd::arithmetic::div_mod::lemma_fundamental_div_mod(m, 10);
    assert(m / 10 < 10);
    vstd::arithmetic::div_mod::lemma_small_mod((m / 10) as nat, 10);
    assert(text_num2(s, 5) == m);
    vstd::arithmetic::div_mod::lemma_fundamental_div_mod(dd, 10);
    assert(dd / 10 < 10);
    vstd::arithmetic::div_mod::lemma_small_mod((dd / 10) as nat, 10);
    assert(text_num2(s, 8) == dd);
}

} // verus!
