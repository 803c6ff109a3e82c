use vstd::prelude::*;

verus! {

/// UTF-16 code unit of '0'.
pub const DIGIT_ZERO: u16 = 48;

/// UTF-16 code unit of '+'.
pub const PLUS_SIGN: u16 = 43;

/// The code unit is an ASCII decimal digit.
pub open spec fn is_digit(c: u16) -> bool {
    DIGIT_ZERO <= c <= DIGIT_ZERO + 9
}

/// Every code unit of `s` is an ASCII decimal digit.
pub open spec fn all_digits(s: Seq<u16>) -> bool {
    forall|i: int| 0 <= i < s.len() ==> is_digit(#[trigger] s[i])
}

/// The number that the decimal digits `s` spell, most significant first.
pub open spec fn digits_value(s: Seq<u16>) -> nat
    decreases s.len(),
{
    if s.len() == 0 {
        0
    } else {
        digits_value(s.drop_last()) * 10 + (s.last() - DIGIT_ZERO) as nat
    }
}

/// `s` without the one '+' that may lead it.
pub open spec fn unsigned_part(s: Seq<u16>) -> Seq<u16> {
    if s.len() > 0 && s[0] == PLUS_SIGN {
        s.drop_first()
    } else {
        s
    }
}

/// The `u32` that the text `s` denotes: an optional '+' and then at least one
/// ASCII digit, whose value fits in a `u32`; `None` for any other text.
pub open spec fn parsed_u32(s: Seq<u16>) -> Option<u32> {
    let d = unsigned_part(s);
    if d.len() > 0 && all_digits(d) && digits_value(d) <= u32::MAX {
        Some(digits_value(d) as u32)
    } else {
        None
    }
}

/// The decimal digits of `n`, most significant first, without leading zeros
/// ("0" for zero).
pub open spec fn decimal_digits(n: nat) -> Seq<u16>
    decreases n,
{
    if n < 10 {
        seq![(DIGIT_ZERO + n) as u16]
    } else {
        decimal_digits(n / 10).push((DIGIT_ZERO + n % 10) as u16)
    }
}

/// Reads the text of an edit box as a `u32`: an optional '+' followed by at
/// least one ASCII digit, with a value that fits; `None` otherwise.
pub fn parse_u32(text: &[u16]) -> (r: Option<u32>)
    ensures
        r == parsed_u32(text@),
{
    let start: usize = if text.len() > 0 && text[0] == PLUS_SIGN {
        1
    } else {
        0
    };
    let ghost d = unsigned_part(text@);
    assert(d =~= text@.subrange(start as int, text@.len() as int));
    if start >= text.len() {
        return None;
    }
    let limit: u64 = 0x1_0000_0000;
    let mut acc: u64 = 0;
    let mut i: usize = start;
    while i < text.len()
        invariant
            start <= i <= text@.len(),
            d == text@.subrange(start as int, text@.len() as int),
            d == unsigned_part(text@),
            all_digits(text@.subrange(start as int, i as int)),
            acc == if digits_value(text@.subrange(start as int, i as int)) < limit {
                digits_value(text@.subrange(start as int, i as int)) as int
            } else {
                limit as int
            },
            limit == 0x1_0000_0000,
        decreases text.len() - i,
    {
        let c = text[i];
        if c < DIGIT_ZERO || c > DIGIT_ZERO + 9 {
            assert(d[i - start] == c);
            assert(!is_digit(d[i - start]));
            return None;
        }
        let ghost prefix = text@.subrange(start as int, i as int);
        let ghost next = text@.subrange(start as int, i + 1);
        assert(next.drop_last() =~= prefix);
        assert(next.last() == c);
        acc = if acc >= limit {
            limit
        } else {
            let v = acc * 10 + (c - DIGIT_ZERO) as u64;
            if v >= limit {
                limit
            } else {
                v
            }
        };
        assert(all_digits(next)) by {
            assert forall|j: int| 0 <= j < next.len() implies is_digit(#[trigger] next[j]) by {
                if j < prefix.len() {
                    assert(next[j] == prefix[j]);
                }
            }
        }
        i = i + 1;
    }
    assert(text@.subrange(start as int, i as int) =~= d);
    if acc >= limit {
        None
    } else {
        Some(acc as u32)
    }
}

/// What the settings dialog reads from an edit box that should hold a
/// whole number: its value, or 1 when the text is not a `u32`.
pub fn parse_edit_u32(text: &[u16]) -> (v: u32)
    ensures
        v == match parsed_u32(text@) {
            Some(n) => n,
            None => 1,
        },
{
    match parse_u32(text) {
        Some(n) => n,
        None => 1,
    }
}

/// The decimal text of `value` as UTF-16 code units, ended by a NUL unit, as
/// the settings dialog writes it into an edit box.
pub fn u32_to_wide(value: u32) -> (w: Vec<u16>)
    ensures
        w@ == decimal_digits(value as nat).push(0u16),
{
    let mut digits: Vec<u16> = Vec::new();
    let mut n: u32 = value;
    while n >= 10
        invariant
            decimal_digits(value as nat) == decimal_digits(n as nat) + digits@,
        decreases n,
    {
        let d: u16 = (n % 10) as u16;
        let ghost old_digits = digits@;
        digits.insert(0, DIGIT_ZERO + d);
        assert(decimal_digits(n as nat) == decimal_digits((n / 10) as nat).push(
            (DIGIT_ZERO + n % 10) as u16,
        ));
        assert(decimal_digits(n as nat) + old_digits =~= decimal_digits((n / 10) as nat)
            + digits@);
        n = n / 10;
    }
    let ghost old_digits = digits@;
    digits.insert(0, DIGIT_ZERO + n as u16);
    assert(decimal_digits(n as nat) + old_digits =~= digits@);
    digits.push(0);
    digits
}

/// The decimal digits of `n` are digits, do not start with '+', and spell `n`.
proof fn lemma_decimal_digits(n: nat)
    ensures
        decimal_digits(n).len() > 0,
        all_digits(decimal_digits(n)),
        decimal_digits(n)[0] != PLUS_SIGN,
        digits_value(decimal_digits(n)) == n,
    decreases n,
{
    let s = decimal_digits(n);
    if n >= 10 {
        lemma_decimal_digits(n / 10);
        let p = decimal_digits(n / 10);
        assert(s.drop_last() =~= p);
        assert(s[0] == p[0]);
        assert(s.last() == (DIGIT_ZERO + n % 10) as u16);
        assert(digits_value(s) == digits_value(p) * 10 + n % 10);
        assert forall|i: int| 0 <= i < s.len() implies is_digit(#[trigger] s[i]) by {
            if i < p.len() {
                assert(s[i] == p[i]);
            }
        }
    } else {
        assert(s.drop_last() =~= Seq::<u16>::empty());
        assert(s.last() == (DIGIT_ZERO + n) as u16);
        assert(digits_value(s) == digits_value(s.drop_last()) * 10 + n);
    }
}

/// Law: the text that the dialog writes for a number reads back as that
/// number.
pub proof fn lemma_edit_roundtrip(value: u32)
    ensures
        parsed_u32(decimal_digits(value as nat)) == Some(value),
{
    lemma_decimal_digits(value as nat);
}

} // verus!
