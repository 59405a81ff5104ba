//! Numbers as a table cell spells them: whole numbers, and weights in
//! kilograms with decimals.

use vstd::prelude::*;
use vstd::string::*;

verus! {

/// The value of `c` as a digit of the base `radix` (ten or sixteen).
pub open spec fn digit_of(c: char, radix: nat) -> Option<nat> {
    if '0' <= c <= '9' {
        Some((c as u32 - '0' as u32) as nat)
    } else if radix == 16 && 'a' <= c <= 'f' {
        Some((c as u32 - 'a' as u32 + 10) as nat)
    } else if radix == 16 && 'A' <= c <= 'F' {
        Some((c as u32 - 'A' as u32 + 10) as nat)
    } else {
        None
    }
}

/// The value of the numeral `s` in the base `radix`: at least one digit and
/// nothing but digits.
pub open spec fn numeral_value(s: Seq<char>, radix: nat) -> Option<nat>
    decreases s.len(),
{
    if s.len() == 0 {
        None
    } else {
        match digit_of(s.last(), radix) {
            None => None,
            Some(d) => if s.len() == 1 {
                Some(d)
            } else {
                match numeral_value(s.drop_last(), radix) {
                    None => None,
                    Some(v) => Some(v * radix + d),
                }
            },
        }
    }
}

/// Whether a cell starts with the mark of a hexadecimal number.
pub open spec fn has_hex_prefix(t: Seq<char>) -> bool {
    t.len() >= 2 && t[0] == '0' && t[1] == 'x'
}

/// What is left of a cell behind the mark of a hexadecimal number.
pub open spec fn behind_prefix(t: Seq<char>) -> Seq<char> {
    if has_hex_prefix(t) {
        t.skip(2)
    } else {
        t
    }
}

/// Whether a text starts with a sign.
pub open spec fn has_sign(t: Seq<char>) -> bool {
    t.len() > 0 && (t[0] == '-' || t[0] == '+')
}

/// What is left of a text behind its sign.
pub open spec fn behind_sign(t: Seq<char>) -> Seq<char> {
    if has_sign(t) {
        t.skip(1)
    } else {
        t
    }
}

/// The 32-bit number that a cell spells: an optional sign and decimal digits,
/// or, behind `0x`, an optional sign and hexadecimal digits. `None` where the
/// cell spells no number or one out of range.
pub open spec fn i32_of(t: Seq<char>) -> Option<i32> {
    let radix: nat = if has_hex_prefix(t) {
        16
    } else {
        10
    };
    let rest = behind_prefix(t);
    match numeral_value(behind_sign(rest), radix) {
        None => None,
        Some(v) => if rest.len() > 0 && rest[0] == '-' {
            if v <= 0x8000_0000 {
                Some((-(v as int)) as i32)
            } else {
                None
            }
        } else {
            if v <= 0x7FFF_FFFF {
                Some(v as i32)
            } else {
                None
            }
        },
    }
}

/// Every character of a numeral is a digit.
pub proof fn lemma_numeral_digits(s: Seq<char>, radix: nat)
    requires
        numeral_value(s, radix) is Some,
    ensures
        forall|i: int| 0 <= i < s.len() ==> digit_of(#[trigger] s[i], radix) is Some,
    decreases s.len(),
{
    if s.len() > 1 {
        lemma_numeral_digits(s.drop_last(), radix);
        assert forall|i: int| 0 <= i < s.len() implies digit_of(#[trigger] s[i], radix) is Some by {
            if i < s.len() - 1 {
                assert(s[i] == s.drop_last()[i]);
            }
        }
    }
}

/// The start of a numeral is a numeral of no greater value.
pub proof fn lemma_numeral_prefix(s: Seq<char>, radix: nat, k: int)
    requires
        numeral_value(s, radix) is Some,
        0 < k <= s.len(),
        radix > 0,
    ensures
        numeral_value(s.take(k), radix) is Some,
        numeral_value(s.take(k), radix)->0 <= numeral_value(s, radix)->0,
    decreases s.len(),
{
    if k == s.len() {
        assert(s.take(k) =~= s);
    } else {
        lemma_numeral_prefix(s.drop_last(), radix, k);
        assert(s.drop_last().take(k) =~= s.take(k));
        let v = numeral_value(s.drop_last(), radix)->0;
        assert(v <= v * radix) by (nonlinear_arith)
            requires
                radix > 0,
        ;
    }
}

/// The value of the digit that the byte `b` writes, if it writes one.
fn digit_of_byte(b: u8, radix: u32, Ghost(c): Ghost<char>) -> (d: Option<u32>)
    requires
        radix == 10 || radix == 16,
        b as u32 == c as u32,
    ensures
        d matches Some(v) ==> v < radix,
        match d {
            Some(v) => digit_of(c, radix as nat) == Some(v as nat),
            None => digit_of(c, radix as nat) is None,
        },
{
    if 48 <= b && b <= 57 {
        Some((b - 48) as u32)
    } else if radix == 16 && 97 <= b && b <= 102 {
        Some((b - 97 + 10) as u32)
    } else if radix == 16 && 65 <= b && b <= 70 {
        Some((b - 65 + 10) as u32)
    } else {
        None
    }
}

/// The 32-bit number that a cell spells, if it spells one.
pub fn parse_i32(text: &str) -> (n: Option<i32>)
    ensures
        n == i32_of(text@),
{
    broadcast use is_ascii_spec_bytes;

    let ghost t = text@;
    let ghost radix_of: nat = if has_hex_prefix(t) {
        16
    } else {
        10
    };
    let ghost body = behind_sign(behind_prefix(t));
    if !text.is_ascii() {
        proof {
            let i = choose|i: int| 0 <= i < t.len() && !('\0' <= #[trigger] t[i] <= '\u{7f}');
            if numeral_value(body, radix_of) is Some {
                lemma_numeral_digits(body, radix_of);
                let offset = t.len() - body.len();
                if i >= offset {
                    assert(body[i - offset] == t[i]);
                }
            }
        }
        return None;
    }
    let bytes = text.as_bytes();
    let n = bytes.len();
    assert(n == t.len());
    assert forall|i: int| 0 <= i < n implies (#[trigger] bytes@[i]) as u32 == t[i] as u32 by {
        assert('\0' <= t[i] <= '\u{7f}');
    }
    let mut start: usize = 0;
    let mut radix: u32 = 10;
    if n >= 2 && bytes[0] == 48 && bytes[1] == 120 {
        radix = 16;
        start = 2;
    }
    assert(radix == radix_of);
    let mut negative = false;
    if start < n && bytes[start] == 45 {
        negative = true;
        start = start + 1;
    } else if start < n && bytes[start] == 43 {
        start = start + 1;
    }
    assert(body =~= t.skip(start as int));
    if start == n {
        return None;
    }
    let mut acc: u64 = 0;
    let mut i: usize = start;
    while i < n
        invariant
            start <= i <= n,
            n == t.len(),
            start < n,
            radix == 10 || radix == 16,
            t == text@,
            radix as nat == (if has_hex_prefix(t) {
                16nat
            } else {
                10nat
            }),
            body == behind_sign(behind_prefix(t)),
            body == t.skip(start as int),
            bytes@.len() == n,
            forall|k: int| 0 <= k < n ==> (#[trigger] bytes@[k]) as u32 == t[k] as u32,
            acc <= 0x8000_0000,
            i > start ==> numeral_value(body.take(i - start), radix as nat) == Some(acc as nat),
            i == start ==> acc == 0,
        decreases n - i,
    {
        let b = bytes[i];
        assert(t[i as int] == body[i - start]);
        let ghost head = body.take(i - start + 1);
        assert(head.last() == body[i - start]);
        assert(head.drop_last() =~= body.take(i - start));
        match digit_of_byte(b, radix, Ghost(t[i as int])) {
            None => {
                proof {
                    if numeral_value(body, radix as nat) is Some {
                        lemma_numeral_digits(body, radix as nat);
                        assert(digit_of(body[i - start], radix as nat) is Some);
                    }
                }
                return None;
            },
            Some(d) => {
                assert(acc * radix + d <= 0x8000_0000 * 16 + 16) by (nonlinear_arith)
                    requires
                        acc <= 0x8000_0000,
                        radix <= 16,
                        d < 16,
                ;
                let next: u64 = acc * (radix as u64) + (d as u64);
                assert(numeral_value(head, radix as nat) == Some(next as nat));
                if next > 0x8000_0000 {
                    proof {
                        if numeral_value(body, radix as nat) is Some {
                            lemma_numeral_prefix(body, radix as nat, i - start + 1);
                        }
                    }
                    return None;
                }
                acc = next;
                i = i + 1;
            },
        }
    }
    assert(body.take(n - start) =~= body);
    if negative {
        assert(behind_prefix(t).len() > 0 && behind_prefix(t)[0] == '-');
        if acc == 0x8000_0000 {
            Some(i32::MIN)
        } else {
            Some(-(acc as i32))
        }
    } else {
        assert(!(behind_prefix(t).len() > 0 && behind_prefix(t)[0] == '-'));
        if acc > 0x7FFF_FFFF {
            None
        } else {
            Some(acc as i32)
        }
    }
}

// ============================================================================
// WEIGHTS
// ============================================================================

/// The most kilograms that a cell can spell; what spells more counts as this.
pub const MAX_KILOGRAMS: u64 = 1_000_000_000;

/// Whether `c` is a decimal digit.
pub open spec fn is_digit(c: char) -> bool {
    '0' <= c <= '9'
}

/// Whether `s` holds nothing but decimal digits.
pub open spec fn all_digits(s: Seq<char>) -> bool {
    forall|i: int| 0 <= i < s.len() ==> is_digit(#[trigger] s[i])
}

/// The place of the first point in `s`, or the length of `s` where it has none.
pub open spec fn first_dot(s: Seq<char>) -> int
    decreases s.len(),
{
    if s.len() == 0 {
        0
    } else if s[0] == '.' {
        0
    } else {
        1 + first_dot(s.skip(1))
    }
}

/// The value of a run of decimal digits; nothing for the empty run.
pub open spec fn digits_value(s: Seq<char>) -> nat
    decreases s.len(),
{
    if s.len() == 0 {
        0
    } else {
        digits_value(s.drop_last()) * 10 + (s.last() as u32 - '0' as u32) as nat
    }
}

/// The digit at place `i` of `s`, or zero behind its end.
pub open spec fn digit_at(s: Seq<char>, i: int) -> nat {
    if 0 <= i < s.len() {
        (s[i] as u32 - '0' as u32) as nat
    } else {
        0
    }
}

/// The first three decimals of a fraction, as thousandths.
pub open spec fn thousandths(fraction: Seq<char>) -> nat {
    digit_at(fraction, 0) * 100 + digit_at(fraction, 1) * 10 + digit_at(fraction, 2)
}

/// The digits before the point of an unsigned decimal number.
pub open spec fn whole_part(body: Seq<char>) -> Seq<char> {
    body.take(first_dot(body))
}

/// The digits behind the point of an unsigned decimal number.
pub open spec fn fraction_part(body: Seq<char>) -> Seq<char> {
    if first_dot(body) < body.len() {
        body.skip(first_dot(body) + 1)
    } else {
        Seq::empty()
    }
}

/// The weight in grams that a cell spells in kilograms: an optional sign,
/// digits, and optionally a point and more digits, with one digit at least.
/// Decimals behind the third are dropped, and more than [`MAX_KILOGRAMS`]
/// count as that many. `None` where the cell spells no such number.
///
/// This is a plain decimal and nothing else. A cell with an exponent, such as
/// `7.5e1`, spells no weight here, nor do `inf` and `NaN`, though a reader of
/// floating point numbers takes them. And since the decimals behind the third
/// are dropped, not rounded, `330.0004` is 330 kg to the gram and keeps an
/// upper bound of 330 kg that the number itself exceeds.
pub open spec fn grams_of(t: Seq<char>) -> Option<i64> {
    let body = behind_sign(t);
    let whole = whole_part(body);
    let fraction = fraction_part(body);
    if all_digits(whole) && all_digits(fraction) && whole.len() + fraction.len() > 0 {
        let kilograms = if digits_value(whole) > MAX_KILOGRAMS {
            MAX_KILOGRAMS as nat
        } else {
            digits_value(whole)
        };
        let grams = kilograms * 1000 + thousandths(fraction);
        if t[0] == '-' {
            Some((-grams) as i64)
        } else {
            Some(grams as i64)
        }
    } else {
        None
    }
}

/// The first point of `s` stands where no point stands before.
pub proof fn lemma_first_dot(s: Seq<char>, p: int)
    requires
        0 <= p <= s.len(),
        forall|k: int| 0 <= k < p ==> s[k] != '.',
        p < s.len() ==> s[p] == '.',
    ensures
        first_dot(s) == p,
    decreases s.len(),
{
    if s.len() > 0 && p > 0 {
        assert forall|k: int| 0 <= k < p - 1 implies s.skip(1)[k] != '.' by {
            assert(s.skip(1)[k] == s[k + 1]);
        }
        lemma_first_dot(s.skip(1), p - 1);
    }
}

/// Whether the byte `b` writes a decimal digit.
fn is_digit_byte(b: u8, Ghost(c): Ghost<char>) -> (digit: bool)
    requires
        b as u32 == c as u32,
    ensures
        digit == is_digit(c),
        digit ==> 48 <= b <= 57 && (c as u32 - '0' as u32) as nat == (b - 48) as nat,
        c == '.' <==> b == 46,
{
    48 <= b && b <= 57
}

/// The weight in grams that a cell spells in kilograms, if it spells one.
pub fn parse_grams(text: &str) -> (grams: Option<i64>)
    ensures
        grams == grams_of(text@),
{
    broadcast use is_ascii_spec_bytes;

    let ghost t = text@;
    let ghost body = behind_sign(t);
    let ascii = text.is_ascii();
    let bytes = text.as_bytes();
    let n = bytes.len();
    if !ascii {
        return parse_grams_refused(text);
    }
    assert(n == t.len());
    assert forall|i: int| 0 <= i < n implies (#[trigger] bytes@[i]) as u32 == t[i] as u32 by {
        assert('\0' <= t[i] <= '\u{7f}');
    }
    let mut start: usize = 0;
    let mut negative = false;
    if n > 0 && bytes[0] == 45 {
        negative = true;
        start = 1;
    } else if n > 0 && bytes[0] == 43 {
        start = 1;
    }
    assert(body =~= t.skip(start as int));
    let mut kilograms: u64 = 0;
    let mut j: usize = start;
    while j < n && bytes[j] != 46
        invariant
            start <= j <= n,
            n == t.len(),
            t == text@,
            body == behind_sign(t),
            body == t.skip(start as int),
            bytes@.len() == n,
            forall|k: int| 0 <= k < n ==> (#[trigger] bytes@[k]) as u32 == t[k] as u32,
            forall|k: int| 0 <= k < j - start ==> is_digit(#[trigger] body[k]),
            kilograms <= MAX_KILOGRAMS,
            kilograms as nat == if digits_value(body.take(j - start)) > MAX_KILOGRAMS {
                MAX_KILOGRAMS as nat
            } else {
                digits_value(body.take(j - start))
            },
        decreases n - j,
    {
        let b = bytes[j];
        assert(t[j as int] == body[j - start]);
        assert(bytes@[j as int] as u32 == t[j as int] as u32);
        if !is_digit_byte(b, Ghost(t[j as int])) {
            proof {
                let c = body[j - start];
                assert(!is_digit(c) && c != '.');
                lemma_first_dot_found(body);
                let dot = first_dot(body);
                if dot < j - start {
                    assert(is_digit(body[dot]));
                }
                assert(dot > j - start);
                assert(whole_part(body)[j - start] == c);
            }
            return None;
        }
        assert(is_digit(body[j - start]));
        let ghost head = body.take(j - start + 1);
        assert(head.last() == body[j - start]);
        assert(head.drop_last() =~= body.take(j - start));
        let next = kilograms * 10 + (b - 48) as u64;
        kilograms = if next > MAX_KILOGRAMS {
            MAX_KILOGRAMS
        } else {
            next
        };
        j = j + 1;
    }
    let ghost p = j - start;
    proof {
        assert forall|k: int| 0 <= k < p implies body[k] != '.' by {
            assert(is_digit(body[k]));
        }
        if j < n {
            assert(t[j as int] == body[p]);
        }
        lemma_first_dot(body, p);
        assert(whole_part(body) =~= body.take(p));
    }
    let mut fraction: u64 = 0;
    let mut digits: usize = j - start;
    if j < n {
        let first: usize = j + 1;
        let ghost tail = body.skip(p + 1);
        assert(fraction_part(body) == tail);
        let mut k: usize = first;
        while k < n
            invariant
                first <= k <= n,
                first == j + 1,
                j < n,
                p == j - start,
                n == t.len(),
                t == text@,
                body == behind_sign(t),
                body == t.skip(start as int),
                tail == body.skip(p + 1),
                fraction_part(body) == tail,
                all_digits(whole_part(body)),
                start <= j,
                bytes@.len() == n,
                forall|m: int| 0 <= m < n ==> (#[trigger] bytes@[m]) as u32 == t[m] as u32,
                forall|m: int| 0 <= m < k - first ==> is_digit(#[trigger] tail[m]),
                fraction <= 999,
                fraction as nat == thousandths(tail.take(k - first)),
            decreases n - k,
        {
            let b = bytes[k];
            assert(body.len() == n - start);
            assert(tail.len() == n - first);
            assert(tail[k - first] == body[p + 1 + (k - first)]);
            assert(body[p + 1 + (k - first)] == t[k as int]);
            assert(bytes@[k as int] as u32 == t[k as int] as u32);
            if !is_digit_byte(b, Ghost(t[k as int])) {
                assert(!is_digit(tail[k - first]));
                return None;
            }
            assert(is_digit(tail[k - first]));
            let place = k - first;
            let ghost before = tail.take(k - first);
            let ghost after = tail.take(k - first + 1);
            assert(forall|m: int| 0 <= m < before.len() ==> after[m] == before[m]);
            assert(after[place as int] == tail[place as int]);
            if place == 0 {
                fraction = fraction + 100 * ((b - 48) as u64);
            } else if place == 1 {
                fraction = fraction + 10 * ((b - 48) as u64);
            } else if place == 2 {
                fraction = fraction + (b - 48) as u64;
            }
            k = k + 1;
        }
        assert(tail.take(n - first) =~= tail);
        assert(all_digits(tail));
        digits = digits + (n - first);
    } else {
        assert(fraction_part(body) =~= Seq::<char>::empty());
    }
    if digits == 0 {
        return None;
    }
    assert(t.len() > 0);
    let grams: i64 = (kilograms * 1000 + fraction) as i64;
    if negative {
        Some(-grams)
    } else {
        assert(t[0] != '-');
        Some(grams)
    }
}

/// The first point of `s`, where `s` has one, is a point.
pub proof fn lemma_first_dot_found(s: Seq<char>)
    ensures
        0 <= first_dot(s) <= s.len(),
        first_dot(s) < s.len() ==> s[first_dot(s)] == '.',
        forall|k: int| 0 <= k < first_dot(s) ==> s[k] != '.',
    decreases s.len(),
{
    if s.len() > 0 && s[0] != '.' {
        lemma_first_dot_found(s.skip(1));
        assert forall|k: int| 0 <= k < first_dot(s) implies s[k] != '.' by {
            if k > 0 {
                assert(s.skip(1)[k - 1] == s[k]);
            }
        }
    }
}

/// A cell with a character beyond ASCII spells no weight.
fn parse_grams_refused(text: &str) -> (grams: Option<i64>)
    requires
        !is_ascii(text),
    ensures
        grams is None,
        grams_of(text@) is None,
{
    proof {
        let t = text@;
        let body = behind_sign(t);
        let i = choose|i: int| 0 <= i < t.len() && !('\0' <= #[trigger] t[i] <= '\u{7f}');
        let offset = t.len() - body.len();
        assert(i >= offset);
        let at = i - offset;
        assert(body[at] == t[i]);
        lemma_first_dot_found(body);
        let p = first_dot(body);
        if at < p {
            assert(whole_part(body)[at] == body[at]);
        } else {
            assert(at > p);
            assert(fraction_part(body)[at - p - 1] == body[at]);
        }
    }
    None
}

} // verus!
