//! Verified text utilities: decimal rendering, decimal parsing, and
//! separator-based splitting, each against an exact sequence-level
//! specification.

use vstd::prelude::*;

verus! {

/// Relies on `String::push`: appends the character to the end of the string.
#[verifier::external_body]
pub fn push_char(s: &mut String, c: char)
    ensures
        final(s)@ == old(s)@.push(c),
{
    s.push(c);
}

/// The decimal digit character for a value below ten.
pub open spec fn digit_char(d: int) -> char {
    if d == 0 {
        '0'
    } else if d == 1 {
        '1'
    } else if d == 2 {
        '2'
    } else if d == 3 {
        '3'
    } else if d == 4 {
        '4'
    } else if d == 5 {
        '5'
    } else if d == 6 {
        '6'
    } else if d == 7 {
        '7'
    } else if d == 8 {
        '8'
    } else {
        '9'
    }
}

/// The decimal rendering of a natural number, without leading zeros
/// (`0` renders as `"0"`).
pub open spec fn spec_dec(n: nat) -> Seq<char>
    decreases n,
{
    if n < 10 {
        seq![digit_char(n as int)]
    } else {
        spec_dec(n / 10).push(digit_char((n % 10) as int))
    }
}

/// The decimal rendering of a signed number: a minus sign before the
/// magnitude when negative.
pub open spec fn spec_dec_signed(n: int) -> Seq<char> {
    if n >= 0 {
        spec_dec(n as nat)
    } else {
        seq!['-'] + spec_dec((-n) as nat)
    }
}

fn digit_to_char(d: u64) -> (c: char)
    requires
        d < 10,
    ensures
        c == digit_char(d as int),
{
    match d {
        0 => '0',
        1 => '1',
        2 => '2',
        3 => '3',
        4 => '4',
        5 => '5',
        6 => '6',
        7 => '7',
        8 => '8',
        _ => '9',
    }
}

/// Renders a `u64` in decimal.
pub fn u64_to_string(n: u64) -> (r: String)
    ensures
        r@ == spec_dec(n as nat),
    decreases n,
{
    if n < 10 {
        let mut s = String::new();
        push_char(&mut s, digit_to_char(n));
        s
    } else {
        let mut s = u64_to_string(n / 10);
        push_char(&mut s, digit_to_char(n % 10));
        s
    }
}

/// Renders an `i64` in decimal.
pub fn i64_to_string(n: i64) -> (r: String)
    ensures
        r@ == spec_dec_signed(n as int),
{
    if n >= 0 {
        u64_to_string(n as u64)
    } else {
        let mag: u64 = if n == i64::MIN {
            9223372036854775808u64
        } else {
            (-n) as u64
        };
        let mut s = String::new();
        push_char(&mut s, '-');
        let digits = u64_to_string(mag);
        let mut i: usize = 0;
        let len = digits.as_str().unicode_len();
        while i < len
            invariant
                i <= len,
                len == digits@.len(),
                s@ == seq!['-'] + digits@.take(i as int),
            decreases len - i,
        {
            push_char(&mut s, digits.as_str().get_char(i));
            proof {
                assert(digits@.take(i + 1) == digits@.take(i as int).push(digits@[i as int]));
                assert(s@ == seq!['-'] + digits@.take(i + 1));
            }
            i = i + 1;
        }
        proof {
            assert(digits@.take(len as int) == digits@);
        }
        s
    }
}

/// Whether the character is a decimal digit.
pub open spec fn is_digit(c: char) -> bool {
    48 <= c as u32 <= 57
}

/// The numeric value of a digit character.
pub open spec fn digit_val(c: char) -> int {
    c as u32 - 48
}

/// Whether every character of the sequence is a decimal digit.
pub open spec fn all_digits(s: Seq<char>) -> bool {
    forall|i: int| 0 <= i < s.len() ==> is_digit(#[trigger] s[i])
}

/// The value of a digit sequence read in base ten.
pub open spec fn digits_val(s: Seq<char>) -> int
    decreases s.len(),
{
    if s.len() == 0 {
        0
    } else {
        digits_val(s.drop_last()) * 10 + digit_val(s.last())
    }
}

/// What `str::parse::<i64>` accepts: an optional sign followed by at least
/// one digit, the value within the type's range.
pub open spec fn spec_parse_i64(s: Seq<char>) -> Option<i64> {
    let digits = if s.len() > 0 && (s[0] == '-' || s[0] == '+') {
        s.skip(1)
    } else {
        s
    };
    let negative = s.len() > 0 && s[0] == '-';
    if digits.len() == 0 || !all_digits(digits) {
        None
    } else {
        let v = if negative {
            -digits_val(digits)
        } else {
            digits_val(digits)
        };
        if i64::MIN <= v <= i64::MAX {
            Some(v as i64)
        } else {
            None
        }
    }
}

proof fn lemma_digits_val_nonneg(s: Seq<char>)
    requires
        all_digits(s),
    ensures
        digits_val(s) >= 0,
    decreases s.len(),
{
    if s.len() > 0 {
        assert(all_digits(s.drop_last())) by {
            assert(forall|i: int| 0 <= i < s.len() - 1 ==> s.drop_last()[i] == s[i]);
        }
        lemma_digits_val_nonneg(s.drop_last());
    }
}

/// A digit prefix never exceeds the value of the whole digit sequence.
proof fn lemma_digits_val_prefix(s: Seq<char>, i: int)
    requires
        all_digits(s),
        0 <= i <= s.len(),
    ensures
        digits_val(s.take(i)) <= digits_val(s),
    decreases s.len() - i,
{
    if i < s.len() {
        lemma_digits_val_prefix(s, i + 1);
        let t = s.take(i + 1);
        assert(t.drop_last() == s.take(i));
        assert(all_digits(t)) by {
            assert(forall|j: int| 0 <= j < t.len() ==> t[j] == s[j]);
        }
        lemma_digits_val_nonneg(s.take(i));
        assert(digits_val(t) == digits_val(s.take(i)) * 10 + digit_val(t.last()));
        assert(digit_val(t.last()) >= 0);
        assert(digits_val(s.take(i)) * 10 >= digits_val(s.take(i))) by (nonlinear_arith)
            requires
                digits_val(s.take(i)) >= 0,
        ;
    } else {
        assert(s.take(i) == s);
    }
}

/// Parses a decimal integer exactly as `str::parse::<i64>` does: an optional
/// sign, then digits; rejects anything else and anything out of range.
pub fn parse_i64(s: &str) -> (r: Option<i64>)
    ensures
        r == spec_parse_i64(s@),
{
    let n = s.unicode_len();
    if n == 0 {
        return None;
    }
    let first = s.get_char(0);
    let negative = first == '-';
    let start: usize = if first == '-' || first == '+' {
        1
    } else {
        0
    };
    let ghost digits = if start == 1 {
        s@.skip(1)
    } else {
        s@
    };
    if n == start {
        return None;
    }
    let mut acc: u64 = 0;
    let mut i: usize = start;
    while i < n
        invariant
            start <= i <= n,
            n == s@.len(),
            start == 0 || start == 1,
            (start == 1) == (s@.len() > 0 && (s@[0] == '-' || s@[0] == '+')),
            negative == (s@.len() > 0 && s@[0] == '-'),
            digits == (if start == 1 {
                s@.skip(1)
            } else {
                s@
            }),
            n - start == digits.len(),
            all_digits(digits.take(i - start)),
            acc == digits_val(digits.take(i - start)),
        decreases n - i,
    {
        let c = s.get_char(i);
        let u = c as u32;
        if u < 48 || u > 57 {
            proof {
                assert(digits[i - start] == s@[i as int]);
                assert(!is_digit(digits[i - start]));
            }
            return None;
        }
        let d = (u - 48) as u64;
        let ghost prev = digits.take(i - start);
        let ghost cur = digits.take(i + 1 - start);
        proof {
            assert(cur.drop_last() == prev);
            assert(cur.last() == digits[i - start]);
            assert(digits[i - start] == s@[i as int]);
            assert(all_digits(cur)) by {
                assert(forall|j: int| 0 <= j < cur.len() ==> cur[j] == prev.push(s@[i as int])[j]);
            }
            lemma_digits_val_nonneg(prev);
        }
        let next = match acc.checked_mul(10) {
            Some(m) => m,
            None => {
                proof {
                    if all_digits(digits) {
                        lemma_digits_val_prefix(digits, i + 1 - start);
                        assert(digits_val(cur) == acc * 10 + d);
                        assert(digits_val(digits) >= digits_val(cur));
                        assert(acc * 10 > u64::MAX);
                    }
                }
                return None;
            },
        };
        let next = match next.checked_add(d) {
            Some(a) => a,
            None => {
                proof {
                    if all_digits(digits) {
                        lemma_digits_val_prefix(digits, i + 1 - start);
                        assert(digits_val(cur) == acc * 10 + d);
                        assert(digits_val(digits) >= digits_val(cur));
                    }
                }
                return None;
            },
        };
        acc = next;
        i = i + 1;
    }
    proof {
        assert(digits.take(n - start) == digits);
    }
    if negative {
        if acc > 9223372036854775808u64 {
            None
        } else if acc == 9223372036854775808u64 {
            Some(i64::MIN)
        } else {
            Some(-(acc as i64))
        }
    } else {
        if acc > i64::MAX as u64 {
            None
        } else {
            Some(acc as i64)
        }
    }
}

/// Splitting a sequence at every occurrence of a separator, keeping empty
/// pieces, as `str::split` does: the split of the empty sequence is one
/// empty piece.
pub open spec fn spec_split(s: Seq<char>, sep: char) -> Seq<Seq<char>>
    decreases s.len(),
{
    if s.len() == 0 {
        seq![Seq::<char>::empty()]
    } else if s[0] == sep {
        seq![Seq::<char>::empty()] + spec_split(s.skip(1), sep)
    } else {
        let rest = spec_split(s.skip(1), sep);
        rest.update(0, seq![s[0]] + rest[0])
    }
}

proof fn lemma_split_len(s: Seq<char>, sep: char)
    ensures
        spec_split(s, sep).len() >= 1,
    decreases s.len(),
{
    if s.len() > 0 {
        lemma_split_len(s.skip(1), sep);
    }
}

/// Appending one character extends the split: a separator opens a new empty
/// piece, any other character extends the last piece.
proof fn lemma_split_push(s: Seq<char>, sep: char, c: char)
    ensures
        spec_split(s, sep).len() >= 1,
        c == sep ==> spec_split(s.push(c), sep) == spec_split(s, sep).push(Seq::<char>::empty()),
        c != sep ==> spec_split(s.push(c), sep) == spec_split(s, sep).update(
            spec_split(s, sep).len() - 1,
            spec_split(s, sep).last().push(c),
        ),
    decreases s.len(),
{
    lemma_split_len(s, sep);
    if s.len() == 0 {
        assert(s.push(c) =~= seq![c]);
        assert(spec_split(Seq::<char>::empty(), sep) == seq![Seq::<char>::empty()]);
        assert(seq![c].skip(1) =~= Seq::<char>::empty());
        if c == sep {
            assert(spec_split(s.push(c), sep) =~~= spec_split(s, sep).push(Seq::<char>::empty()));
        } else {
            assert(spec_split(s.push(c), sep) =~~= spec_split(s, sep).update(
                0,
                spec_split(s, sep).last().push(c),
            ));
        }
    } else {
        lemma_split_push(s.skip(1), sep, c);
        lemma_split_len(s.skip(1), sep);
        assert(s.push(c)[0] == s[0]);
        assert(s.push(c).skip(1) =~= s.skip(1).push(c));
        let rest = spec_split(s.skip(1), sep);
        let restp = spec_split(s.skip(1).push(c), sep);
        if s[0] == sep {
            if c == sep {
                assert(spec_split(s.push(c), sep) =~~= spec_split(s, sep).push(
                    Seq::<char>::empty(),
                ));
            } else {
                assert(spec_split(s.push(c), sep) =~~= spec_split(s, sep).update(
                    spec_split(s, sep).len() - 1,
                    spec_split(s, sep).last().push(c),
                ));
            }
        } else {
            if c == sep {
                assert(restp == rest.push(Seq::<char>::empty()));
                assert(restp[0] == rest[0]);
                assert(spec_split(s.push(c), sep) =~~= spec_split(s, sep).push(
                    Seq::<char>::empty(),
                ));
            } else {
                assert(restp == rest.update(rest.len() - 1, rest.last().push(c)));
                if rest.len() == 1 {
                    assert(restp[0] == rest[0].push(c));
                    assert(spec_split(s, sep)[0] == seq![s[0]] + rest[0]);
                    assert((seq![s[0]] + rest[0]).push(c) =~= seq![s[0]] + rest[0].push(c));
                    assert(spec_split(s.push(c), sep) =~~= spec_split(s, sep).update(
                        spec_split(s, sep).len() - 1,
                        spec_split(s, sep).last().push(c),
                    ));
                } else {
                    assert(restp[0] == rest[0]);
                    assert(spec_split(s.push(c), sep) =~~= spec_split(s, sep).update(
                        spec_split(s, sep).len() - 1,
                        spec_split(s, sep).last().push(c),
                    ));
                }
            }
        }
    }
}

/// Splits a string at every occurrence of the separator, keeping empty
/// pieces.
pub fn split_on(s: &str, sep: char) -> (r: Vec<String>)
    ensures
        r@.map_values(|p: String| p@) == spec_split(s@, sep),
        r@.len() >= 1,
{
    let mut parts: Vec<String> = Vec::new();
    let mut cur = String::new();
    let n = s.unicode_len();
    let mut i: usize = 0;
    while i < n
        invariant
            i <= n,
            n == s@.len(),
            parts@.map_values(|p: String| p@).push(cur@) == spec_split(s@.take(i as int), sep),
        decreases n - i,
    {
        let c = s.get_char(i);
        proof {
            lemma_split_push(s@.take(i as int), sep, c);
            assert(s@.take(i + 1) == s@.take(i as int).push(s@[i as int]));
        }
        if c == sep {
            let ghost old_parts = parts@;
            let ghost old_cur = cur@;
            parts.push(cur);
            cur = String::new();
            proof {
                assert(parts@.map_values(|p: String| p@).push(cur@) =~= old_parts.map_values(
                    |p: String| p@,
                ).push(old_cur).push(Seq::<char>::empty()));
            }
        } else {
            let ghost old_cur = cur@;
            push_char(&mut cur, c);
            proof {
                let m = parts@.map_values(|p: String| p@);
                assert(m.push(cur@) =~= m.push(old_cur).update(m.len() as int, old_cur.push(c)));
            }
        }
        i = i + 1;
    }
    proof {
        assert(s@.take(n as int) == s@);
    }
    parts.push(cur);
    proof {
        assert(parts@.map_values(|p: String| p@) =~= spec_split(s@, sep));
        lemma_split_len(s@, sep);
    }
    parts
}

/// Compares two string slices character by character.
pub fn str_eq(a: &str, b: &str) -> (r: bool)
    ensures
        r == (a@ == b@),
{
    let na = a.unicode_len();
    let nb = b.unicode_len();
    if na != nb {
        return false;
    }
    let mut i: usize = 0;
    while i < na
        invariant
            i <= na,
            na == a@.len(),
            na == b@.len(),
            forall|j: int| 0 <= j < i ==> a@[j] == b@[j],
        decreases na - i,
    {
        if a.get_char(i) != b.get_char(i) {
            return false;
        }
        i = i + 1;
    }
    proof {
        assert(a@ =~= b@);
    }
    true
}

} // verus!
