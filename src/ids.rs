//! The participant ids as operators type and read them: a plain number, or
//! the number behind an event prefix (`R19` for Ragam, `K19` for Kalotsavam)
//! and zero-padded to six digits.
use vstd::prelude::*;
use vstd::string::{StrSliceExecFns, StringExecFns};

use crate::model::ParticipantCategory;
use crate::text::starts_with;

verus! {

pub open spec fn is_digit(c: char) -> bool {
    '0' <= c && c <= '9'
}

pub open spec fn all_digits(s: Seq<char>) -> bool {
    forall|i: int| 0 <= i < s.len() ==> is_digit(#[trigger] s[i])
}

/// The number a run of decimal digits stands for.
pub open spec fn digits_value(s: Seq<char>) -> int
    decreases s.len(),
{
    if s.len() == 0 {
        0
    } else {
        digits_value(s.drop_last()) * 10 + (s.last() as int - '0' as int)
    }
}

/// The `i32` that `s` writes in decimal, the way Rust reads an `i32`: an
/// optional `+` or `-`, then at least one digit, and nothing else; `None` when
/// `s` is not of that form or its value does not fit.
pub open spec fn decimal_i32(s: Seq<char>) -> Option<int> {
    let body = unsigned_part(s);
    let value = if is_negative(s) { -digits_value(body) } else { digits_value(body) };
    if body.len() == 0 || !all_digits(body) || value < i32::MIN || value > i32::MAX {
        None
    } else {
        Some(value)
    }
}

/// `s` starts with a sign.
pub open spec fn has_sign(s: Seq<char>) -> bool {
    s.len() > 0 && (s[0] == '-' || s[0] == '+')
}

/// `s` starts with a minus sign.
pub open spec fn is_negative(s: Seq<char>) -> bool {
    s.len() > 0 && s[0] == '-'
}

/// `s` without its sign, if it has one.
pub open spec fn unsigned_part(s: Seq<char>) -> Seq<char> {
    if has_sign(s) {
        s.drop_first()
    } else {
        s
    }
}

/// The text of a search box with an event prefix taken off: `R19`, and also
/// `K19` where Kalotsavam ids are accepted.
pub open spec fn id_digits(text: Seq<char>, accept_kalotsavam: bool) -> Seq<char> {
    if "R19"@.is_prefix_of(text) || (accept_kalotsavam && "K19"@.is_prefix_of(text)) {
        text.subrange(3, text.len() as int)
    } else {
        text
    }
}

proof fn lemma_digits_value_nonneg(s: Seq<char>)
    requires
        all_digits(s),
    ensures
        0 <= digits_value(s),
    decreases s.len(),
{
    if s.len() > 0 {
        lemma_digits_value_nonneg(s.drop_last());
        assert(is_digit(s[s.len() - 1]));
    }
}

proof fn lemma_digits_value_grows(s: Seq<char>, k: int)
    requires
        all_digits(s),
        0 <= k <= s.len(),
    ensures
        digits_value(s.take(k)) <= digits_value(s),
    decreases s.len() - k,
{
    if k < s.len() {
        lemma_digits_value_grows(s, k + 1);
        assert(s.take(k + 1).drop_last() =~= s.take(k));
        assert(is_digit(s[k]));
        lemma_digits_value_nonneg(s.take(k));
    } else {
        assert(s.take(k) =~= s);
    }
}

/// Reads an `i32` written in decimal, with an optional sign.
pub fn parse_i32(s: &str) -> (r: Option<i32>)
    ensures
        r matches Some(v) ==> decimal_i32(s@) == Some(v as int),
        r is None ==> decimal_i32(s@) is None,
{
    let n = s.unicode_len();
    let mut start: usize = 0;
    let mut negative = false;
    if n > 0 {
        let c = s.get_char(0);
        if c == '-' {
            negative = true;
            start = 1;
        } else if c == '+' {
            start = 1;
        }
    }
    let ghost body = unsigned_part(s@);
    assert(body =~= s@.subrange(start as int, n as int));
    assert(negative == is_negative(s@));
    if start == n {
        return None;
    }
    // Large enough that a magnitude beyond it fits no `i32`, small enough that `* 10 + 9` fits an `i64`.
    let limit: i64 = 2147483648;
    let mut acc: i64 = 0;
    let mut i: usize = start;
    while i < n
        invariant
            n == s@.len(),
            start <= i <= n,
            start < n,
            body == s@.subrange(start as int, n as int),
            body == unsigned_part(s@),
            negative == is_negative(s@),
            all_digits(body.take(i - start)),
            acc == digits_value(body.take(i - start)),
            0 <= acc <= limit,
            limit == 2147483648,
        decreases n - i,
    {
        let c = s.get_char(i);
        assert(body[i - start] == c);
        if c < '0' || c > '9' {
            assert(!all_digits(body));
            assert(decimal_i32(s@) is None);
            return None;
        }
        proof {
            assert(body.take(i - start + 1).drop_last() =~= body.take(i - start));
        }
        proof {
            lemma_digits_value_nonneg(body.take(i - start));
        }
        let d = (c as u32 - '0' as u32) as i64;
        acc = acc * 10 + d;
        i = i + 1;
        if acc > limit {
            proof {
                if all_digits(body) {
                    lemma_digits_value_grows(body, i - start);
                    assert(digits_value(body) > limit);
                }
                assert(decimal_i32(s@) is None);
            }
            return None;
        }
    }
    assert(body.take(i - start) =~= body);
    if negative {
        Some((0 - acc) as i32)
    } else if acc > 2147483647 {
        None
    } else {
        Some(acc as i32)
    }
}

/// Reads the participant id typed in a search box: a decimal `i32`, after an
/// event prefix where there is one (`R19`, and `K19` where Kalotsavam ids are accepted).
pub fn parse_ragam_id(text: &str, accept_kalotsavam: bool) -> (r: Option<i32>)
    ensures
        r matches Some(v) ==> decimal_i32(id_digits(text@, accept_kalotsavam)) == Some(v as int),
        r is None ==> decimal_i32(id_digits(text@, accept_kalotsavam)) is None,
{
    let n = text.unicode_len();
    let prefixed = starts_with(text, "R19") || (accept_kalotsavam && starts_with(text, "K19"));
    if prefixed {
        proof {
            reveal_strlit("R19");
            reveal_strlit("K19");
        }
        parse_i32(text.substring_char(3, n))
    } else {
        parse_i32(text)
    }
}

/// The characters of the decimal digit `d`.
pub open spec fn digit_char(d: int) -> char {
    ('0' as int + d) as char
}

/// The decimal digits of `n`, without leading zeros.
pub open spec fn decimal_digits(n: nat) -> Seq<char>
    decreases n,
{
    if n < 10 {
        seq![digit_char(n as int)]
    } else {
        decimal_digits(n / 10).push(digit_char((n % 10) as int))
    }
}

/// `s` with zeros in front up to `width` characters.
pub open spec fn zero_padded(s: Seq<char>, width: nat) -> Seq<char> {
    if s.len() >= width {
        s
    } else {
        Seq::new((width - s.len()) as nat, |i: int| '0') + s
    }
}

/// `v` in decimal, zero-padded to `width` characters with a leading `-` counted in the width.
pub open spec fn padded_decimal(v: int, width: nat) -> Seq<char> {
    if v < 0 {
        seq!['-'] + zero_padded(decimal_digits((-v) as nat), (width - 1) as nat)
    } else {
        zero_padded(decimal_digits(v as nat), width)
    }
}

/// The event prefix of a category's ids.
pub open spec fn id_prefix(category: ParticipantCategory) -> Seq<char> {
    match category {
        ParticipantCategory::Ragam => "R19"@,
        ParticipantCategory::Kalotsavam => "K19"@,
    }
}

/// Relies on `format!` with `{:06}`: the decimal digits, after a `-` when
/// negative, zero-padded to six characters in all.
#[verifier::external_body]
fn padded6(n: i32) -> (r: String)
    ensures
        r@ == padded_decimal(n as int, 6),
{
    format!("{:06}", n)
}

/// The id as operators read it: the category's prefix, then the number zero-padded to six places.
pub fn ragam_id_text(category: ParticipantCategory, id: i32) -> (r: String)
    ensures
        r@ == id_prefix(category) + padded_decimal(id as int, 6),
{
    let mut text = match category {
        ParticipantCategory::Ragam => "R19".to_owned(),
        ParticipantCategory::Kalotsavam => "K19".to_owned(),
    };
    let digits = padded6(id);
    text.append(digits.as_str());
    text
}

} // verus!
