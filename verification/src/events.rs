//! Reading what a pair reports in the attributes of its events: amounts written in decimal,
//! assets written as an amount followed by their label, and two assets separated by `", "`.

use vstd::prelude::*;
use vstd::string::StrSliceExecFns;

use crate::assets::{string_eq, AssetInfo};

verus! {

/// An attribute of an event.
#[derive(Debug)]
pub struct Attribute {
    pub key: String,
    pub value: String,
}

/// The value of the first attribute with the given key, if any.
pub open spec fn attribute_value(attrs: Seq<Attribute>, key: Seq<char>) -> Option<Seq<char>>
    decreases attrs.len(),
{
    if attrs.len() == 0 {
        None
    } else if attrs[0].key@ == key {
        Some(attrs[0].value@)
    } else {
        attribute_value(attrs.drop_first(), key)
    }
}

/// The value of the first attribute with key `key`, if any.
pub fn find_attribute(attrs: &Vec<Attribute>, key: &String) -> (r: Option<String>)
    ensures
        r is None <==> attribute_value(attrs@, key@) is None,
        r is Some ==> attribute_value(attrs@, key@) == Some(r->0@),
{
    let mut i: usize = 0;
    assert(attrs@.skip(0) =~= attrs@);
    while i < attrs.len()
        invariant
            i <= attrs.len(),
            attribute_value(attrs@, key@) == attribute_value(attrs@.skip(i as int), key@),
        decreases attrs.len() - i,
    {
        assert(attrs@.skip(i as int).drop_first() =~= attrs@.skip(i + 1));
        if string_eq(&attrs[i].key, key) {
            return Some(attrs[i].value.clone());
        }
        i = i + 1;
    }
    None
}

/// Whether a character is a decimal digit.
pub open spec fn is_digit(c: char) -> bool {
    '0' <= c && c <= '9'
}

/// The value of a decimal digit.
pub open spec fn digit_of(c: char) -> int {
    (c as int) - ('0' as int)
}

/// The number that digits write in decimal.
pub open spec fn number_value(s: Seq<char>) -> int
    decreases s.len(),
{
    if s.len() == 0 {
        0
    } else {
        number_value(s.drop_last()) * 10 + digit_of(s.last())
    }
}

/// Whether every character is a decimal digit.
pub open spec fn all_digits(s: Seq<char>) -> bool {
    forall|i: int| 0 <= i < s.len() ==> #[trigger] is_digit(s[i])
}

/// The amount a text writes: an optional `+` and then at least one digit, when the number fits
/// in 128 bits.
pub open spec fn amount_in(s: Seq<char>) -> Option<u128> {
    let digits = if s.len() > 0 && s[0] == '+' {
        s.drop_first()
    } else {
        s
    };
    if digits.len() > 0 && all_digits(digits) && number_value(digits) <= u128::MAX {
        Some(number_value(digits) as u128)
    } else {
        None
    }
}

/// Digits write a number no smaller than any prefix of them writes.
proof fn lemma_prefix_value(t: Seq<char>, k: int)
    requires
        all_digits(t),
        0 <= k <= t.len(),
    ensures
        0 <= number_value(t.take(k)) <= number_value(t),
    decreases t.len(),
{
    if k == t.len() {
        assert(t.take(k) =~= t);
        lemma_value_nonneg(t);
    } else {
        let u = t.drop_last();
        assert(u.take(k) =~= t.take(k));
        assert forall|i: int| 0 <= i < u.len() implies #[trigger] is_digit(u[i]) by {
            assert(is_digit(t[i]));
        }
        lemma_prefix_value(u, k);
        assert(is_digit(t[t.len() - 1]));
    }
}

/// Digits write a non-negative number.
proof fn lemma_value_nonneg(t: Seq<char>)
    requires
        all_digits(t),
    ensures
        number_value(t) >= 0,
    decreases t.len(),
{
    if t.len() > 0 {
        let u = t.drop_last();
        assert forall|i: int| 0 <= i < u.len() implies #[trigger] is_digit(u[i]) by {
            assert(is_digit(t[i]));
        }
        lemma_value_nonneg(u);
        assert(is_digit(t[t.len() - 1]));
    }
}

/// Reads the digits of `s` from `start` up to the first character that is not one, or to the
/// end; returns where the run ends and the number it writes, or `None` when that number does
/// not fit in 128 bits.
fn read_digits(s: &str, start: usize) -> (r: Option<(usize, u128)>)
    requires
        start <= s@.len(),
    ensures
        r matches Some((end, value)) ==> {
            &&& start <= end <= s@.len()
            &&& all_digits(s@.subrange(start as int, end as int))
            &&& (end == s@.len() || !is_digit(s@[end as int]))
            &&& value == number_value(s@.subrange(start as int, end as int))
        },
        r is None ==> exists|end: int|
            start <= end <= s@.len() && all_digits(#[trigger] s@.subrange(start as int, end))
                && number_value(s@.subrange(start as int, end)) > u128::MAX,
{
    let n = s.unicode_len();
    let mut i = start;
    let mut acc: u128 = 0;
    assert(s@.subrange(start as int, start as int) =~= Seq::<char>::empty());
    while i < n
        invariant
            n == s@.len(),
            start <= i <= n,
            all_digits(s@.subrange(start as int, i as int)),
            acc == number_value(s@.subrange(start as int, i as int)),
        decreases n - i,
    {
        let c = s.get_char(i);
        if !('0' <= c && c <= '9') {
            return Some((i, acc));
        }
        let ghost next = s@.subrange(start as int, i + 1);
        assert(next.drop_last() =~= s@.subrange(start as int, i as int));
        assert forall|j: int| 0 <= j < next.len() implies #[trigger] is_digit(next[j]) by {
            if j < next.len() - 1 {
                assert(next[j] == s@.subrange(start as int, i as int)[j]);
            }
        }
        let d = (c as u32 - '0' as u32) as u128;
        let scaled = match acc.checked_mul(10) {
            Some(v) => v,
            None => {
                proof {
                    lemma_value_nonneg(next.drop_last());
                    assert(number_value(next) > u128::MAX);
                }
                return None;
            },
        };
        acc = match scaled.checked_add(d) {
            Some(v) => v,
            None => {
                proof {
                    assert(number_value(next) > u128::MAX);
                }
                return None;
            },
        };
        i = i + 1;
    }
    Some((i, acc))
}

/// Reads an amount written in decimal: an optional `+`, then at least one digit and nothing
/// else; `None` when the text is not such or the number does not fit in 128 bits.
pub fn parse_amount(text: &String) -> (r: Option<u128>)
    ensures
        r == amount_in(text@),
{
    let s = text.as_str();
    let n = s.unicode_len();
    let start: usize = if n > 0 && s.get_char(0) == '+' {
        1
    } else {
        0
    };
    let ghost digits = if text@.len() > 0 && text@[0] == '+' {
        text@.drop_first()
    } else {
        text@
    };
    assert(digits =~= text@.subrange(start as int, n as int));
    if start == n {
        return None;
    }
    match read_digits(s, start) {
        None => {
            proof {
                let end = choose|end: int|
                    start <= end <= s@.len() && all_digits(#[trigger] s@.subrange(start as int, end))
                        && number_value(s@.subrange(start as int, end)) > u128::MAX;
                if all_digits(digits) {
                    assert(digits.take(end - start) =~= s@.subrange(start as int, end));
                    lemma_prefix_value(digits, end - start);
                }
            }
            None
        },
        Some((end, value)) => {
            if end < n {
                proof {
                    assert(!is_digit(digits[end - start]));
                }
                None
            } else {
                Some(value)
            }
        },
    }
}

/// The length of the run of digits a text starts with.
pub open spec fn digit_run(s: Seq<char>) -> nat
    decreases s.len(),
{
    if s.len() > 0 && is_digit(s[0]) {
        1 + digit_run(s.drop_first())
    } else {
        0
    }
}

/// An asset written as its amount followed by its label: the amount the leading digits write
/// (there must be at least one, and it must fit in 128 bits) and the rest of the text.
pub open spec fn amount_and_label(s: Seq<char>) -> Option<(u128, Seq<char>)> {
    let n = digit_run(s) as int;
    if n > 0 && number_value(s.take(n)) <= u128::MAX {
        Some((number_value(s.take(n)) as u128, s.skip(n)))
    } else {
        None
    }
}

/// A run of digits followed by something else, or by nothing, is the run a text starts with.
proof fn lemma_digit_run(s: Seq<char>, i: int)
    requires
        0 <= i <= s.len(),
        all_digits(s.take(i)),
        i == s.len() || !is_digit(s[i]),
    ensures
        digit_run(s) == i,
    decreases i,
{
    if i > 0 {
        let t = s.drop_first();
        assert(is_digit(s.take(i)[0]));
        assert forall|j: int| 0 <= j < i - 1 implies #[trigger] is_digit(t.take(i - 1)[j]) by {
            assert(t.take(i - 1)[j] == s.take(i)[j + 1]);
        }
        if i < s.len() {
            assert(t[i - 1] == s[i]);
        }
        lemma_digit_run(t, i - 1);
    }
}

/// Reads an asset written as its amount followed by its label.
pub fn split_amount(text: &String) -> (r: Option<(u128, String)>)
    ensures
        r is None <==> amount_and_label(text@) is None,
        r matches Some((amount, label)) ==> amount_and_label(text@) == Some((amount, label@)),
{
    let s = text.as_str();
    let n = s.unicode_len();
    match read_digits(s, 0) {
        None => {
            proof {
                let end = choose|end: int|
                    0 <= end <= s@.len() && all_digits(#[trigger] s@.subrange(0, end))
                        && number_value(s@.subrange(0, end)) > u128::MAX;
                let run = digit_run(text@) as int;
                assert(s@.subrange(0, end) =~= text@.take(end));
                lemma_run_covers(text@, end);
                lemma_run_digits(text@);
                assert(s@.subrange(0, end) =~= text@.take(run).take(end));
                lemma_prefix_value(text@.take(run), end);
            }
            None
        },
        Some((end, value)) => {
            proof {
                assert(s@.subrange(0, end as int) =~= text@.take(end as int));
                lemma_digit_run(text@, end as int);
            }
            if end == 0 {
                None
            } else {
                let label = s.substring_char(end, n).to_owned();
                Some((value, label))
            }
        },
    }
}

/// The run of digits a text starts with is made of digits.
proof fn lemma_run_digits(s: Seq<char>)
    ensures
        digit_run(s) <= s.len(),
        all_digits(s.take(digit_run(s) as int)),
    decreases s.len(),
{
    if s.len() > 0 && is_digit(s[0]) {
        let t = s.drop_first();
        lemma_run_digits(t);
        let n = digit_run(s) as int;
        assert forall|j: int| 0 <= j < n implies #[trigger] is_digit(s.take(n)[j]) by {
            if j > 0 {
                assert(s.take(n)[j] == t.take(n - 1)[j - 1]);
            }
        }
    }
}

/// Digits at the start of a text lie within the run of digits it starts with.
proof fn lemma_run_covers(s: Seq<char>, k: int)
    requires
        0 <= k <= s.len(),
        all_digits(s.take(k)),
    ensures
        k <= digit_run(s),
    decreases k,
{
    if k > 0 {
        let t = s.drop_first();
        assert(is_digit(s.take(k)[0]));
        assert forall|j: int| 0 <= j < k - 1 implies #[trigger] is_digit(t.take(k - 1)[j]) by {
            assert(t.take(k - 1)[j] == s.take(k)[j + 1]);
        }
        lemma_run_covers(t, k - 1);
    }
}

/// Whether `", "` starts at position `i` of a text.
pub open spec fn separator_at(s: Seq<char>, i: int) -> bool {
    0 <= i && i + 1 < s.len() && s[i] == ',' && s[i + 1] == ' '
}

/// Two parts of a text separated by the first `", "` in it.
pub open spec fn pair_parts(s: Seq<char>) -> Option<(Seq<char>, Seq<char>)> {
    if exists|i: int| #[trigger] separator_at(s, i) {
        let i = choose|i: int|
            #[trigger] separator_at(s, i) && forall|j: int| 0 <= j < i ==> !separator_at(s, j);
        Some((s.take(i), s.skip(i + 2)))
    } else {
        None
    }
}

/// Splits a text at the first `", "` in it.
pub fn split_pair(text: &String) -> (r: Option<(String, String)>)
    ensures
        r is None <==> pair_parts(text@) is None,
        r matches Some((a, b)) ==> pair_parts(text@) == Some((a@, b@)),
{
    let s = text.as_str();
    let n = s.unicode_len();
    let mut i: usize = 0;
    while n > 0 && i < n - 1
        invariant
            n == s@.len(),
            s@ == text@,
            forall|j: int| 0 <= j < i ==> !separator_at(s@, j),
        decreases n - i,
    {
        if s.get_char(i) == ',' && s.get_char(i + 1) == ' ' {
            proof {
                assert(separator_at(s@, i as int));
                let k = choose|k: int|
                    #[trigger] separator_at(s@, k) && forall|j: int| 0 <= j < k ==> !separator_at(s@, j);
                if k < i {
                    assert(!separator_at(s@, k));
                } else if k > i {
                    assert(!separator_at(s@, i as int));
                }
            }
            let first = s.substring_char(0, i).to_owned();
            let second = s.substring_char(i + 2, n).to_owned();
            proof {
                assert(first@ =~= text@.take(i as int));
                assert(second@ =~= text@.skip(i + 2));
            }
            return Some((first, second));
        }
        i = i + 1;
    }
    proof {
        assert forall|j: int| !#[trigger] separator_at(s@, j) by {
            if 0 <= j && j + 1 < n {
                assert(j < i);
            }
        }
    }
    None
}

/// The label an asset is written with: its denom, or its contract address.
pub open spec fn label_of(info: AssetInfo) -> Seq<char> {
    info.key().1
}

/// The amounts of two assets reported as `"<amount><label>, <amount><label>"`, in the order of
/// `first` and `second`: each part must carry the label of one of them, and both must be
/// present.
pub open spec fn withdrawn_model(s: Seq<char>, first: AssetInfo, second: AssetInfo) -> Option<(u128, u128)> {
    match pair_parts(s) {
        None => None,
        Some(parts) => match (amount_and_label(parts.0), amount_and_label(parts.1)) {
            (Some(a), Some(b)) => if a.1 == label_of(first) && b.1 == label_of(second) {
                Some((a.0, b.0))
            } else if a.1 == label_of(second) && b.1 == label_of(first) {
                Some((b.0, a.0))
            } else {
                None
            },
            _ => None,
        },
    }
}

/// The label an asset is written with.
fn label(info: &AssetInfo) -> (r: &String)
    ensures
        r@ == label_of(*info),
{
    match info {
        AssetInfo::Native(d) => d,
        AssetInfo::Cw20(a) => a,
    }
}

/// Reads the amounts of `first` and `second` from the report of a withdrawal of liquidity.
pub fn withdrawn_amounts(text: &String, first: &AssetInfo, second: &AssetInfo) -> (r: Option<
    (u128, u128),
>)
    ensures
        r == withdrawn_model(text@, *first, *second),
{
    let (a, b) = match split_pair(text) {
        Some(p) => p,
        None => return None,
    };
    let ghost parts = (a@, b@);
    assert(pair_parts(text@) == Some(parts));
    let (x, la) = match split_amount(&a) {
        Some(v) => v,
        None => {
            assert(amount_and_label(parts.0) is None);
            return None;
        },
    };
    assert(amount_and_label(parts.0) == Some((x, la@)));
    let (y, lb) = match split_amount(&b) {
        Some(v) => v,
        None => {
            assert(amount_and_label(parts.1) is None);
            return None;
        },
    };
    assert(amount_and_label(parts.1) == Some((y, lb@)));
    if string_eq(&la, label(first)) && string_eq(&lb, label(second)) {
        Some((x, y))
    } else if string_eq(&la, label(second)) && string_eq(&lb, label(first)) {
        Some((y, x))
    } else {
        None
    }
}

/// The asset among two whose label is `text`, the first one when both are.
pub fn asset_with_label(text: &String, a: &AssetInfo, b: &AssetInfo) -> (r: Option<AssetInfo>)
    ensures
        text@ == label_of(*a) ==> r == Some(*a),
        text@ != label_of(*a) && text@ == label_of(*b) ==> r == Some(*b),
        text@ != label_of(*a) && text@ != label_of(*b) ==> r is None,
{
    if string_eq(text, label(a)) {
        Some(a.duplicate())
    } else if string_eq(text, label(b)) {
        Some(b.duplicate())
    } else {
        None
    }
}

} // verus!
