//! Replacement templates: the capture groups that a template refers to, and
//! whether a pattern defines them.
//!
//! A template is read from left to right. `$$` stands for one `$`. `$name`
//! refers to a group, where `name` is the longest run of ASCII letters,
//! digits and underscores that follows the `$`; `${name}` refers to a group
//! by any text without a closing brace. A `$` that is followed by neither is
//! an ordinary character. A reference that is a decimal number names a group
//! by its index, any other names it by its name.

use vstd::prelude::*;
use vstd::string::StrSliceExecFns;
use crate::engine::group_names;
use crate::text::same_text;

verus! {

/// The character is an ASCII digit.
pub open spec fn is_digit(c: char) -> bool {
    '0' as u32 <= c as u32 <= '9' as u32
}

/// The character may stand in a reference that is written without braces.
pub open spec fn is_name_char(c: char) -> bool {
    ||| is_digit(c)
    ||| 'a' as u32 <= c as u32 <= 'z' as u32
    ||| 'A' as u32 <= c as u32 <= 'Z' as u32
    ||| c == '_'
}

/// The first position at or after `i` that holds no name character: where
/// the longest name that starts at `i` ends.
pub open spec fn name_end(s: Seq<char>, i: int) -> int
    decreases s.len() - i,
{
    if 0 <= i < s.len() && is_name_char(s[i]) {
        name_end(s, i + 1)
    } else {
        i
    }
}

/// The first position at or after `i` that holds a closing brace, or the
/// length of `s` where there is none.
pub open spec fn brace_end(s: Seq<char>, i: int) -> int
    decreases s.len() - i,
{
    if 0 <= i < s.len() && s[i] != '}' {
        brace_end(s, i + 1)
    } else {
        i
    }
}

/// The names of the references that stand in `s` at or after position `i`,
/// in the order in which they are written.
pub open spec fn references_from(s: Seq<char>, i: int) -> Seq<Seq<char>>
    decreases s.len() - i,
{
    if i < 0 || i >= s.len() {
        Seq::empty()
    } else if s[i] != '$' {
        references_from(s, i + 1)
    } else if i + 1 < s.len() && s[i + 1] == '$' {
        references_from(s, i + 2)
    } else if i + 1 < s.len() && s[i + 1] == '{' {
        let close = brace_end(s, i + 2);
        if i + 2 <= close < s.len() {
            seq![s.subrange(i + 2, close)] + references_from(s, close + 1)
        } else {
            references_from(s, i + 1)
        }
    } else {
        let end = name_end(s, i + 1);
        if i + 1 < end <= s.len() {
            seq![s.subrange(i + 1, end)] + references_from(s, end)
        } else {
            references_from(s, i + 1)
        }
    }
}

/// The names of the references of a template, in the order in which they
/// are written.
pub open spec fn references(template: Seq<char>) -> Seq<Seq<char>> {
    references_from(template, 0)
}

/// The number that a digit stands for.
pub open spec fn digit_value(c: char) -> nat {
    if is_digit(c) {
        (c as u32 - '0' as u32) as nat
    } else {
        0
    }
}

/// The number that a text of decimal digits stands for.
pub open spec fn digits_value(s: Seq<char>) -> nat
    decreases s.len(),
{
    if s.len() == 0 {
        0
    } else {
        digits_value(s.drop_last()) * 10 + digit_value(s.last())
    }
}

/// Every character of the text is a digit.
pub open spec fn all_digits(s: Seq<char>) -> bool {
    forall|i: int| 0 <= i < s.len() ==> is_digit(#[trigger] s[i])
}

/// The name without the plus sign that may stand before a number.
pub open spec fn unsigned(name: Seq<char>) -> Seq<char> {
    if name.len() > 0 && name[0] == '+' {
        name.drop_first()
    } else {
        name
    }
}

/// The group index that a reference stands for, if it is a number: decimal
/// digits, a plus sign before them or not, and a value that a `usize` holds.
/// Every other reference is a name.
pub open spec fn group_index(name: Seq<char>) -> Option<nat> {
    let digits = unsigned(name);
    if digits.len() > 0 && all_digits(digits) && digits_value(digits) <= usize::MAX {
        Some(digits_value(digits))
    } else {
        None
    }
}

/// The reference names one of the groups: by an index that is within the
/// groups, or by the name that one of them has.
pub open spec fn refers(name: Seq<char>, groups: Seq<Option<Seq<char>>>) -> bool {
    match group_index(name) {
        Some(index) => index < groups.len(),
        None => groups.contains(Some(name)),
    }
}

/// Every reference of the template names one of the groups.
pub open spec fn template_binds(template: Seq<char>, groups: Seq<Option<Seq<char>>>) -> bool {
    forall|k: int|
        0 <= k < references(template).len() ==> refers(#[trigger] references(template)[k], groups)
}

/// `k` is the index of the first reference of the template that names none
/// of the groups.
pub open spec fn is_first_unbound(
    template: Seq<char>,
    groups: Seq<Option<Seq<char>>>,
    k: int,
) -> bool {
    &&& 0 <= k < references(template).len()
    &&& !refers(references(template)[k], groups)
    &&& forall|j: int| 0 <= j < k ==> refers(#[trigger] references(template)[j], groups)
}

/// The first reference of the template that names none of the groups.
pub open spec fn first_unbound(template: Seq<char>, groups: Seq<Option<Seq<char>>>) -> Seq<char> {
    references(template)[choose|k: int| is_first_unbound(template, groups, k)]
}

/// The names that the spans cut out of `s`.
pub open spec fn cut(s: Seq<char>, spans: Seq<(usize, usize)>) -> Seq<Seq<char>> {
    Seq::new(spans.len(), |k: int| s.subrange(spans[k].0 as int, spans[k].1 as int))
}

/// Every span lies within a text of length `len`.
pub open spec fn spans_within(spans: Seq<(usize, usize)>, len: nat) -> bool {
    forall|k: int| 0 <= k < spans.len() ==> (#[trigger] spans[k]).0 <= spans[k].1 <= len
}

/// The value of a text of digits is at least the value of each of its
/// beginnings.
pub proof fn lemma_digits_value_grows(s: Seq<char>, k: int)
    requires
        0 <= k <= s.len(),
    ensures
        digits_value(s.take(k)) <= digits_value(s),
    decreases s.len(),
{
    if k == s.len() {
        assert(s.take(k) =~= s);
    } else {
        assert(s.drop_last().take(k) =~= s.take(k));
        lemma_digits_value_grows(s.drop_last(), k);
        assert(digits_value(s.drop_last()) * 10 >= digits_value(s.drop_last())) by (nonlinear_arith);
    }
}

/// The characters of a text.
pub fn chars_of(text: &str) -> (chars: Vec<char>)
    ensures
        chars@ == text@,
{
    let len = text.unicode_len();
    let mut chars: Vec<char> = Vec::new();
    let mut i: usize = 0;
    while i < len
        invariant
            i <= len,
            len == text@.len(),
            chars@ == text@.take(i as int),
        decreases len - i,
    {
        chars.push(text.get_char(i));
        proof {
            assert(text@.take(i + 1) =~= text@.take(i as int).push(text@[i as int]));
        }
        i += 1;
    }
    proof {
        assert(text@.take(len as int) =~= text@);
    }
    chars
}

/// Whether a character is an ASCII digit.
pub fn digit(c: char) -> (yes: bool)
    ensures
        yes == is_digit(c),
{
    let code: u32 = c as u32;
    '0' as u32 <= code && code <= '9' as u32
}

/// Whether a character may stand in a reference without braces.
pub fn name_char(c: char) -> (yes: bool)
    ensures
        yes == is_name_char(c),
{
    let code: u32 = c as u32;
    digit(c) || ('a' as u32 <= code && code <= 'z' as u32) || ('A' as u32 <= code && code
        <= 'Z' as u32) || c == '_'
}

/// Finds where the longest name that starts at `from` ends.
fn scan_name(chars: &Vec<char>, from: usize) -> (end: usize)
    requires
        from <= chars.len(),
    ensures
        end == name_end(chars@, from as int),
        from <= end <= chars.len(),
{
    let mut end: usize = from;
    while end < chars.len() && name_char(chars[end])
        invariant
            from <= end <= chars.len(),
            name_end(chars@, from as int) == name_end(chars@, end as int),
        decreases chars.len() - end,
    {
        end += 1;
    }
    end
}

/// Finds the first closing brace at or after `from`.
fn scan_brace(chars: &Vec<char>, from: usize) -> (end: usize)
    requires
        from <= chars.len(),
    ensures
        end == brace_end(chars@, from as int),
        from <= end <= chars.len(),
{
    let mut end: usize = from;
    while end < chars.len() && chars[end] != '}'
        invariant
            from <= end <= chars.len(),
            brace_end(chars@, from as int) == brace_end(chars@, end as int),
        decreases chars.len() - end,
    {
        end += 1;
    }
    end
}

/// Finds the references of a template, given as its characters. Each span
/// holds the positions at which the name of a reference begins and ends.
pub fn find_references(chars: &Vec<char>) -> (spans: Vec<(usize, usize)>)
    ensures
        cut(chars@, spans@) == references(chars@),
        spans_within(spans@, chars@.len()),
{
    let ghost s = chars@;
    let len = chars.len();
    let mut spans: Vec<(usize, usize)> = Vec::new();
    let mut i: usize = 0;
    while i < len
        invariant
            i <= len,
            len == chars.len(),
            s == chars@,
            spans_within(spans@, s.len()),
            references(s) == cut(s, spans@) + references_from(s, i as int),
        decreases len - i,
    {
        if chars[i] != '$' {
            i += 1;
        } else if i + 1 < len && chars[i + 1] == '$' {
            i += 2;
        } else if i + 1 >= len {
            i += 1;
        } else if chars[i + 1] == '{' {
            let close = scan_brace(chars, i + 2);
            if close < len {
                let ghost before = spans@;
                spans.push((i + 2, close));
                proof {
                    let name = s.subrange(i + 2, close as int);
                    assert(cut(s, spans@) =~= cut(s, before) + seq![name]);
                    assert(references(s) =~= cut(s, spans@) + references_from(s, close + 1));
                }
                i = close + 1;
            } else {
                i += 1;
            }
        } else {
            let end = scan_name(chars, i + 1);
            if end > i + 1 {
                let ghost before = spans@;
                spans.push((i + 1, end));
                proof {
                    let name = s.subrange(i + 1, end as int);
                    assert(cut(s, spans@) =~= cut(s, before) + seq![name]);
                    assert(references(s) =~= cut(s, spans@) + references_from(s, end as int));
                }
                i = end;
            } else {
                i += 1;
            }
        }
    }
    proof {
        assert(references(s) =~= cut(s, spans@));
    }
    spans
}

/// Reads the name between `start` and `end` as a group index, if it is one.
pub fn parse_index(chars: &Vec<char>, start: usize, end: usize) -> (index: Option<usize>)
    requires
        start <= end <= chars.len(),
    ensures
        match index {
            Some(n) => group_index(chars@.subrange(start as int, end as int)) == Some(n as nat),
            None => group_index(chars@.subrange(start as int, end as int)) is None,
        },
{
    let ghost name = chars@.subrange(start as int, end as int);
    let from: usize = if start < end && chars[start] == '+' {
        start + 1
    } else {
        start
    };
    let ghost digits = chars@.subrange(from as int, end as int);
    proof {
        assert(unsigned(name) =~= digits);
    }
    if from == end {
        return None;
    }
    let mut value: usize = 0;
    let mut i: usize = from;
    while i < end
        invariant
            start <= from <= i <= end <= chars.len(),
            name == chars@.subrange(start as int, end as int),
            digits == chars@.subrange(from as int, end as int),
            unsigned(name) == digits,
            digits.len() > 0,
            all_digits(digits.take(i - from)),
            value == digits_value(digits.take(i - from)),
        decreases end - i,
    {
        let c = chars[i];
        let ghost seen = digits.take(i - from + 1);
        proof {
            assert(seen.drop_last() =~= digits.take(i - from));
            assert(seen.last() == c);
        }
        if !digit(c) {
            proof {
                assert(!is_digit(digits[i - from]));
            }
            return None;
        }
        let code: u32 = c as u32;
        let d: usize = (code - '0' as u32) as usize;
        let next = match value.checked_mul(10) {
            Some(tens) => tens.checked_add(d),
            None => None,
        };
        match next {
            Some(sum) => {
                value = sum;
            },
            None => {
                proof {
                    assert(digits_value(seen) > usize::MAX);
                    lemma_digits_value_grows(digits, i - from + 1);
                }
                return None;
            },
        }
        proof {
            assert forall|j: int| 0 <= j < seen.len() implies is_digit(#[trigger] seen[j]) by {
                if j < seen.len() - 1 {
                    assert(seen[j] == digits.take(i - from)[j]);
                }
            }
        }
        i += 1;
    }
    proof {
        assert(digits.take(end - from) =~= digits);
    }
    Some(value)
}

/// Whether one of the groups has the name `name`.
pub fn names_group(name: &str, groups: &Vec<Option<String>>) -> (found: bool)
    ensures
        found == group_names(groups@).contains(Some(name@)),
{
    let ghost names = group_names(groups@);
    let mut i: usize = 0;
    while i < groups.len()
        invariant
            i <= groups.len(),
            names == group_names(groups@),
            forall|j: int| 0 <= j < i ==> names[j] != Some(name@),
        decreases groups.len() - i,
    {
        match &groups[i] {
            Some(group) => {
                if same_text(group.as_str(), name) {
                    proof {
                        assert(names[i as int] == Some(name@));
                    }
                    return true;
                }
            },
            None => {},
        }
        i += 1;
    }
    false
}

/// Looks for a reference of the template that names none of the groups, and
/// returns the first one.
pub fn unbound_reference<'a>(template: &'a str, groups: &Vec<Option<String>>) -> (unbound: Option<
    &'a str,
>)
    ensures
        match unbound {
            Some(reference) => !template_binds(template@, group_names(groups@)) && reference@
                == first_unbound(template@, group_names(groups@)),
            None => template_binds(template@, group_names(groups@)),
        },
{
    let ghost names = group_names(groups@);
    let chars = chars_of(template);
    let spans = find_references(&chars);
    let mut k: usize = 0;
    while k < spans.len()
        invariant
            k <= spans.len(),
            chars@ == template@,
            names == group_names(groups@),
            cut(chars@, spans@) == references(template@),
            spans_within(spans@, chars@.len()),
            forall|j: int| 0 <= j < k ==> refers(#[trigger] references(template@)[j], names),
        decreases spans.len() - k,
    {
        let start = spans[k].0;
        let end = spans[k].1;
        proof {
            assert(spans@[k as int].0 <= spans@[k as int].1 <= chars@.len());
            assert(cut(chars@, spans@)[k as int] == chars@.subrange(start as int, end as int));
        }
        let reference = template.substring_char(start, end);
        let bound = match parse_index(&chars, start, end) {
            Some(index) => index < groups.len(),
            None => names_group(reference, groups),
        };
        if !bound {
            proof {
                assert(is_first_unbound(template@, names, k as int));
                let first = choose|first: int| is_first_unbound(template@, names, first);
                assert(first == k);
            }
            return Some(reference);
        }
        k += 1;
    }
    None
}

} // verus!
