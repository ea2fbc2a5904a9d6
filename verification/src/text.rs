//! Text: cutting, joining, comparing.

use crate::outside::{is_white_space, white_space};
use vstd::prelude::*;
use vstd::utf8::{encode_utf8, encode_utf8_decode_utf8};

verus! {

// ── Equality ─────────────────────────────────────────────────────────────────

/// Whether two texts are the same.
pub fn same(a: &str, b: &str) -> (r: bool)
    ensures
        r == (a@ == b@),
{
    *a == *b
}

/// Whether two optional texts are the same.
pub fn same_option(a: &Option<String>, b: &Option<String>) -> (r: bool)
    ensures
        r == (a.deep_view() == b.deep_view()),
{
    match (a, b) {
        (Some(x), Some(y)) => same(x.as_str(), y.as_str()),
        (None, None) => true,
        _ => false,
    }
}

/// The text itself, or the empty text where there is none.
pub open spec fn or_empty(text: Option<Seq<char>>) -> Seq<char> {
    match text {
        Some(t) => t,
        None => Seq::empty(),
    }
}

/// Takes the text, or the empty text where there is none.
pub fn text_or_empty(text: &Option<String>) -> (r: String)
    ensures
        r@ == or_empty(text.deep_view()),
{
    match text {
        Some(t) => t.clone(),
        None => String::new(),
    }
}

/// The text, unless it is empty.
pub open spec fn non_empty(text: Option<Seq<char>>) -> Option<Seq<char>> {
    match text {
        Some(t) if t.len() > 0 => Some(t),
        _ => None,
    }
}

/// Keeps a text unless it is empty.
pub fn keep_non_empty(text: &Option<String>) -> (r: Option<String>)
    ensures
        r.deep_view() == non_empty(text.deep_view()),
{
    match text {
        Some(t) => if t.as_str().is_empty() {
            None
        } else {
            Some(t.clone())
        },
        None => None,
    }
}

/// Whether an HTML form sent a ticked checkbox.
pub open spec fn ticked(value: Option<Seq<char>>) -> bool {
    value == Some("on"@)
}

/// Reads a checkbox.
pub fn is_ticked(value: &Option<String>) -> (r: bool)
    ensures
        r == ticked(value.deep_view()),
{
    match value {
        Some(v) => same(v.as_str(), "on"),
        None => false,
    }
}

/// Equal texts have equal UTF-8 forms, and only they.
pub proof fn lemma_utf8_injective(a: Seq<char>, b: Seq<char>)
    requires
        encode_utf8(a) == encode_utf8(b),
    ensures
        a == b,
{
    encode_utf8_decode_utf8(a);
    encode_utf8_decode_utf8(b);
}

// ── Characters ───────────────────────────────────────────────────────────────

/// The characters of a text.
pub fn chars_of(text: &str) -> (r: Vec<char>)
    ensures
        r@ == text@,
{
    let mut r: Vec<char> = Vec::new();
    for c in it: text.chars()
        invariant
            it.seq() == text@,
            r@ == it.seq().take(it.index() as int),
    {
        r.push(c);
        assert(it.seq().take(it.index() + 1) =~= it.seq().take(it.index() as int).push(c));
    }
    assert(text@.take(text@.len() as int) =~= text@);
    r
}

/// The text of the characters from `from` up to `to`.
pub fn text_between(chars: &Vec<char>, from: usize, to: usize) -> (r: String)
    requires
        from <= to <= chars@.len(),
    ensures
        r@ == chars@.subrange(from as int, to as int),
{
    let mut r = String::new();
    let mut i: usize = from;
    while i < to
        invariant
            from <= i <= to <= chars@.len(),
            r@ == chars@.subrange(from as int, i as int),
        decreases to - i,
    {
        r.push(chars[i]);
        i = i + 1;
        assert(chars@.subrange(from as int, i as int) =~= chars@.subrange(
            from as int,
            i - 1 as int,
        ).push(chars@[i - 1]));
    }
    r
}

// ── Numbers ──────────────────────────────────────────────────────────────────

/// The decimal digits of a number.
pub open spec fn decimal(n: nat) -> Seq<char>
    decreases n,
{
    if n < 10 {
        seq![(48 + n) as char]
    } else {
        decimal(n / 10).push((48 + n % 10) as char)
    }
}

/// The digit character of a number below ten.
fn digit_char(d: u64) -> (c: char)
    requires
        d < 10,
    ensures
        c == (48 + d) as char,
{
    let code: u8 = 48 + d as u8;
    code as char
}

/// Writes a number in decimal.
pub fn decimal_text(n: u64) -> (r: String)
    ensures
        r@ == decimal(n as nat),
    decreases n,
{
    let mut r = if n < 10 {
        String::new()
    } else {
        decimal_text(n / 10)
    };
    r.push(digit_char(n % 10));
    assert(r@ =~= decimal(n as nat));
    r
}

/// `true` or `false`.
pub open spec fn flag_text(b: bool) -> Seq<char> {
    if b {
        "true"@
    } else {
        "false"@
    }
}

/// Writes a flag as `true` or `false`.
pub fn flag_to_text(b: bool) -> (r: String)
    ensures
        r@ == flag_text(b),
{
    if b {
        "true".to_string()
    } else {
        "false".to_string()
    }
}

// ── Searching ────────────────────────────────────────────────────────────────

/// The first position at or after `from` that holds `c`, or the length of the text.
pub open spec fn position_of(text: Seq<char>, c: char, from: int) -> int
    decreases text.len() - from,
{
    if from < 0 || from >= text.len() {
        text.len() as int
    } else if text[from] == c {
        from
    } else {
        position_of(text, c, from + 1)
    }
}

/// Finds the first position at or after `from` that holds `c`.
pub fn find_char(chars: &Vec<char>, c: char, from: usize) -> (r: usize)
    requires
        from <= chars@.len(),
    ensures
        r == position_of(chars@, c, from as int),
        from <= r <= chars@.len(),
{
    let mut i: usize = from;
    while i < chars.len() && chars[i] != c
        invariant
            from <= i <= chars@.len(),
            position_of(chars@, c, from as int) == position_of(chars@, c, i as int),
        decreases chars@.len() - i,
    {
        i = i + 1;
    }
    i
}

/// Whether `pattern` stands in the text at position `at`.
pub open spec fn occurs_at(text: Seq<char>, pattern: Seq<char>, at: int) -> bool {
    0 <= at && at + pattern.len() <= text.len() && text.subrange(at, at + pattern.len()) == pattern
}

/// The first position at or after `from` at which `pattern` stands, if there is one.
pub open spec fn occurrence(text: Seq<char>, pattern: Seq<char>, from: int) -> Option<int>
    decreases text.len() + 1 - from,
{
    if from < 0 || from > text.len() {
        None
    } else if occurs_at(text, pattern, from) {
        Some(from)
    } else {
        occurrence(text, pattern, from + 1)
    }
}

fn matches_at(chars: &Vec<char>, pattern: &Vec<char>, at: usize) -> (r: bool)
    requires
        at <= chars@.len(),
    ensures
        r == occurs_at(chars@, pattern@, at as int),
{
    let available = chars.len() - at;
    if pattern.len() > available {
        return false;
    }
    let mut i: usize = 0;
    while i < pattern.len()
        invariant
            i <= pattern@.len(),
            at + pattern@.len() <= chars@.len() <= usize::MAX,
            forall|k: int| 0 <= k < i ==> chars@[at + k] == #[trigger] pattern@[k],
        decreases pattern@.len() - i,
    {
        if chars[at + i] != pattern[i] {
            assert(chars@.subrange(at as int, at + pattern@.len())[i as int] != pattern@[i as int]);
            return false;
        }
        i = i + 1;
    }
    assert(chars@.subrange(at as int, at + pattern@.len()) =~= pattern@);
    true
}

/// Finds the first position at or after `from` at which `pattern` stands.
pub fn find_text(chars: &Vec<char>, pattern: &Vec<char>, from: usize) -> (r: Option<usize>)
    requires
        from <= chars@.len(),
    ensures
        match r {
            Some(i) => occurrence(chars@, pattern@, from as int) == Some(i as int) && from <= i && i
                + pattern@.len() <= chars@.len(),
            None => occurrence(chars@, pattern@, from as int) is None,
        },
{
    let mut i: usize = from;
    while i < chars.len()
        invariant
            from <= i <= chars@.len(),
            occurrence(chars@, pattern@, from as int) == occurrence(chars@, pattern@, i as int),
        decreases chars@.len() - i,
    {
        if matches_at(chars, pattern, i) {
            return Some(i);
        }
        i = i + 1;
    }
    if matches_at(chars, pattern, i) {
        Some(i)
    } else {
        assert(occurrence(chars@, pattern@, i + 1) is None);
        None
    }
}

// ── Cutting ──────────────────────────────────────────────────────────────────

/// What follows the last `/` of a text; all of it, where there is none.
pub open spec fn last_segment(text: Seq<char>) -> Seq<char>
    decreases text.len(),
{
    if text.len() == 0 || text.last() == '/' {
        Seq::empty()
    } else {
        last_segment(text.drop_last()).push(text.last())
    }
}

/// The last segment holds no `/`, and is the whole text or stands behind a `/`.
pub proof fn lemma_last_segment(text: Seq<char>)
    ensures
        !last_segment(text).contains('/'),
        last_segment(text).len() <= text.len(),
        text.skip(text.len() - last_segment(text).len()) == last_segment(text),
        last_segment(text).len() < text.len() ==> text[text.len() - last_segment(text).len() - 1]
            == '/',
    decreases text.len(),
{
    if text.len() > 0 && text.last() != '/' {
        let rest = text.drop_last();
        lemma_last_segment(rest);
        let seg = last_segment(rest);
        assert(text.skip(text.len() - last_segment(text).len()) =~= seg.push(text.last())) by {
            let k = rest.len() - seg.len();
            assert forall|i: int| 0 <= i < seg.len() implies text.skip(k)[i] == seg[i] by {
                assert(rest.skip(k)[i] == rest[k + i]);
            }
        }
        assert forall|i: int| 0 <= i < last_segment(text).len() implies last_segment(text)[i]
            != '/' by {
            if i < seg.len() {
                assert(seg.contains(seg[i]));
            }
        }
    } else {
        assert(text.skip(text.len() as int) =~= Seq::empty());
    }
}

/// Takes what follows the last `/`.
pub fn last_segment_of(text: &str) -> (r: String)
    ensures
        r@ == last_segment(text@),
{
    let chars = chars_of(text);
    let mut from: usize = chars.len();
    assert(text@.take(text@.len() as int) =~= text@);
    assert(text@.subrange(text@.len() as int, text@.len() as int) =~= Seq::empty());
    while from > 0 && chars[from - 1] != '/'
        invariant
            chars@ == text@,
            from <= chars@.len(),
            last_segment(text@) =~= last_segment(text@.take(from as int)) + text@.subrange(
                from as int,
                text@.len() as int,
            ),
        decreases from,
    {
        assert(text@.take(from as int).drop_last() =~= text@.take(from - 1));
        from = from - 1;
    }
    assert(last_segment(text@.take(from as int)) =~= Seq::empty());
    text_between(&chars, from, chars.len())
}

/// What stands between the first and the second `separator`, or between the first and the
/// end; nothing, where the text holds no `separator`.
pub open spec fn second_part(text: Seq<char>, separator: char) -> Option<Seq<char>> {
    let first = position_of(text, separator, 0);
    if first == text.len() {
        None
    } else {
        Some(text.subrange(first + 1, position_of(text, separator, first + 1)))
    }
}

/// Takes the second of the parts that `separator` divides a text into.
pub fn second_part_of(text: &str, separator: char) -> (r: Option<String>)
    ensures
        r.deep_view() == second_part(text@, separator),
{
    let chars = chars_of(text);
    let first = find_char(&chars, separator, 0);
    if first == chars.len() {
        None
    } else {
        let second = find_char(&chars, separator, first + 1);
        Some(text_between(&chars, first + 1, second))
    }
}

/// What stands behind the first occurrence of `pattern`, up to the next one or the end;
/// nothing, where the text holds no `pattern`.
pub open spec fn part_behind(text: Seq<char>, pattern: Seq<char>) -> Option<Seq<char>> {
    match occurrence(text, pattern, 0) {
        None => None,
        Some(i) => {
            let from = i + pattern.len();
            match occurrence(text, pattern, from) {
                None => Some(text.subrange(from, text.len() as int)),
                Some(to) => Some(text.subrange(from, to)),
            }
        },
    }
}

/// Takes what stands behind the first occurrence of `pattern`.
pub fn part_behind_of(text: &str, pattern: &str) -> (r: Option<String>)
    ensures
        r.deep_view() == part_behind(text@, pattern@),
{
    let chars = chars_of(text);
    let wanted = chars_of(pattern);
    let length = chars.len();
    match find_text(&chars, &wanted, 0) {
        None => None,
        Some(i) => {
            let from = i + wanted.len();
            match find_text(&chars, &wanted, from) {
                None => Some(text_between(&chars, from, length)),
                Some(to) => Some(text_between(&chars, from, to)),
            }
        },
    }
}

/// A text without the white space at its beginning.
pub open spec fn trimmed_start(text: Seq<char>) -> Seq<char>
    decreases text.len(),
{
    if text.len() > 0 && white_space(text[0]) {
        trimmed_start(text.drop_first())
    } else {
        text
    }
}

/// A text without the white space at its end.
pub open spec fn trimmed_end(text: Seq<char>) -> Seq<char>
    decreases text.len(),
{
    if text.len() > 0 && white_space(text.last()) {
        trimmed_end(text.drop_last())
    } else {
        text
    }
}

/// A text without the white space at either end.
pub open spec fn trimmed(text: Seq<char>) -> Seq<char> {
    trimmed_end(trimmed_start(text))
}

fn trim_between(chars: &Vec<char>, start: usize, end: usize) -> (r: String)
    requires
        start <= end <= chars@.len(),
    ensures
        r@ == trimmed(chars@.subrange(start as int, end as int)),
{
    let ghost whole = chars@.subrange(start as int, end as int);
    let mut from: usize = start;
    assert(chars@.subrange(from as int, end as int) =~= whole);
    while from < end && is_white_space(chars[from])
        invariant
            start <= from <= end <= chars@.len(),
            trimmed_start(whole) == trimmed_start(chars@.subrange(from as int, end as int)),
        decreases end - from,
    {
        assert(chars@.subrange(from as int, end as int).drop_first() =~= chars@.subrange(
            from + 1,
            end as int,
        ));
        from = from + 1;
    }
    let ghost left = chars@.subrange(from as int, end as int);
    assert(trimmed_start(whole) == left);
    let mut to: usize = end;
    while to > from && is_white_space(chars[to - 1])
        invariant
            from <= to <= end <= chars@.len(),
            trimmed_end(left) == trimmed_end(chars@.subrange(from as int, to as int)),
        decreases to - from,
    {
        assert(chars@.subrange(from as int, to as int).drop_last() =~= chars@.subrange(
            from as int,
            to - 1,
        ));
        to = to - 1;
    }
    text_between(chars, from, to)
}

/// Takes a text without the white space at either end.
pub fn trim(text: &str) -> (r: String)
    ensures
        r@ == trimmed(text@),
{
    let chars = chars_of(text);
    assert(chars@.subrange(0, chars@.len() as int) =~= text@);
    trim_between(&chars, 0, chars.len())
}

/// The lines of a text that are not blank, each without the white space around it.
pub open spec fn entries(text: Seq<char>, from: int) -> Seq<Seq<char>>
    decreases text.len() + 1 - from,
{
    if from < 0 || from >= text.len() {
        Seq::empty()
    } else {
        let end = position_of(text, '\n', from);
        let line = trimmed(text.subrange(from, end));
        let rest = if from <= end < text.len() {
            entries(text, end + 1)
        } else {
            Seq::empty()
        };
        if line.len() == 0 {
            rest
        } else {
            seq![line] + rest
        }
    }
}

/// Reads one entry per line, passing over blank lines.
pub fn entries_of(text: &str) -> (r: Vec<String>)
    ensures
        r.deep_view() == entries(text@, 0),
{
    let chars = chars_of(text);
    let mut r: Vec<String> = Vec::new();
    let mut from: usize = 0;
    let mut more = chars.len() > 0;
    assert(r.deep_view() =~= Seq::empty());
    while more
        invariant
            chars@ == text@,
            from <= chars@.len(),
            more == (from < chars@.len()),
            r.deep_view() + entries(text@, from as int) =~= entries(text@, 0),
        decreases chars@.len() - from,
    {
        let end = find_char(&chars, '\n', from);
        let line = trim_between(&chars, from, end);
        let ghost before = r.deep_view();
        let ghost at = from as int;
        if !line.as_str().is_empty() {
            let ghost kept = line@;
            r.push(line);
            assert(r.deep_view() =~= before.push(kept));
            assert(before.push(kept) + entries(text@, end + 1) =~= before + (seq![kept] + entries(
                text@,
                end + 1,
            )));
        }
        if end < chars.len() {
            from = end + 1;
        } else {
            from = end;
        }
        more = from < chars.len();
    }
    assert(r.deep_view() + Seq::<Seq<char>>::empty() =~= r.deep_view());
    r
}

/// Tells whether a text begins with another.
pub fn has_prefix(text: &str, prefix: &str) -> (r: bool)
    ensures
        r == prefix@.is_prefix_of(text@),
{
    let chars = chars_of(text);
    let head = chars_of(prefix);
    if head.len() > chars.len() {
        return false;
    }
    let mut i: usize = 0;
    while i < head.len()
        invariant
            chars@ == text@,
            head@ == prefix@,
            i <= head@.len() <= chars@.len(),
            forall|j: int| 0 <= j < i ==> chars@[j] == #[trigger] head@[j],
        decreases head@.len() - i,
    {
        if chars[i] != head[i] {
            assert(text@.subrange(0, prefix@.len() as int)[i as int] != prefix@[i as int]);
            return false;
        }
        i = i + 1;
    }
    assert(text@.subrange(0, prefix@.len() as int) =~= prefix@);
    true
}

// ── Order ────────────────────────────────────────────────────────────────────

/// Whether one text comes no later than another in the order of their code points.
pub open spec fn in_order(a: Seq<char>, b: Seq<char>) -> bool
    decreases a.len(),
{
    if a.len() == 0 {
        true
    } else if b.len() == 0 {
        false
    } else if a[0] != b[0] {
        a[0] < b[0]
    } else {
        in_order(a.drop_first(), b.drop_first())
    }
}

/// Compares two texts in the order of their code points.
pub fn is_in_order(a: &str, b: &str) -> (r: bool)
    ensures
        r == in_order(a@, b@),
{
    let x = chars_of(a);
    let y = chars_of(b);
    let mut i: usize = 0;
    assert(a@.skip(0) =~= a@);
    assert(b@.skip(0) =~= b@);
    while i < x.len()
        invariant
            x@ == a@,
            y@ == b@,
            i <= x@.len(),
            i <= y@.len(),
            in_order(a@, b@) == in_order(a@.skip(i as int), b@.skip(i as int)),
        decreases x@.len() - i,
    {
        if i >= y.len() {
            return false;
        }
        if x[i] != y[i] {
            return x[i] < y[i];
        }
        assert(a@.skip(i as int).drop_first() =~= a@.skip(i + 1));
        assert(b@.skip(i as int).drop_first() =~= b@.skip(i + 1));
        i = i + 1;
    }
    true
}

/// The order of texts is total and transitive.
pub proof fn lemma_in_order(a: Seq<char>, b: Seq<char>, c: Seq<char>)
    ensures
        in_order(a, b) || in_order(b, a),
        in_order(a, b) && in_order(b, c) ==> in_order(a, c),
        in_order(a, b) && in_order(b, a) ==> a == b,
    decreases a.len() + b.len() + c.len(),
{
    if a.len() > 0 && b.len() > 0 {
        lemma_in_order(
            a.drop_first(),
            b.drop_first(),
            if c.len() > 0 {
                c.drop_first()
            } else {
                c
            },
        );
        if a[0] == b[0] && a.drop_first() == b.drop_first() {
            assert(a =~= seq![a[0]] + a.drop_first());
            assert(b =~= seq![b[0]] + b.drop_first());
        }
    } else if a.len() == 0 && b.len() == 0 {
        assert(a =~= b);
    }
}

} // verus!
