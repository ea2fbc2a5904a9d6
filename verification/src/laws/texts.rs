//! Texts: numbers, white space, lines, parts and order.

use crate::auth::{origin, token_nonce};
use crate::outside::{base64url_bytes, json_string, white_space};
use crate::text::{
    decimal, entries, in_order, occurrence, occurs_at, part_behind, position_of, second_part,
    trimmed, trimmed_end, trimmed_start,
};
use vstd::prelude::*;

verus! {

// ── Numbers ──────────────────────────────────────────────────────────────────

/// The number that a row of decimal digits spells.
pub open spec fn spelled(text: Seq<char>) -> int
    decreases text.len(),
{
    if text.len() == 0 {
        0
    } else {
        spelled(text.drop_last()) * 10 + (text.last() as int - '0' as int)
    }
}

/// A number is written in decimal digits that spell it, without a zero in front.
pub proof fn lemma_numbers_are_spelled_in_digits(n: nat)
    ensures
        spelled(decimal(n)) == n,
        decimal(n).len() > 0,
        forall|i: int|
            0 <= i < decimal(n).len() ==> '0' <= (#[trigger] decimal(n)[i]) && decimal(n)[i] <= '9',
        decimal(n).len() > 1 ==> decimal(n)[0] != '0',
    decreases n,
{
    reveal_with_fuel(spelled, 2);
    if n < 10 {
        assert(decimal(n).drop_last() =~= Seq::empty());
    } else {
        let front = decimal(n / 10);
        lemma_numbers_are_spelled_in_digits(n / 10);
        assert(decimal(n).drop_last() =~= front);
        if front.len() == 1 {
            assert(front[0] as int - 48 == spelled(front)) by {
                assert(front.drop_last() =~= Seq::empty());
            }
        }
    }
}

// ── White space ──────────────────────────────────────────────────────────────

/// A text holds nothing but white space.
pub open spec fn is_blank(text: Seq<char>) -> bool {
    forall|i: int| 0 <= i < text.len() ==> white_space(#[trigger] text[i])
}

proof fn lemma_trimmed_start(text: Seq<char>) -> (a: Seq<char>)
    ensures
        is_blank(a),
        text == a + trimmed_start(text),
        trimmed_start(text).len() > 0 ==> !white_space(trimmed_start(text)[0]),
    decreases text.len(),
{
    if text.len() > 0 && white_space(text[0]) {
        let a = lemma_trimmed_start(text.drop_first());
        let all = seq![text[0]] + a;
        let kept = trimmed_start(text);
        assert(text =~= seq![text[0]] + text.drop_first());
        assert(text.drop_first() =~= a + kept);
        assert(seq![text[0]] + (a + kept) =~= all + kept);
        assert forall|i: int| 0 <= i < all.len() implies white_space(#[trigger] all[i]) by {
            if i > 0 {
                assert(all[i] == a[i - 1]);
            }
        }
        all
    } else {
        assert(text =~= Seq::empty() + trimmed_start(text));
        Seq::empty()
    }
}

proof fn lemma_trimmed_end(text: Seq<char>) -> (b: Seq<char>)
    ensures
        is_blank(b),
        text == trimmed_end(text) + b,
        trimmed_end(text).len() > 0 ==> !white_space(trimmed_end(text).last()),
        trimmed_end(text).len() > 0 ==> trimmed_end(text)[0] == text[0],
    decreases text.len(),
{
    if text.len() > 0 && white_space(text.last()) {
        let b = lemma_trimmed_end(text.drop_last());
        let all = b.push(text.last());
        let kept = trimmed_end(text);
        assert(text =~= text.drop_last().push(text.last()));
        assert(text.drop_last() =~= kept + b);
        assert((kept + b).push(text.last()) =~= kept + all);
        assert forall|i: int| 0 <= i < all.len() implies white_space(#[trigger] all[i]) by {
            if i < b.len() {
                assert(all[i] == b[i]);
            }
        }
        all
    } else {
        assert(text =~= trimmed_end(text) + Seq::empty());
        Seq::empty()
    }
}

/// What is cut off a text at either end is white space, and what is left begins and ends with
/// something else.
pub proof fn lemma_only_white_space_is_cut_off(text: Seq<char>)
    ensures
        exists|a: Seq<char>, b: Seq<char>|
            is_blank(a) && is_blank(b) && text == #[trigger] (a + trimmed(text) + b),
        trimmed(text).len() > 0 ==> !white_space(trimmed(text)[0]) && !white_space(
            trimmed(text).last(),
        ),
        is_blank(text) == (trimmed(text).len() == 0),
{
    let a = lemma_trimmed_start(text);
    let b = lemma_trimmed_end(trimmed_start(text));
    assert(text =~= a + trimmed(text) + b);
    if trimmed(text).len() == 0 {
        assert forall|i: int| 0 <= i < text.len() implies white_space(#[trigger] text[i]) by {
            if i < a.len() {
                assert(text[i] == a[i]);
            } else {
                assert(text[i] == b[i - a.len()]);
            }
        }
    } else {
        assert(text[a.len() as int] == trimmed(text)[0]);
    }
}

// ── Lines ────────────────────────────────────────────────────────────────────

proof fn lemma_position_of(text: Seq<char>, c: char, from: int, at: int)
    requires
        0 <= from <= at <= text.len(),
        forall|i: int| from <= i < at ==> (#[trigger] text[i]) != c,
        at < text.len() ==> text[at] == c,
    ensures
        position_of(text, c, from) == at,
    decreases at - from,
{
    if from < at {
        assert(text[from] != c);
        lemma_position_of(text, c, from + 1, at);
    }
}

proof fn lemma_position_shifts(a: Seq<char>, text: Seq<char>, c: char, from: int)
    requires
        0 <= from <= text.len(),
    ensures
        position_of(a + text, c, a.len() + from) == a.len() + position_of(text, c, from),
        from <= position_of(text, c, from) <= text.len(),
    decreases text.len() - from,
{
    if from < text.len() {
        assert((a + text)[a.len() + from] == text[from]);
        if text[from] != c {
            lemma_position_shifts(a, text, c, from + 1);
        }
    }
}

proof fn lemma_entries_shift(a: Seq<char>, text: Seq<char>, from: int)
    requires
        0 <= from <= text.len(),
    ensures
        entries(a + text, a.len() + from) == entries(text, from),
    decreases text.len() - from,
{
    if from < text.len() {
        let end = position_of(text, '\n', from);
        lemma_position_shifts(a, text, '\n', from);
        assert((a + text).subrange(a.len() + from, a.len() + end) =~= text.subrange(from, end));
        if end < text.len() {
            lemma_entries_shift(a, text, end + 1);
        }
    }
}

/// A text is read line by line: each line that is not blank is an entry, without the white
/// space around it, and they keep their order.
pub proof fn lemma_every_line_is_an_entry(line: Seq<char>, rest: Seq<char>)
    requires
        forall|i: int| 0 <= i < line.len() ==> (#[trigger] line[i]) != '\n',
    ensures
        ({
            let first = if is_blank(line) {
                Seq::empty()
            } else {
                seq![trimmed(line)]
            };
            &&& entries(line, 0) == first
            &&& entries(line.push('\n') + rest, 0) == first + entries(rest, 0)
        }),
{
    lemma_only_white_space_is_cut_off(line);
    let n = line.len() as int;
    if n > 0 {
        lemma_position_of(line, '\n', 0, n);
        assert(line.subrange(0, n) =~= line);
    } else {
        assert(is_blank(line));
    }
    let text = line.push('\n') + rest;
    assert forall|i: int| 0 <= i < n implies (#[trigger] text[i]) != '\n' by {
        assert(text[i] == line[i]);
    }
    lemma_position_of(text, '\n', 0, n);
    assert(text.subrange(0, n) =~= line);
    lemma_entries_shift(line.push('\n'), rest, 0);
    let first = if is_blank(line) {
        Seq::empty()
    } else {
        seq![trimmed(line)]
    };
    assert(entries(text, 0) =~= first + entries(rest, 0));
}

// ── Parts ────────────────────────────────────────────────────────────────────

/// Whether a pattern stands in a text at a place.
pub open spec fn stands_at(text: Seq<char>, pattern: Seq<char>, at: int) -> bool {
    &&& 0 <= at
    &&& at + pattern.len() <= text.len()
    &&& forall|i: int| 0 <= i < pattern.len() ==> text[at + i] == #[trigger] pattern[i]
}

proof fn lemma_stands_at(text: Seq<char>, pattern: Seq<char>, at: int)
    ensures
        stands_at(text, pattern, at) == occurs_at(text, pattern, at),
{
    if 0 <= at && at + pattern.len() <= text.len() {
        let part = text.subrange(at, at + pattern.len());
        if stands_at(text, pattern, at) {
            assert(part =~= pattern);
        }
        if part == pattern {
            assert forall|i: int| 0 <= i < pattern.len() implies text[at + i]
                == #[trigger] pattern[i] by {
                assert(part[i] == text[at + i]);
            }
        }
    }
}

proof fn lemma_occurrence(text: Seq<char>, pattern: Seq<char>, from: int, at: int)
    requires
        0 <= from <= at <= text.len(),
        stands_at(text, pattern, at),
        forall|i: int| from <= i < at ==> !#[trigger] stands_at(text, pattern, i),
    ensures
        occurrence(text, pattern, from) == Some(at),
    decreases at - from,
{
    lemma_stands_at(text, pattern, from);
    if from < at {
        assert(!stands_at(text, pattern, from));
        lemma_occurrence(text, pattern, from + 1, at);
    }
}

proof fn lemma_no_occurrence(text: Seq<char>, pattern: Seq<char>, from: int)
    requires
        0 <= from,
        forall|i: int| from <= i <= text.len() ==> !#[trigger] stands_at(text, pattern, i),
    ensures
        occurrence(text, pattern, from) is None,
    decreases text.len() + 1 - from,
{
    lemma_stands_at(text, pattern, from);
    if from <= text.len() {
        assert(!stands_at(text, pattern, from));
        lemma_no_occurrence(text, pattern, from + 1);
    }
}

/// What stands behind the one place at which a pattern stands in a text is found there; where
/// it stands nowhere, nothing is.
pub proof fn lemma_the_part_behind_a_pattern(text: Seq<char>, pattern: Seq<char>, at: int)
    requires
        pattern.len() > 0,
    ensures
        stands_at(text, pattern, at) && (forall|i: int|
            i != at ==> !#[trigger] stands_at(text, pattern, i)) ==> part_behind(text, pattern)
            == Some(text.skip(at + pattern.len())),
        (forall|i: int| !#[trigger] stands_at(text, pattern, i)) ==> part_behind(
            text,
            pattern,
        ) is None,
{
    if stands_at(text, pattern, at) && (forall|i: int|
        i != at ==> !#[trigger] stands_at(text, pattern, i)) {
        lemma_occurrence(text, pattern, 0, at);
        lemma_no_occurrence(text, pattern, at + pattern.len());
        assert(text.subrange(at + pattern.len(), text.len() as int) =~= text.skip(
            at + pattern.len(),
        ));
    }
    if forall|i: int| !#[trigger] stands_at(text, pattern, i) {
        lemma_no_occurrence(text, pattern, 0);
    }
}

/// The nonce of an ID token is the text that the claims in its second part hold, between the
/// first two dots.
pub proof fn lemma_the_nonce_is_in_the_second_part(
    header: Seq<char>,
    payload: Seq<char>,
    signature: Seq<char>,
)
    requires
        forall|i: int| 0 <= i < header.len() ==> (#[trigger] header[i]) != '.',
        forall|i: int| 0 <= i < payload.len() ==> (#[trigger] payload[i]) != '.',
    ensures
        token_nonce(header.push('.') + payload.push('.') + signature) == (match base64url_bytes(
            payload,
        ) {
            Some(json) => json_string(json, "nonce"@),
            None => None,
        }),
        token_nonce(header) is None,
{
    let token = header.push('.') + payload.push('.') + signature;
    let n = header.len() as int;
    let m = n + 1 + payload.len();
    assert forall|i: int| 0 <= i < n implies (#[trigger] token[i]) != '.' by {
        assert(token[i] == header[i]);
    }
    assert forall|i: int| n + 1 <= i < m implies (#[trigger] token[i]) != '.' by {
        assert(token[i] == payload[i - n - 1]);
    }
    assert(token[n] == '.');
    assert(token[m] == '.');
    lemma_position_of(token, '.', 0, n);
    lemma_position_of(token, '.', n + 1, m);
    assert(token.subrange(n + 1, m) =~= payload);
    lemma_position_of(header, '.', 0, n);
}

/// An address without its path is the scheme and the host.
pub proof fn lemma_the_origin_of_an_address(scheme: Seq<char>, host: Seq<char>, path: Seq<char>)
    requires
        forall|i: int| 0 <= i < scheme.len() ==> (#[trigger] scheme[i]) != ':',
        forall|i: int| 0 <= i < host.len() ==> (#[trigger] host[i]) != '/',
        path.len() > 0 ==> path[0] == '/',
    ensures
        origin(scheme + "://"@ + host + path) == scheme + "://"@ + host,
{
    reveal_strlit("://");
    let address = scheme + "://"@ + host + path;
    let n = scheme.len() as int;
    let end = n + 3 + host.len();
    assert(stands_at(address, "://"@, n));
    assert forall|i: int| 0 <= i < n implies !#[trigger] stands_at(address, "://"@, i) by {
        assert(address[i] == scheme[i]);
        if stands_at(address, "://"@, i) {
            assert("://"@[0] == ':');
            assert(address[i + 0] == "://"@[0]);
        }
    }
    lemma_occurrence(address, "://"@, 0, n);
    assert forall|i: int| n + 3 <= i < end implies (#[trigger] address[i]) != '/' by {
        assert(address[i] == host[i - n - 3]);
    }
    if path.len() > 0 {
        assert(address[end] == path[0]);
    }
    lemma_position_of(address, '/', n + 3, end);
    if path.len() > 0 {
        assert(address.take(end) =~= scheme + "://"@ + host);
    } else {
        assert(address =~= scheme + "://"@ + host);
    }
}

// ── Order ────────────────────────────────────────────────────────────────────

/// Texts are ordered by the first character in which they differ; one that the other begins
/// with comes first.
pub proof fn lemma_texts_are_ordered_by_their_first_difference(
    common: Seq<char>,
    x: char,
    a: Seq<char>,
    y: char,
    b: Seq<char>,
)
    requires
        x < y,
    ensures
        in_order(common.push(x) + a, common.push(y) + b),
        !in_order(common.push(y) + b, common.push(x) + a),
        in_order(common, common + b),
        b.len() > 0 ==> !in_order(common + b, common),
    decreases common.len(),
{
    let left = common.push(x) + a;
    let right = common.push(y) + b;
    if common.len() == 0 {
        assert(left[0] == x);
        assert(right[0] == y);
    } else {
        let rest = common.drop_first();
        assert(left[0] == common[0]);
        assert(right[0] == common[0]);
        assert(left.drop_first() =~= rest.push(x) + a);
        assert(right.drop_first() =~= rest.push(y) + b);
        assert((common + b)[0] == common[0]);
        assert((common + b).drop_first() =~= rest + b);
        lemma_texts_are_ordered_by_their_first_difference(rest, x, a, y, b);
    }
}

} // verus!
