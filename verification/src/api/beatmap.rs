//! Beatmap requests: whether a chat message names an osu! beatmap.
//!
//! A message names a beatmap when it holds a beatmap link: `osu.ppy.sh/b/` or
//! `osu.ppy.sh/beatmaps/` followed by the beatmap ID, or the `#osu/`,
//! `#taiko/`, `#fruits/` or `#mania/` part of a `beatmapsets` link followed by
//! the beatmap ID. An ID starts with a decimal digit.

use vstd::prelude::*;
use vstd::string::StrSliceExecFns;

verus! {

/// Whether `c` is a decimal digit.
pub open spec fn is_digit(c: char) -> bool {
    '0' <= c && c <= '9'
}

/// Whether `pattern` stands in `text` at position `i` with a digit right after
/// it.
pub open spec fn anchored_digit_at(text: Seq<char>, pattern: Seq<char>, i: int) -> bool {
    &&& 0 <= i
    &&& i + pattern.len() < text.len()
    &&& text.subrange(i, i + pattern.len()) == pattern
    &&& is_digit(text[i + pattern.len()])
}

/// Whether `pattern` stands somewhere in `text` with a digit right after it.
pub open spec fn has_anchored_digit(text: Seq<char>, pattern: Seq<char>) -> bool {
    exists|i: int| anchored_digit_at(text, pattern, i)
}

/// Whether a message's text holds a beatmap ID (see the module's doc).
pub open spec fn holds_beatmap_id(text: Seq<char>) -> bool {
    ||| has_anchored_digit(text, "osu.ppy.sh/b/"@)
    ||| has_anchored_digit(text, "osu.ppy.sh/beatmaps/"@)
    ||| has_anchored_digit(text, "#osu/"@)
    ||| has_anchored_digit(text, "#taiko/"@)
    ||| has_anchored_digit(text, "#fruits/"@)
    ||| has_anchored_digit(text, "#mania/"@)
}

/// Whether `pattern` is one of the anchors that introduce a beatmap ID.
pub open spec fn is_beatmap_anchor(pattern: Seq<char>) -> bool {
    ||| pattern == "osu.ppy.sh/b/"@
    ||| pattern == "osu.ppy.sh/beatmaps/"@
    ||| pattern == "#osu/"@
    ||| pattern == "#taiko/"@
    ||| pattern == "#fruits/"@
    ||| pattern == "#mania/"@
}

/// Law: a beatmap link is seen wherever it stands in a message: any text
/// before it and after it, an anchor, and an ID that starts with a digit make
/// a message that holds a beatmap ID.
pub proof fn lemma_link_anywhere(before: Seq<char>, anchor: Seq<char>, id: Seq<char>, after: Seq<char>)
    requires
        is_beatmap_anchor(anchor),
        id.len() > 0,
        is_digit(id[0]),
    ensures
        holds_beatmap_id(before + anchor + id + after),
{
    let text = before + anchor + id + after;
    let i = before.len() as int;
    assert(text.subrange(i, i + anchor.len()) =~= anchor);
    assert(text[i + anchor.len()] == id[0]);
    assert(anchored_digit_at(text, anchor, i));
}

/// Law: text written before a message never hides its beatmap ID, and neither
/// does text written after it.
pub proof fn lemma_surrounding_text_keeps_id(before: Seq<char>, text: Seq<char>, after: Seq<char>)
    requires
        holds_beatmap_id(text),
    ensures
        holds_beatmap_id(before + text + after),
{
    let whole = before + text + after;
    assert forall|pattern: Seq<char>| has_anchored_digit(text, pattern) implies has_anchored_digit(
        whole,
        pattern,
    ) by {
        let i = choose|i: int| anchored_digit_at(text, pattern, i);
        let j = before.len() + i;
        assert(whole.subrange(j, j + pattern.len()) =~= text.subrange(i, i + pattern.len()));
        assert(whole[j + pattern.len()] == text[i + pattern.len()]);
        assert(anchored_digit_at(whole, pattern, j));
    }
}

/// The characters of a string, in order.
fn chars_of(s: &str) -> (chars: Vec<char>)
    ensures
        chars@ == s@,
{
    let n = s.unicode_len();
    let mut chars: Vec<char> = Vec::new();
    let mut i: usize = 0;
    while i < n
        invariant
            n == s@.len(),
            i <= n,
            chars@ == s@.take(i as int),
        decreases n - i,
    {
        chars.push(s.get_char(i));
        assert(s@.take(i + 1) == s@.take(i as int).push(s@[i as int]));
        i = i + 1;
    }
    assert(s@.take(n as int) == s@);
    chars
}

/// Whether `pattern` stands in `text` at position `i` with a digit right after
/// it (see `anchored_digit_at`).
fn anchored_digit_at_exec(text: &Vec<char>, pattern: &Vec<char>, i: usize) -> (found: bool)
    ensures
        found == anchored_digit_at(text@, pattern@, i as int),
{
    if i >= text.len() || pattern.len() >= text.len() - i {
        return false;
    }
    let mut j: usize = 0;
    while j < pattern.len()
        invariant
            i + pattern.len() < text.len(),
            j <= pattern.len(),
            text@.subrange(i as int, i + j) == pattern@.take(j as int),
        decreases pattern.len() - j,
    {
        if text[i + j] != pattern[j] {
            assert(text@.subrange(i as int, i + pattern.len())[j as int] != pattern@[j as int]);
            return false;
        }
        assert(text@.subrange(i as int, i + j + 1) == text@.subrange(i as int, i + j).push(
            text@[i + j],
        ));
        assert(pattern@.take(j + 1) == pattern@.take(j as int).push(pattern@[j as int]));
        j = j + 1;
    }
    assert(pattern@.take(pattern.len() as int) == pattern@);
    let c = text[i + pattern.len()];
    '0' <= c && c <= '9'
}

/// Whether `pattern` stands somewhere in `text` with a digit right after it
/// (see `has_anchored_digit`).
fn has_anchored_digit_exec(text: &Vec<char>, pattern: &str) -> (found: bool)
    ensures
        found == has_anchored_digit(text@, pattern@),
{
    let pattern_chars = chars_of(pattern);
    let mut i: usize = 0;
    while i < text.len()
        invariant
            pattern_chars@ == pattern@,
            i <= text.len(),
            forall|k: int| 0 <= k < i ==> !anchored_digit_at(text@, pattern@, k),
        decreases text.len() - i,
    {
        if anchored_digit_at_exec(text, &pattern_chars, i) {
            return true;
        }
        i = i + 1;
    }
    assert forall|k: int| !anchored_digit_at(text@, pattern@, k) by {
        if 0 <= k < i {
        }
    }
    false
}

/// Whether a message's text holds a beatmap ID (see `holds_beatmap_id`).
pub fn has_beatmap_id(text: &str) -> (found: bool)
    ensures
        found == holds_beatmap_id(text@),
{
    let chars = chars_of(text);
    has_anchored_digit_exec(&chars, "osu.ppy.sh/b/") || has_anchored_digit_exec(
        &chars,
        "osu.ppy.sh/beatmaps/",
    ) || has_anchored_digit_exec(&chars, "#osu/") || has_anchored_digit_exec(&chars, "#taiko/")
        || has_anchored_digit_exec(&chars, "#fruits/") || has_anchored_digit_exec(
        &chars,
        "#mania/",
    )
}

} // verus!
