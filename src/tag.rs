//! The tag that marks the bridge's own messages, and how it is recognised and
//! removed.

use vstd::prelude::*;

use crate::text::{
    concat_str, has_prefix, is_white_space, split_once_char, str_eq, strip_prefix_str,
    trim_start_chars, trim_start_str,
};

verus! {

/// The tag put in front of every message the bridge writes.
pub const ROBIT_MESSAGE_PREFIX: &'static str = "[Robit] ";

/// The tag an earlier release put in front of its messages.
pub const ROBIT_MESSAGE_PREFIX_LEGACY: &'static str = "[Robit-LEGACY] ";

/// The characters of the current tag.
pub open spec fn prefix_chars() -> Seq<char> {
    seq!['[', 'R', 'o', 'b', 'i', 't', ']', ' ']
}

/// The characters of the legacy tag.
pub open spec fn legacy_prefix_chars() -> Seq<char> {
    seq!['[', 'R', 'o', 'b', 'i', 't', '-', 'L', 'E', 'G', 'A', 'C', 'Y', ']', ' ']
}

/// Whether a text, once its leading whitespace is gone, begins with either tag.
pub open spec fn is_tagged(text: Seq<char>) -> bool {
    let t = trim_start_chars(text);
    prefix_chars().is_prefix_of(t) || legacy_prefix_chars().is_prefix_of(t)
}

proof fn lemma_prefix_literals()
    ensures
        ROBIT_MESSAGE_PREFIX@ == prefix_chars(),
        ROBIT_MESSAGE_PREFIX_LEGACY@ == legacy_prefix_chars(),
{
    reveal_strlit("[Robit] ");
    reveal_strlit("[Robit-LEGACY] ");
    assert(ROBIT_MESSAGE_PREFIX@ =~= prefix_chars());
    assert(ROBIT_MESSAGE_PREFIX_LEGACY@ =~= legacy_prefix_chars());
}

/// Whether `text` was written by the bridge: after leading whitespace it
/// begins with the current or the legacy tag.
pub fn is_robit_message(text: &str) -> (r: bool)
    ensures
        r == is_tagged(text@),
{
    proof {
        lemma_prefix_literals();
    }
    let trimmed = trim_start_str(text);
    has_prefix(trimmed, ROBIT_MESSAGE_PREFIX) || has_prefix(trimmed, ROBIT_MESSAGE_PREFIX_LEGACY)
}

/// The characters of `s` after the first `c`; all of `s` when there is none.
pub open spec fn after_first(s: Seq<char>, c: char) -> Seq<char>
    decreases s.len(),
{
    if s.len() == 0 {
        s
    } else if s[0] == c {
        s.drop_first()
    } else {
        after_first(s.drop_first(), c)
    }
}

/// A bracketed kind tag at the start of `rest` is dropped, together with the
/// whitespace after it.
pub open spec fn strip_kind_chars(rest: Seq<char>) -> Seq<char> {
    if rest.len() > 0 && rest[0] == '[' && rest.contains(']') {
        trim_start_chars(after_first(rest, ']'))
    } else {
        rest
    }
}

/// What remains of a message once the bridge's tags are taken off.
pub open spec fn strip_tag_chars(text: Seq<char>) -> Seq<char> {
    let t = trim_start_chars(text);
    if prefix_chars().is_prefix_of(t) {
        strip_kind_chars(trim_start_chars(t.skip(prefix_chars().len() as int)))
    } else if legacy_prefix_chars().is_prefix_of(t) {
        strip_kind_chars(trim_start_chars(t.skip(legacy_prefix_chars().len() as int)))
    } else {
        t
    }
}

proof fn lemma_after_first_split(before: Seq<char>, c: char, after: Seq<char>)
    requires
        !before.contains(c),
    ensures
        after_first(before + seq![c] + after, c) == after,
    decreases before.len(),
{
    let s = before + seq![c] + after;
    if before.len() == 0 {
        assert(s.drop_first() =~= after);
    } else {
        assert(s[0] == before[0]);
        assert(before[0] != c);
        assert(!before.drop_first().contains(c)) by {
            if before.drop_first().contains(c) {
                let i = choose|i: int| 0 <= i < before.drop_first().len() && before.drop_first()[i] == c;
                assert(before[i + 1] == c);
            }
        }
        lemma_after_first_split(before.drop_first(), c, after);
        assert(s.drop_first() =~= before.drop_first() + seq![c] + after);
    }
}

/// What remains of `text` once its leading whitespace, the current or legacy
/// tag, and a bracketed kind tag such as `[result]` after it are removed,
/// together with the whitespace that follows each. A text without a tag only
/// loses its leading whitespace.
pub fn strip_robit_prefix(text: &str) -> (r: &str)
    ensures
        r@ == strip_tag_chars(text@),
{
    proof {
        lemma_prefix_literals();
        reveal_strlit("[");
    }
    let trimmed = trim_start_str(text);
    let rest = match strip_prefix_str(trimmed, ROBIT_MESSAGE_PREFIX) {
        Some(rest) => rest,
        None => match strip_prefix_str(trimmed, ROBIT_MESSAGE_PREFIX_LEGACY) {
            Some(rest) => rest,
            None => {
                return trimmed;
            },
        },
    };
    let rest = trim_start_str(rest);
    if has_prefix(rest, "[") {
        if let Some((before, after)) = split_once_char(rest, ']') {
            proof {
                assert(rest@.subrange(0, 1)[0] == rest@[0]);
                lemma_after_first_split(before@, ']', after@);
            }
            return trim_start_str(after);
        }
    }
    rest
}

/// The response kind that asks a person to approve an action.
pub const KIND_APPROVAL_REQUEST: &'static str = "approval_request";

/// The response kind that reports what an action did.
pub const KIND_ACTION_RESULT: &'static str = "action_result";

/// The response kind that reports a failure.
pub const KIND_ERROR: &'static str = "error";

/// The response kind that asks a person for more input.
pub const KIND_NEED_INPUT: &'static str = "need_input";

/// The bracketed tag for approval requests.
pub const TAG_APPROVAL: &'static str = "[approval] ";

/// The bracketed tag for action results.
pub const TAG_RESULT: &'static str = "[result] ";

/// The bracketed tag for errors.
pub const TAG_ERROR: &'static str = "[error] ";

/// The bracketed tag for requests for input.
pub const TAG_NEED: &'static str = "[need] ";

/// The bracketed tag that goes with a response kind; other kinds have none.
pub open spec fn kind_tag_chars(kind: Seq<char>) -> Seq<char> {
    if kind == KIND_APPROVAL_REQUEST@ {
        TAG_APPROVAL@
    } else if kind == KIND_ACTION_RESULT@ {
        TAG_RESULT@
    } else if kind == KIND_ERROR@ {
        TAG_ERROR@
    } else if kind == KIND_NEED_INPUT@ {
        TAG_NEED@
    } else {
        Seq::empty()
    }
}

/// The text the bridge sends for a response of the given kind: the current tag,
/// the kind's bracketed tag and the text, unless the text already begins with
/// the current tag, in which case it goes out as it is.
pub open spec fn tagged_text(kind: Seq<char>, text: Seq<char>) -> Seq<char> {
    if prefix_chars().is_prefix_of(text) {
        text
    } else {
        prefix_chars() + kind_tag_chars(kind) + text
    }
}

/// The bracketed tag for a response kind, or `""` for a kind without one.
pub fn kind_tag(kind: &str) -> (r: &'static str)
    ensures
        r@ == kind_tag_chars(kind@),
{
    if str_eq(kind, KIND_APPROVAL_REQUEST) {
        TAG_APPROVAL
    } else if str_eq(kind, KIND_ACTION_RESULT) {
        TAG_RESULT
    } else if str_eq(kind, KIND_ERROR) {
        TAG_ERROR
    } else if str_eq(kind, KIND_NEED_INPUT) {
        TAG_NEED
    } else {
        proof {
            reveal_strlit("");
            assert(""@ =~= Seq::<char>::empty());
        }
        ""
    }
}

/// Tags a response text for sending: see [`tagged_text`].
pub fn format_response_text(kind: &str, text: &str) -> (r: String)
    ensures
        r@ == tagged_text(kind@, text@),
        prefix_chars().is_prefix_of(text@) ==> r@ == text@,
{
    proof {
        lemma_prefix_literals();
    }
    if has_prefix(text, ROBIT_MESSAGE_PREFIX) {
        String::from_str(text)
    } else {
        let mut r = concat_str(ROBIT_MESSAGE_PREFIX, kind_tag(kind));
        r.append(text);
        r
    }
}

/// A kind tag that ends in `]` and a space, with no other `]`.
spec fn is_bracket_tag(k: Seq<char>) -> bool {
    &&& k.len() >= 2
    &&& k[0] == '['
    &&& k[k.len() - 2] == ']'
    &&& k[k.len() - 1] == ' '
    &&& !k.take(k.len() - 2).contains(']')
}

proof fn lemma_kind_tags_are_bracketed(kind: Seq<char>)
    ensures
        kind_tag_chars(kind).len() == 0 || is_bracket_tag(kind_tag_chars(kind)),
{
    reveal_strlit("[approval] ");
    reveal_strlit("[result] ");
    reveal_strlit("[error] ");
    reveal_strlit("[need] ");
    let a = TAG_APPROVAL@;
    assert(a.take(a.len() - 2) =~= seq!['[', 'a', 'p', 'p', 'r', 'o', 'v', 'a', 'l']);
    let b = TAG_RESULT@;
    assert(b.take(b.len() - 2) =~= seq!['[', 'r', 'e', 's', 'u', 'l', 't']);
    let c = TAG_ERROR@;
    assert(c.take(c.len() - 2) =~= seq!['[', 'e', 'r', 'r', 'o', 'r']);
    let d = TAG_NEED@;
    assert(d.take(d.len() - 2) =~= seq!['[', 'n', 'e', 'e', 'd']);
}

proof fn lemma_trim_start_noop(s: Seq<char>)
    requires
        s.len() > 0 ==> !is_white_space(s[0]),
    ensures
        trim_start_chars(s) == s,
{
}

proof fn lemma_trim_start_space(s: Seq<char>)
    ensures
        trim_start_chars(seq![' '] + s) == trim_start_chars(s),
{
    let t = seq![' '] + s;
    assert(is_white_space(t[0]));
    assert(t.drop_first() =~= s);
}

/// Tagging a response text and then stripping the tags gives the text back.
/// This holds for any text that does not begin with whitespace or with the
/// current tag and that, where the kind carries no bracketed tag, does not
/// open with a bracketed segment that the stripping would take for one.
pub proof fn lemma_strip_inverts_tagging(kind: Seq<char>, text: Seq<char>)
    requires
        !prefix_chars().is_prefix_of(text),
        text.len() > 0 ==> !is_white_space(text[0]),
        kind_tag_chars(kind).len() == 0 ==> !(text.len() > 0 && text[0] == '[' && text.contains(
            ']',
        )),
    ensures
        strip_tag_chars(tagged_text(kind, text)) == text,
{
    let k = kind_tag_chars(kind);
    let p = prefix_chars();
    let t = p + k + text;
    assert(tagged_text(kind, text) == t);
    lemma_trim_start_noop(t);
    assert(p.is_prefix_of(t)) by {
        assert(t.subrange(0, p.len() as int) =~= p);
    }
    let rest = t.skip(p.len() as int);
    assert(rest =~= k + text);
    lemma_kind_tags_are_bracketed(kind);
    lemma_trim_start_noop(text);
    if k.len() == 0 {
        assert(rest =~= text);
    } else {
        lemma_trim_start_noop(rest);
        let before = k.take(k.len() - 2);
        assert(rest =~= before + seq![']'] + (seq![' '] + text));
        assert(rest.contains(']')) by {
            assert(rest[k.len() - 2] == ']');
        }
        lemma_after_first_split(before, ']', seq![' '] + text);
        lemma_trim_start_space(text);
    }
}

/// Stripping leaves a text without a tag as it is, provided it does not begin
/// with whitespace (which stripping always removes).
pub proof fn lemma_strip_untagged(text: Seq<char>)
    requires
        !is_tagged(text),
        text.len() > 0 ==> !is_white_space(text[0]),
    ensures
        strip_tag_chars(text) == text,
{
    lemma_trim_start_noop(text);
}

} // verus!
