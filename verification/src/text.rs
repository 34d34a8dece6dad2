//! Small helpers for texts.

use vstd::prelude::*;
use vstd::string::*;

verus! {

/// The mathematical value of an optional text.
pub open spec fn text_view(text: Option<String>) -> Option<Seq<char>> {
    match text {
        Some(text) => Some(text@),
        None => None,
    }
}

/// The mathematical value of an optional borrowed text.
pub open spec fn slice_view(text: Option<&str>) -> Option<Seq<char>> {
    match text {
        Some(text) => Some(text@),
        None => None,
    }
}

/// Whether two texts are the same text.
pub fn same_text(left: &str, right: &str) -> (same: bool)
    ensures
        same == (left@ == right@),
{
    left.to_owned() == right.to_owned()
}

/// The rest of a text after a prefix, if the text starts with it.
pub fn strip_prefix<'a>(text: &'a str, prefix: &str) -> (rest: Option<&'a str>)
    ensures
        match rest {
            Some(rest) => text@ == prefix@ + rest@,
            None => !prefix@.is_prefix_of(text@),
        },
{
    let wanted = prefix.unicode_len();
    let given = text.unicode_len();
    if given < wanted {
        return None;
    }
    let mut i: usize = 0;
    while i < wanted
        invariant
            i <= wanted,
            wanted == prefix@.len(),
            given == text@.len(),
            wanted <= given,
            forall|j: int| 0 <= j < i ==> text@[j] == prefix@[j],
        decreases wanted - i,
    {
        if text.get_char(i) != prefix.get_char(i) {
            return None;
        }
        i += 1;
    }
    let rest = text.substring_char(wanted, given);
    assert(text@ =~= prefix@ + rest@);
    Some(rest)
}

/// Whether a character is white space, as `char::is_whitespace` says: the
/// characters with the Unicode property `White_Space`. `str::trim` goes by
/// it.
pub uninterp spec fn white_space(c: char) -> bool;

/// A text without the white space that it begins with.
pub open spec fn trimmed_start(text: Seq<char>) -> Seq<char>
    decreases text.len(),
{
    if text.len() > 0 && white_space(text[0]) {
        trimmed_start(text.drop_first())
    } else {
        text
    }
}

/// A text without the white space that it ends with.
pub open spec fn trimmed_end(text: Seq<char>) -> Seq<char>
    decreases text.len(),
{
    if text.len() > 0 && white_space(text.last()) {
        trimmed_end(text.drop_last())
    } else {
        text
    }
}

/// A text without the white space at either end.
pub open spec fn trimmed(text: Seq<char>) -> Seq<char> {
    trimmed_end(trimmed_start(text))
}

/// A text is bare when it is not empty and has no white space at either
/// end.
pub open spec fn bare(text: Seq<char>) -> bool {
    text.len() > 0 && !white_space(text[0]) && !white_space(text.last())
}

/// Trimming leaves a bare text as it is.
pub proof fn lemma_bare_text_is_trimmed(text: Seq<char>)
    requires
        bare(text),
    ensures
        trimmed(text) == text,
{
}

/// What is left after trimming is empty or bare.
pub proof fn lemma_trimmed_is_empty_or_bare(text: Seq<char>)
    ensures
        trimmed(text).len() == 0 || bare(trimmed(text)),
{
    lemma_trimmed_start(text);
    lemma_trimmed_end(trimmed_start(text));
}

/// What is left after trimming the start is the end of the text, and does
/// not begin with white space.
pub proof fn lemma_trimmed_start(text: Seq<char>)
    ensures
        trimmed_start(text).len() <= text.len(),
        trimmed_start(text) == text.skip(text.len() - trimmed_start(text).len()),
        trimmed_start(text).len() > 0 ==> !white_space(trimmed_start(text)[0]),
    decreases text.len(),
{
    if text.len() > 0 && white_space(text[0]) {
        let rest = text.drop_first();
        lemma_trimmed_start(rest);
        let kept = trimmed_start(rest).len();
        assert(rest.skip(rest.len() - kept) =~= text.skip(text.len() - kept));
    } else {
        assert(text.skip(0) =~= text);
    }
}

/// What is left after trimming the end is the start of the text, and does
/// not end with white space; what it begins with, it began with before.
pub proof fn lemma_trimmed_end(text: Seq<char>)
    ensures
        trimmed_end(text).len() <= text.len(),
        trimmed_end(text) == text.take(trimmed_end(text).len() as int),
        trimmed_end(text).len() > 0 ==> !white_space(trimmed_end(text).last()),
        trimmed_end(text).len() > 0 ==> trimmed_end(text)[0] == text[0],
    decreases text.len(),
{
    if text.len() > 0 && white_space(text.last()) {
        let rest = text.drop_last();
        lemma_trimmed_end(rest);
        let kept = trimmed_end(rest).len() as int;
        assert(rest.take(kept) =~= text.take(kept));
    } else {
        assert(text.take(text.len() as int) =~= text);
    }
}

/// `str::trim`: the text without its leading and trailing white space,
/// where white space is what `char::is_whitespace` says it is. The result
/// depends on the text alone; where it is not empty, it is bare.
#[verifier::external_body]
pub(crate) fn trim(text: &str) -> (inner: &str)
    ensures
        inner@ == trimmed(text@),
        inner@.len() > 0 ==> !white_space(inner@[0]) && !white_space(inner@.last()),
{
    text.trim()
}

} // verus!
