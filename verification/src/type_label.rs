//! The label shown for a type: the type as written, on one line, with the
//! whitespace between its tokens reduced to what reading needs.

use crate::text::{
    char_is_ascii_punctuation, char_is_whitespace, chars_of, is_ascii_punctuation, is_trimmed,
    is_whitespace, lemma_trim_is_trimmed, lemma_trim_length, lemma_trim_of_trimmed, push_char, trim,
    trim_bounds,
};
use vstd::prelude::*;

verus! {

/// The arrow `->` stands at `k`.
pub open spec fn arrow_at(s: Seq<char>, k: int) -> bool {
    0 <= k && k + 1 < s.len() && s[k] == '-' && s[k + 1] == '>'
}

/// The character at `i` is held in place by what stands next to it: it follows
/// `,` or `;`, or an arrow ends right before it or starts right after it.
pub open spec fn anchored(s: Seq<char>, i: int) -> bool {
    s[i - 1] == ';' || s[i - 1] == ',' || arrow_at(s, i - 2) || arrow_at(s, i + 1)
}

/// The character at `i` is whitespace that the label leaves out: whitespace with
/// punctuation on either side that nothing holds in place.
pub open spec fn removable(s: Seq<char>, i: int) -> bool {
    &&& 0 < i < s.len() - 1
    &&& is_whitespace(s[i])
    &&& is_ascii_punctuation(s[i - 1]) || is_ascii_punctuation(s[i + 1])
    &&& !anchored(s, i)
}

/// The first `n` characters of `s` without the removable ones.
pub open spec fn compact_prefix(s: Seq<char>, n: int) -> Seq<char>
    decreases n,
{
    if n <= 0 {
        Seq::empty()
    } else if removable(s, n - 1) {
        compact_prefix(s, n - 1)
    } else {
        compact_prefix(s, n - 1).push(s[n - 1])
    }
}

/// `s` without its removable characters.
pub open spec fn compact(s: Seq<char>) -> Seq<char> {
    compact_prefix(s, s.len() as int)
}

/// The label for a type whose tokens print as `tokens`.
pub open spec fn type_label(tokens: Seq<char>) -> Seq<char> {
    compact(trim(tokens))
}

/// Whitespace that is kept for standing between two words has no removable
/// whitespace next to it.
pub open spec fn steady(s: Seq<char>) -> bool {
    forall|i: int|
        0 < i < s.len() - 1 && is_whitespace(#[trigger] s[i]) && !removable(s, i) && !anchored(s, i)
            ==> !removable(s, i - 1) && !removable(s, i + 1)
}

/// No two whitespace characters stand side by side: the way token printers
/// space their output.
pub open spec fn single_spaced(s: Seq<char>) -> bool {
    forall|i: int|
        0 <= i && i + 1 < s.len() && is_whitespace(#[trigger] s[i]) ==> !is_whitespace(s[i + 1])
}

/// Single-spaced text is steady.
pub proof fn lemma_single_spaced_is_steady(s: Seq<char>)
    requires
        single_spaced(s),
    ensures
        steady(s),
{
    assert forall|i: int|
        0 < i < s.len() - 1 && is_whitespace(#[trigger] s[i]) && !removable(s, i) && !anchored(
            s,
            i,
        ) implies !removable(s, i - 1) && !removable(s, i + 1) by {}
}

/// No character of `s` is removable.
pub open spec fn settled(s: Seq<char>) -> bool {
    forall|i: int| 0 <= i < s.len() ==> !removable(s, i)
}

/// A character that is kept stands in the compacted text right after the kept
/// characters before it.
proof fn lemma_kept_position(s: Seq<char>, i: int, n: int)
    requires
        0 <= i < n <= s.len(),
        !removable(s, i),
    ensures
        compact_prefix(s, i).len() < compact_prefix(s, n).len(),
        compact_prefix(s, n)[compact_prefix(s, i).len() as int] == s[i],
    decreases n,
{
    if i < n - 1 {
        lemma_kept_position(s, i, n - 1);
    }
}

/// Every character of the compacted text is a kept character of `s`.
proof fn lemma_kept_origin(s: Seq<char>, n: int, j: int) -> (i: int)
    requires
        0 <= n <= s.len(),
        0 <= j < compact_prefix(s, n).len(),
    ensures
        0 <= i < n,
        !removable(s, i),
        compact_prefix(s, i).len() == j,
    decreases n,
{
    if !removable(s, n - 1) && j == compact_prefix(s, n - 1).len() {
        n - 1
    } else {
        lemma_kept_origin(s, n - 1, j)
    }
}

/// Without removable characters among the first `n`, compacting keeps them all.
proof fn lemma_settled_prefix(s: Seq<char>, n: int)
    requires
        0 <= n <= s.len(),
        settled(s),
    ensures
        compact_prefix(s, n) == s.take(n),
    decreases n,
{
    if n > 0 {
        lemma_settled_prefix(s, n - 1);
    }
}

/// Compacting never lengthens a text, and shortens it where a character among the
/// first `n` is removable.
proof fn lemma_compact_length(s: Seq<char>, n: int)
    requires
        0 <= n <= s.len(),
    ensures
        compact_prefix(s, n).len() <= n,
        (exists|i: int| 0 <= i < n && removable(s, i)) ==> compact_prefix(s, n).len() < n,
    decreases n,
{
    if n > 0 {
        lemma_compact_length(s, n - 1);
    }
}

/// The texts that are their own label are the trimmed texts in which no
/// whitespace is removable, and no others.
pub proof fn lemma_own_label_iff_settled(s: Seq<char>)
    ensures
        type_label(s) == s <==> is_trimmed(s) && settled(s),
{
    if is_trimmed(s) && settled(s) {
        lemma_trim_of_trimmed(s);
        lemma_settled_prefix(s, s.len() as int);
        assert(s.take(s.len() as int) =~= s);
    }
    if type_label(s) == s {
        lemma_trim_length(s);
        lemma_trim_is_trimmed(s);
        lemma_compact_length(trim(s), trim(s).len() as int);
    }
}

/// A label is trimmed.
pub proof fn lemma_label_is_trimmed(tokens: Seq<char>)
    ensures
        is_trimmed(type_label(tokens)),
{
    let t = trim(tokens);
    let n = t.len() as int;
    let r = compact(t);
    lemma_trim_is_trimmed(tokens);
    if n > 0 {
        lemma_kept_position(t, 0, n);
        lemma_kept_position(t, n - 1, n);
    }
}

/// Compacting a steady, trimmed text leaves nothing removable behind.
proof fn lemma_compact_settles(t: Seq<char>)
    requires
        is_trimmed(t),
        steady(t),
    ensures
        settled(compact(t)),
{
    let n = t.len() as int;
    let r = compact(t);
    assert forall|j: int| 0 <= j < r.len() implies !removable(r, j) by {
        // the character at `j` of the label stood at `i` of the text
        let i = lemma_kept_origin(t, n, j);
        lemma_kept_position(t, i, n);
        if removable(r, j) {
            assert(is_whitespace(t[i]) && 0 < i < n - 1);
            if t[i - 1] == ';' || t[i - 1] == ',' {
                // the separator still stands right before it
                lemma_kept_position(t, i - 1, n);
                assert(r[j - 1] == t[i - 1]);
            } else if arrow_at(t, i - 2) {
                // the arrow still ends right before it
                lemma_kept_position(t, i - 1, n);
                lemma_kept_position(t, i - 2, n);
                assert(arrow_at(r, j - 2));
            } else if arrow_at(t, i + 1) {
                // the arrow still starts right after it
                lemma_kept_position(t, i + 1, n);
                lemma_kept_position(t, i + 2, n);
                assert(arrow_at(r, j + 1));
            } else {
                // kept for standing between words: both neighbours are kept too
                lemma_kept_position(t, i - 1, n);
                lemma_kept_position(t, i + 1, n);
                assert(r[j - 1] == t[i - 1] && r[j + 1] == t[i + 1]);
            }
        }
    }
}

/// Rendering a label again changes nothing exactly when the label has no
/// removable whitespace left.
pub proof fn lemma_idempotent_iff_settled(tokens: Seq<char>)
    ensures
        type_label(type_label(tokens)) == type_label(tokens) <==> settled(type_label(tokens)),
{
    lemma_label_is_trimmed(tokens);
    lemma_own_label_iff_settled(type_label(tokens));
}

/// Rendering a label again changes nothing, for every text that is steady once
/// trimmed: its label has no removable whitespace left.
pub proof fn lemma_type_label_idempotent(tokens: Seq<char>)
    requires
        steady(trim(tokens)),
    ensures
        settled(type_label(tokens)),
        type_label(type_label(tokens)) == type_label(tokens),
{
    lemma_trim_is_trimmed(tokens);
    lemma_compact_settles(trim(tokens));
    lemma_idempotent_iff_settled(tokens);
}

/// Whether the arrow `->` stands at `k` of `chars[start..end]`.
fn has_arrow_at(chars: &Vec<char>, start: usize, end: usize, k: usize) -> (found: bool)
    requires
        start <= end <= chars.len(),
        start <= k,
    ensures
        found == arrow_at(chars@.subrange(start as int, end as int), k - start),
{
    k < end && end - k > 1 && chars[k] == '-' && chars[k + 1] == '>'
}

/// The label for a type whose tokens print as `tokens`.
pub fn render_type_label(tokens: &str) -> (name: String)
    ensures
        name@ == type_label(tokens@),
{
    let chars = chars_of(tokens);
    let (start, end) = trim_bounds(&chars);
    let ghost trimmed = chars@.subrange(start as int, end as int);
    let mut name = String::new();
    let mut i: usize = start;
    while i < end
        invariant
            start <= i <= end <= chars.len(),
            trimmed == chars@.subrange(start as int, end as int),
            name@ == compact_prefix(trimmed, i - start),
        decreases end - i,
    {
        let c = chars[i];
        let mut drop = false;
        if char_is_whitespace(c) && i > start && end - i > 1 {
            let before = chars[i - 1];
            let after = chars[i + 1];
            let arrow_before = i - start >= 2 && has_arrow_at(&chars, start, end, i - 2);
            let arrow_after = has_arrow_at(&chars, start, end, i + 1);
            let anchored = before == ';' || before == ',' || arrow_before || arrow_after;
            drop = (char_is_ascii_punctuation(before) || char_is_ascii_punctuation(after))
                && !anchored;
        }
        if !drop {
            push_char(&mut name, c);
        }
        i += 1;
    }
    name
}

/// The type of a field as the parser hands it over. Its inside is not looked into.
#[verifier::external_type_specification]
#[verifier::external_body]
pub struct ExType(syn::Type);

/// The tokens of `ty` as text: `quote::ToTokens::to_token_stream`, then the token
/// stream's `to_string`. Where spaces stand between the tokens is up to the
/// printer at work, which differs from one compiler to the next, so nothing is
/// claimed of the text.
#[verifier::external_body]
pub(crate) fn token_text(ty: &syn::Type) -> (text: String) {
    quote::ToTokens::to_token_stream(ty).to_string()
}

/// The label for the type `ty`: the label of its tokens' text, whatever spacing
/// that text came with.
pub fn get_type_name(ty: &syn::Type) -> (name: String)
    ensures
        exists|tokens: Seq<char>| name@ == #[trigger] type_label(tokens),
{
    let tokens = token_text(ty);
    render_type_label(tokens.as_str())
}

} // verus!
