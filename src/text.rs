use vstd::prelude::*;

verus! {

/// Whether `char::is_whitespace` accepts a character (Unicode White_Space).
pub uninterp spec fn white_space(c: char) -> bool;

/// What `str::to_lowercase` makes of a text.
pub uninterp spec fn lower_of(s: Seq<char>) -> Seq<char>;

/// `s` without its leading white space.
pub open spec fn strip_leading(s: Seq<char>) -> Seq<char>
    decreases s.len(),
{
    if s.len() > 0 && white_space(s[0]) {
        strip_leading(s.drop_first())
    } else {
        s
    }
}

/// `s` without its trailing white space.
pub open spec fn strip_trailing(s: Seq<char>) -> Seq<char>
    decreases s.len(),
{
    if s.len() > 0 && white_space(s.last()) {
        strip_trailing(s.drop_last())
    } else {
        s
    }
}

/// `s` without white space at either end.
pub open spec fn trim_view(s: Seq<char>) -> Seq<char> {
    strip_trailing(strip_leading(s))
}

/// Whether `p` occurs in `s` as a contiguous piece.
pub open spec fn has_infix(s: Seq<char>, p: Seq<char>) -> bool {
    exists|i: int| 0 <= i && i + p.len() <= s.len() && #[trigger] s.subrange(i, i + p.len()) == p
}

/// A text made of white space alone trims to nothing.
pub proof fn lemma_white_trims_to_empty(s: Seq<char>)
    requires
        forall|k: int| 0 <= k < s.len() ==> white_space(#[trigger] s[k]),
    ensures
        strip_leading(s).len() == 0,
        trim_view(s).len() == 0,
    decreases s.len(),
{
    if s.len() > 0 {
        assert(white_space(s[0]));
        assert forall|k: int| 0 <= k < s.drop_first().len() implies white_space(
            #[trigger] s.drop_first()[k],
        ) by {
            assert(s.drop_first()[k] == s[k + 1]);
        }
        lemma_white_trims_to_empty(s.drop_first());
    }
}

/// Leading white space makes no difference to what remains after it is stripped.
pub proof fn lemma_strip_leading_white(a: Seq<char>, x: Seq<char>)
    requires
        forall|k: int| 0 <= k < a.len() ==> white_space(#[trigger] a[k]),
    ensures
        strip_leading(a + x) == strip_leading(x),
    decreases a.len(),
{
    if a.len() > 0 {
        assert((a + x)[0] == a[0]);
        assert((a + x).drop_first() =~= a.drop_first() + x);
        assert forall|k: int| 0 <= k < a.drop_first().len() implies white_space(
            #[trigger] a.drop_first()[k],
        ) by {
            assert(a.drop_first()[k] == a[k + 1]);
        }
        lemma_strip_leading_white(a.drop_first(), x);
    } else {
        assert(a + x =~= x);
    }
}

/// Trailing white space makes no difference to what remains after it is stripped.
pub proof fn lemma_strip_trailing_white(y: Seq<char>, b: Seq<char>)
    requires
        forall|k: int| 0 <= k < b.len() ==> white_space(#[trigger] b[k]),
    ensures
        strip_trailing(y + b) == strip_trailing(y),
    decreases b.len(),
{
    if b.len() > 0 {
        assert((y + b).last() == b[b.len() - 1]);
        assert((y + b).drop_last() =~= y + b.drop_last());
        assert forall|k: int| 0 <= k < b.drop_last().len() implies white_space(
            #[trigger] b.drop_last()[k],
        ) by {
            assert(b.drop_last()[k] == b[k]);
        }
        lemma_strip_trailing_white(y, b.drop_last());
    } else {
        assert(y + b =~= y);
    }
}

/// A word whose ends are no white space, with white space around it, trims
/// to the word itself.
pub proof fn lemma_trim_surrounded(before: Seq<char>, word: Seq<char>, after: Seq<char>)
    requires
        forall|k: int| 0 <= k < before.len() ==> white_space(#[trigger] before[k]),
        forall|k: int| 0 <= k < after.len() ==> white_space(#[trigger] after[k]),
        word.len() > 0,
        !white_space(word[0]),
        !white_space(word.last()),
    ensures
        trim_view(before + word + after) == word,
{
    assert(before + word + after =~= before + (word + after));
    lemma_strip_leading_white(before, word + after);
    assert((word + after)[0] == word[0]);
    assert(strip_leading(word + after) == word + after);
    lemma_strip_trailing_white(word, after);
    assert(strip_trailing(word) == word);
}

/// Relies on `str::trim`: removes the leading and trailing chars that
/// `char::is_whitespace` accepts, and nothing else.
#[verifier::external_body]
pub(crate) fn trim_text(s: &str) -> (r: &str)
    ensures
        r@ == trim_view(s@),
        (forall|k: int| 0 <= k < s@.len() ==> white_space(#[trigger] s@[k])) ==> r@.len() == 0,
{
    s.trim()
}

/// Relies on `str::to_lowercase`: the result depends on the text alone, and
/// an empty text stays empty.
#[verifier::external_body]
pub(crate) fn lowercase(s: &str) -> (r: String)
    ensures
        r@ == lower_of(s@),
        s@.len() == 0 ==> r@.len() == 0,
{
    s.to_lowercase()
}

/// Relies on `str::starts_with` with a `char` pattern: whether the first char is `c`.
#[verifier::external_body]
pub(crate) fn starts_with_char(s: &str, c: char) -> (r: bool)
    ensures
        r == (s@.len() > 0 && s@[0] == c),
{
    s.starts_with(c)
}

/// Relies on `str::contains` with a `&str` pattern: whether `p` occurs in `s`.
#[verifier::external_body]
pub(crate) fn contains_text(s: &str, p: &str) -> (r: bool)
    ensures
        r == has_infix(s@, p@),
{
    s.contains(p)
}

/// Whether a text equals a given one.
pub(crate) fn same_text(a: &str, b: &str) -> (r: bool)
    ensures
        r == (a@ == b@),
{
    let x = a.to_owned();
    let y = b.to_owned();
    x.eq(&y)
}

} // verus!
