//! The capability interface a grammar engine drives, and the matching
//! relation its contracts are stated over.

use vstd::prelude::*;

verus! {

/// True when `literal` occurs in `text` starting exactly at character
/// offset `offset`: the literal fits in the remaining text and agrees
/// with it character for character.
pub open spec fn match_at(text: Seq<char>, offset: int, literal: Seq<char>) -> bool {
    &&& 0 <= offset
    &&& offset + literal.len() <= text.len()
    &&& text.subrange(offset, offset + literal.len() as int) == literal
}

/// An input source for a grammar engine: a fixed text with a movable read
/// position. The engine composes sequence, choice and repetition rules out
/// of `matches` calls alone, saving the position with `pos` before a
/// tentative branch and restoring it with `set_pos` when the branch fails.
/// That backtracking scheme is sound only because a failed `matches` call
/// leaves the position exactly where it was.
pub trait Input {
    /// The full text behind this input, as a sequence of characters,
    /// fixed at construction.
    spec fn content(&self) -> Seq<char>;

    /// The current read offset, counted in characters.
    spec fn offset(&self) -> int;

    /// Well-formedness: the offset stays within the text.
    spec fn inv(&self) -> bool;

    /// Every well-formed input keeps its offset between the start and the
    /// end of its text.
    proof fn inv_bounds(&self)
        requires
            self.inv(),
        ensures
            0 <= self.offset() <= self.content().len(),
    ;

    /// The total size of the text, independent of the current position.
    fn len(&self) -> (n: usize)
        requires
            self.inv(),
        ensures
            n == self.content().len(),
    ;

    /// The current read offset.
    fn pos(&self) -> (p: usize)
        requires
            self.inv(),
        ensures
            p == self.offset(),
    ;

    /// Moves the read offset to `pos`. Callers pass only `0` or a value
    /// previously returned by `pos`, which the precondition makes exact:
    /// the new offset must lie within the text.
    fn set_pos(&mut self, pos: usize)
        requires
            old(self).inv(),
            pos <= old(self).content().len(),
        ensures
            final(self).inv(),
            final(self).content() == old(self).content(),
            final(self).offset() == pos,
    ;

    /// Tests whether `string` occurs starting at the current offset.
    /// On a match the offset advances past the matched characters; on a
    /// mismatch it stays exactly where it was, so an enclosing choice can
    /// try its next alternative from the same place.
    fn matches(&mut self, string: &str) -> (r: bool)
        requires
            old(self).inv(),
        ensures
            final(self).inv(),
            final(self).content() == old(self).content(),
            r == match_at(old(self).content(), old(self).offset(), string@),
            r ==> final(self).offset() == old(self).offset() + string@.len(),
            !r ==> final(self).offset() == old(self).offset(),
    ;
}

/// A prefix of the text always matches at the start of the text.
pub proof fn lemma_prefix_match(text: Seq<char>, literal: Seq<char>)
    requires
        literal.is_prefix_of(text),
    ensures
        match_at(text, 0, literal),
{
    assert(text.subrange(0, literal.len() as int) =~= literal);
}

/// A literal that reaches past the end of the text, or differs from the
/// text at some index, does not match.
pub proof fn lemma_mismatch(text: Seq<char>, offset: int, literal: Seq<char>)
    requires
        0 <= offset <= text.len(),
        offset + literal.len() > text.len() || exists|i: int|
            0 <= i < literal.len() && text[offset + i] != literal[i],
    ensures
        !match_at(text, offset, literal),
{
    if offset + literal.len() <= text.len() {
        let i = choose|i: int| 0 <= i < literal.len() && text[offset + i] != literal[i];
        assert(text.subrange(offset, offset + literal.len() as int)[i] == text[offset + i]);
    }
}

/// The empty literal matches at every offset within the text.
pub proof fn lemma_empty_match(text: Seq<char>, offset: int)
    requires
        0 <= offset <= text.len(),
    ensures
        match_at(text, offset, Seq::<char>::empty()),
{
    assert(text.subrange(offset, offset) =~= Seq::<char>::empty());
}

/// Matching at offset `k` of a text is the same as matching at the start
/// of the suffix of the text that begins at `k`: moving the position with
/// `set_pos(k)` and matching is equivalent to matching on a fresh input
/// over that suffix.
pub proof fn lemma_match_at_suffix(text: Seq<char>, k: int, literal: Seq<char>)
    requires
        0 <= k <= text.len(),
    ensures
        match_at(text, k, literal) == match_at(
            text.subrange(k, text.len() as int),
            0,
            literal,
        ),
{
    let suffix = text.subrange(k, text.len() as int);
    if k + literal.len() <= text.len() {
        assert(text.subrange(k, k + literal.len() as int) =~= suffix.subrange(
            0,
            literal.len() as int,
        ));
    }
}

} // verus!
