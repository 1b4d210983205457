//! The word store: the ordered list of words, with insertion order kept and
//! duplicates allowed.

use vstd::prelude::*;
use crate::grade::{grade_as, next_level, Answer};
use crate::text::trimmed;
use crate::word::{
    all_mastered, blank, mastered_count, reset_levels, typed_word, word_views, Word, WordView,
    MAX_LEVEL, MIN_LEVEL,
};

verus! {

/// Why a change to the store was refused.
#[derive(Clone, Copy, Debug, PartialEq, Eq)]
pub enum ValidationError {
    /// The foreign text or the translation is blank once trimmed.
    Empty,
    /// There is no word at the given index.
    OutOfRange,
}

/// The ordered list of words.
#[derive(Debug)]
pub struct WordStore {
    words: Vec<Word>,
}

impl View for WordStore {
    type V = Seq<WordView>;

    closed spec fn view(&self) -> Seq<WordView> {
        word_views(self.words@)
    }
}

impl WordStore {
    /// A store without words.
    pub fn new() -> (store: WordStore)
        ensures
            store@ == Seq::<WordView>::empty(),
    {
        let store = WordStore { words: Vec::new() };
        assert(store@ =~= Seq::<WordView>::empty());
        store
    }

    /// A store that holds the given words as they are, in the given order.
    pub fn from_words(words: Vec<Word>) -> (store: WordStore)
        ensures
            store@ == word_views(words@),
    {
        WordStore { words }
    }

    /// The words of the store, in order.
    pub fn words(&self) -> (words: &Vec<Word>)
        ensures
            word_views(words@) == self@,
    {
        &self.words
    }

    /// The number of words.
    pub fn len(&self) -> (n: usize)
        ensures
            n == self@.len(),
    {
        self.words.len()
    }

    /// Whether the store holds no word.
    pub fn is_empty(&self) -> (empty: bool)
        ensures
            empty == (self@.len() == 0),
    {
        self.words.len() == 0
    }

    /// The word at `index`, if there is one.
    pub fn get(&self, index: usize) -> (word: Option<&Word>)
        ensures
            word is Some <==> index < self@.len(),
            word is Some ==> word->Some_0@ == self@[index as int],
    {
        if index < self.words.len() {
            Some(&self.words[index])
        } else {
            None
        }
    }

    /// Appends the word that the two texts make: both trimmed, at the lowest
    /// level. Refused, with the store unchanged, when either text is blank.
    pub fn add(&mut self, foreign: &str, translation: &str) -> (result: Result<(), ValidationError>)
        ensures
            result is Ok <==> !blank(foreign@) && !blank(translation@),
            result is Ok ==> final(self)@ == old(self)@.push(typed_word(foreign@, translation@)),
            result is Ok ==> final(self)@.len() == old(self)@.len() + 1,
            result is Ok ==> final(self)@.last().level == MIN_LEVEL,
            result is Err ==> result->Err_0 == ValidationError::Empty,
            result is Err ==> final(self)@ == old(self)@,
    {
        let foreign = trimmed(foreign);
        let translation = trimmed(translation);
        if foreign.as_str().is_empty() || translation.as_str().is_empty() {
            return Err(ValidationError::Empty);
        }
        let word = Word::new(foreign, translation);
        self.words.push(word);
        assert(final(self)@ =~= old(self)@.push(word@));
        Ok(())
    }

    /// Removes the word at `index`; the others keep their order. Refused,
    /// with the store unchanged, when there is no such word.
    pub fn delete(&mut self, index: usize) -> (result: Result<(), ValidationError>)
        ensures
            result is Ok <==> index < old(self)@.len(),
            result is Ok ==> final(self)@ == old(self)@.remove(index as int),
            result is Err ==> result->Err_0 == ValidationError::OutOfRange,
            result is Err ==> final(self)@ == old(self)@,
    {
        if index >= self.words.len() {
            return Err(ValidationError::OutOfRange);
        }
        self.words.remove(index);
        assert(final(self)@ =~= old(self)@.remove(index as int));
        Ok(())
    }

    /// Appends all the given words as they are, in their order, and tells
    /// whether the store changed, that is, whether any word was given.
    pub fn bulk_add(&mut self, words: Vec<Word>) -> (changed: bool)
        ensures
            final(self)@ == old(self)@ + word_views(words@),
            changed == (words@.len() > 0),
    {
        let mut added = words;
        let changed = added.len() > 0;
        self.words.append(&mut added);
        assert(final(self)@ =~= old(self)@ + word_views(words@));
        changed
    }

    /// Puts every word back to the lowest level.
    pub fn reset_all_levels(&mut self)
        ensures
            final(self)@ == reset_levels(old(self)@),
    {
        let mut i: usize = 0;
        while i < self.words.len()
            invariant
                i <= self.words.len(),
                self.words.len() == old(self).words.len(),
                forall|j: int|
                    0 <= j < i ==> (#[trigger] self.words@[j])@ == old(self).words@[j]@.with_level(
                        MIN_LEVEL as nat,
                    ),
                forall|j: int|
                    i <= j < self.words.len() ==> self.words@[j] == old(self).words@[j],
            decreases self.words.len() - i,
        {
            self.words[i].level = MIN_LEVEL;
            i += 1;
        }
        assert(final(self)@ =~= reset_levels(old(self)@));
    }

    /// Records that the word at `index` was answered, rightly or wrongly as
    /// `correct` says, and moves that word to the level that follows from it.
    pub(crate) fn grade_at(&mut self, index: usize, correct: bool) -> (answer: Answer)
        requires
            index < old(self)@.len(),
        ensures
            answer.is_outcome(old(self)@[index as int], correct),
            final(self)@ == old(self)@.update(
                index as int,
                old(self)@[index as int].with_level(
                    next_level(old(self)@[index as int].level, correct),
                ),
            ),
    {
        let answer = grade_as(&self.words[index], correct);
        self.words[index].level = answer.new_level;
        assert(final(self)@ =~= old(self)@.update(
            index as int,
            old(self)@[index as int].with_level(
                next_level(old(self)@[index as int].level, correct),
            ),
        ));
        answer
    }

    /// How many words are mastered.
    pub fn mastered_count(&self) -> (count: usize)
        ensures
            count == mastered_count(self@),
    {
        let ghost is_mastered = |word: WordView| word.mastered();
        let mut count: usize = 0;
        let mut i: usize = 0;
        proof {
            assert(self@.take(0) =~= Seq::<WordView>::empty());
            assert(Seq::<WordView>::empty().filter(is_mastered).len() == 0) by {
                Seq::<WordView>::empty().lemma_filter_len(is_mastered);
            }
        }
        while i < self.words.len()
            invariant
                i <= self.words.len(),
                self.words.len() == self@.len(),
                is_mastered == |word: WordView| word.mastered(),
                count <= i,
                count == self@.take(i as int).filter(is_mastered).len(),
            decreases self.words.len() - i,
        {
            proof {
                assert(self@.take(i + 1) =~= self@.take(i as int).push(self@[i as int]));
                Seq::lemma_filter_push(self@.take(i as int), self@[i as int], is_mastered);
            }
            if self.words[i].level >= MAX_LEVEL {
                count += 1;
            }
            i += 1;
        }
        proof {
            assert(self@.take(i as int) =~= self@);
        }
        count
    }

    /// Whether the store is not empty and every word of it is mastered.
    pub fn is_mastered(&self) -> (mastered: bool)
        ensures
            mastered == all_mastered(self@),
    {
        if self.words.len() == 0 {
            return false;
        }
        let mut i: usize = 0;
        while i < self.words.len()
            invariant
                i <= self.words.len(),
                forall|j: int| 0 <= j < i ==> (#[trigger] self@[j]).mastered(),
            decreases self.words.len() - i,
        {
            if self.words[i].level < MAX_LEVEL {
                assert(!self@[i as int].mastered());
                return false;
            }
            i += 1;
        }
        true
    }
}

} // verus!
