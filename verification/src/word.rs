//! A vocabulary entry and its mathematical model.

use vstd::prelude::*;
use crate::text::trim;

verus! {

/// The lowest mastery level, given to every new word.
pub const MIN_LEVEL: u8 = 1;

/// The highest mastery level: a word at this level is mastered.
pub const MAX_LEVEL: u8 = 5;

/// What a word is, as plain mathematical values.
pub struct WordView {
    /// The text shown to the learner.
    pub foreign: Seq<char>,
    /// The answer expected of the learner.
    pub translation: Seq<char>,
    /// How well the word is known.
    pub level: nat,
}

impl WordView {
    /// The level lies between the lowest and the highest level.
    pub open spec fn level_in_range(self) -> bool {
        MIN_LEVEL <= self.level <= MAX_LEVEL
    }

    /// Both texts are non-empty and the level lies between the lowest and the
    /// highest level.
    pub open spec fn valid(self) -> bool {
        &&& self.foreign.len() > 0
        &&& self.translation.len() > 0
        &&& self.level_in_range()
    }

    /// The word counts as mastered.
    pub open spec fn mastered(self) -> bool {
        self.level >= MAX_LEVEL
    }

    /// The same word at another level.
    pub open spec fn with_level(self, level: nat) -> WordView {
        WordView { foreign: self.foreign, translation: self.translation, level }
    }
}

/// Nothing is left of `text` once it is trimmed.
pub open spec fn blank(text: Seq<char>) -> bool {
    trim(text).len() == 0
}

/// The word that two typed texts make: both trimmed, at the lowest level.
pub open spec fn typed_word(foreign: Seq<char>, translation: Seq<char>) -> WordView {
    WordView { foreign: trim(foreign), translation: trim(translation), level: MIN_LEVEL as nat }
}

/// A foreign word, its translation and how well it is known.
#[derive(Clone, Debug, PartialEq, Eq)]
pub struct Word {
    /// The text shown to the learner.
    pub foreign: String,
    /// The answer expected of the learner.
    pub translation: String,
    /// How well the word is known: from the lowest to the highest level in
    /// a list that the quiz has made, and whatever was saved in a list that
    /// was read.
    pub level: u8,
}

impl View for Word {
    type V = WordView;

    open spec fn view(&self) -> WordView {
        WordView {
            foreign: self.foreign@,
            translation: self.translation@,
            level: self.level as nat,
        }
    }
}

impl Word {
    /// A new word starts at the lowest level.
    pub fn new(foreign: String, translation: String) -> (word: Word)
        ensures
            word.foreign == foreign,
            word.translation == translation,
            word.level == MIN_LEVEL,
    {
        Word { foreign, translation, level: MIN_LEVEL }
    }
}

/// The models of a sequence of words, in the same order.
pub open spec fn word_views(words: Seq<Word>) -> Seq<WordView> {
    words.map_values(|word: Word| word@)
}

/// Every word of the sequence is valid.
pub open spec fn all_valid(words: Seq<WordView>) -> bool {
    forall|i: int| 0 <= i < words.len() ==> (#[trigger] words[i]).valid()
}

/// The level of every word of the sequence lies between the lowest and the
/// highest level.
pub open spec fn all_levels_in_range(words: Seq<WordView>) -> bool {
    forall|i: int| 0 <= i < words.len() ==> (#[trigger] words[i]).level_in_range()
}

/// The sequence is not empty and every word of it is mastered.
pub open spec fn all_mastered(words: Seq<WordView>) -> bool {
    &&& words.len() > 0
    &&& forall|i: int| 0 <= i < words.len() ==> (#[trigger] words[i]).mastered()
}

/// How many words of the sequence are mastered.
pub open spec fn mastered_count(words: Seq<WordView>) -> nat {
    words.filter(|word: WordView| word.mastered()).len()
}

/// The same words, each at the lowest level.
pub open spec fn reset_levels(words: Seq<WordView>) -> Seq<WordView> {
    words.map_values(|word: WordView| word.with_level(MIN_LEVEL as nat))
}

} // verus!
