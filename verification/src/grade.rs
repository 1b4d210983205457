//! Checking an answer against a word: whether it is right, where the word's
//! level goes, and what the learner is told.

use vstd::prelude::*;
use crate::text::{decimal, decimal_text, normalize, same_answer};
use crate::word::{Word, WordView, MAX_LEVEL, MIN_LEVEL};

verus! {

/// Whether `text` is the right answer for `word`: equal to its translation
/// once both are trimmed and in lower case.
pub open spec fn is_correct(word: WordView, text: Seq<char>) -> bool {
    normalize(text) == normalize(word.translation)
}

/// The level after an answer: one up after a right answer, one down after a
/// wrong one, and unchanged where that would leave the range of levels.
pub open spec fn next_level(level: nat, correct: bool) -> nat {
    if correct {
        if level < MAX_LEVEL {
            level + 1
        } else {
            level
        }
    } else {
        if level > MIN_LEVEL {
            (level - 1) as nat
        } else {
            level
        }
    }
}

/// What the learner is told after an answer to `word`, which was at the level
/// it has in `word` when the answer was given.
pub open spec fn feedback_for(word: WordView, correct: bool) -> Seq<char> {
    if correct {
        if word.level < MAX_LEVEL {
            "✅ CORRECT! Level: "@ + decimal(word.level) + " → "@ + decimal(
                next_level(word.level, true),
            )
        } else {
            "✅ CORRECT! Already mastered!"@
        }
    } else {
        "❌ WRONG! Correct answer: "@ + word.translation + " (Level: "@ + decimal(word.level)
            + " → "@ + decimal(next_level(word.level, false)) + ")"@
    }
}

/// The outcome of one answer.
#[derive(Clone, Debug, PartialEq, Eq)]
pub struct Answer {
    /// Whether the answer was right.
    pub correct: bool,
    /// The word's level before the answer.
    pub old_level: u8,
    /// The word's level after the answer.
    pub new_level: u8,
    /// What the learner is told.
    pub feedback: String,
}

impl Answer {
    /// This is the outcome of an answer to `word` that was found right, or
    /// wrong, as `correct` says.
    pub open spec fn is_outcome(self, word: WordView, correct: bool) -> bool {
        &&& self.correct == correct
        &&& self.old_level == word.level
        &&& self.new_level == next_level(word.level, correct)
        &&& self.feedback@ == feedback_for(word, correct)
    }

    /// This is the outcome of answering `text` to `word`.
    pub open spec fn grades(self, word: WordView, text: Seq<char>) -> bool {
        self.is_outcome(word, is_correct(word, text))
    }
}

/// The outcome of an answer to `word` that was found right, or wrong, as
/// `correct` says. The word stays as it is.
pub fn grade_as(word: &Word, correct: bool) -> (answer: Answer)
    ensures
        answer.is_outcome(word@, correct),
{
    let old_level = word.level;
    if correct {
        if old_level < MAX_LEVEL {
            let new_level = old_level + 1;
            let mut feedback = String::from_str("✅ CORRECT! Level: ");
            feedback.append(decimal_text(old_level).as_str());
            feedback.append(" → ");
            feedback.append(decimal_text(new_level).as_str());
            Answer { correct, old_level, new_level, feedback }
        } else {
            let feedback = String::from_str("✅ CORRECT! Already mastered!");
            Answer { correct, old_level, new_level: old_level, feedback }
        }
    } else {
        let new_level = if old_level > MIN_LEVEL {
            old_level - 1
        } else {
            old_level
        };
        let mut feedback = String::from_str("❌ WRONG! Correct answer: ");
        feedback.append(word.translation.as_str());
        feedback.append(" (Level: ");
        feedback.append(decimal_text(old_level).as_str());
        feedback.append(" → ");
        feedback.append(decimal_text(new_level).as_str());
        feedback.append(")");
        Answer { correct, old_level, new_level, feedback }
    }
}

/// Judges `text` as an answer to `word`, which stays as it is.
pub fn grade(word: &Word, text: &str) -> (answer: Answer)
    ensures
        answer.grades(word@, text@),
{
    let correct = same_answer(text, word.translation.as_str());
    grade_as(word, correct)
}

impl Word {
    /// Judges `text` as an answer to this word and moves the word to the
    /// level that follows from it.
    pub fn check(&mut self, text: &str) -> (answer: Answer)
        ensures
            answer.grades(old(self)@, text@),
            final(self)@ == old(self)@.with_level(next_level(old(self)@.level, answer.correct)),
            old(self)@.level_in_range() ==> final(self)@.level_in_range(),
            old(self)@.valid() ==> final(self)@.valid(),
    {
        let answer = grade(self, text);
        self.level = answer.new_level;
        answer
    }
}

} // verus!
