//! The state of the quiz as plain mathematical values, and what each step of
//! the quiz makes of it.

use vstd::prelude::*;
use crate::grade::{feedback_for, is_correct, next_level};
use crate::import::ImportView;
use crate::word::{all_mastered, blank, reset_levels, typed_word, WordView};

verus! {

/// What the quiz is doing.
#[derive(Clone, Copy, Debug, PartialEq, Eq, Structural)]
pub enum Mode {
    /// No word is being asked: the list is empty or being edited.
    Collecting,
    /// A word is selected and waits for an answer.
    Asking,
    /// Every word is mastered.
    Completed,
}

/// The state of the quiz as plain mathematical values.
pub struct AppView {
    /// What the quiz is doing.
    pub mode: Mode,
    /// The word list.
    pub words: Seq<WordView>,
    /// The index of the word that is being asked.
    pub current: nat,
    /// What the learner has typed as an answer.
    pub user_answer: Seq<char>,
    /// What the learner was told after the last answer.
    pub feedback: Seq<char>,
    /// The foreign text typed for a new word.
    pub new_foreign: Seq<char>,
    /// The translation typed for a new word.
    pub new_translation: Seq<char>,
    /// The word list has changed since it was last handed out for saving.
    pub store_changed: bool,
}

impl AppView {
    /// While a word is being asked there is such a word, and the quiz counts
    /// as completed only while every word is mastered.
    pub open spec fn wf(self) -> bool {
        &&& self.mode == Mode::Asking ==> self.current < self.words.len()
        &&& self.mode == Mode::Completed ==> all_mastered(self.words)
    }

    /// The state at the start, with the given word list.
    pub open spec fn initial(words: Seq<WordView>) -> AppView {
        AppView {
            mode: Mode::Collecting,
            words,
            current: 0,
            user_answer: Seq::empty(),
            feedback: Seq::empty(),
            new_foreign: Seq::empty(),
            new_translation: Seq::empty(),
            store_changed: false,
        }
    }

    /// The word that is being asked.
    pub open spec fn current_word(self) -> WordView
        recommends
            self.current < self.words.len(),
    {
        self.words[self.current as int]
    }

    /// The word that the two texts typed for a new word make.
    pub open spec fn new_word(self) -> WordView {
        typed_word(self.new_foreign, self.new_translation)
    }

    /// Whether the two texts typed for a new word make a word: neither is
    /// blank.
    pub open spec fn can_add(self) -> bool {
        !blank(self.new_foreign) && !blank(self.new_translation)
    }

    /// The state after the learner has typed `text` as an answer: what was
    /// said after the last answer is gone.
    pub open spec fn after_typing(self, text: Seq<char>) -> AppView {
        AppView { user_answer: text, feedback: Seq::empty(), ..self }
    }

    /// The state after the list has grown to `words` by new words at its
    /// end. The list is due to be saved. A round that is under way goes on
    /// with the word that is being asked; a completed quiz is completed no
    /// more, since the new words are not mastered, and is open for editing.
    pub open spec fn after_growing(self, words: Seq<WordView>) -> AppView {
        AppView {
            mode: if self.mode == Mode::Completed {
                Mode::Collecting
            } else {
                self.mode
            },
            words,
            store_changed: true,
            ..self
        }
    }

    /// The state after adding the word typed, where the two texts make one:
    /// the list has grown by that word and the texts typed are cleared.
    pub open spec fn after_add(self) -> AppView {
        if self.can_add() {
            AppView {
                new_foreign: Seq::empty(),
                new_translation: Seq::empty(),
                ..self.after_growing(self.words.push(self.new_word()))
            }
        } else {
            self
        }
    }

    /// The state after deleting the word at `index`, where there is one. The
    /// list is due to be saved, and no word is being asked any more: the word
    /// that was asked may be the one that is gone.
    pub open spec fn after_delete(self, index: nat) -> AppView {
        if index < self.words.len() {
            AppView {
                mode: Mode::Collecting,
                words: self.words.remove(index as int),
                store_changed: true,
                ..self
            }
        } else {
            self
        }
    }

    /// The state after appending the words that a word list gave, where it
    /// gave any.
    pub open spec fn after_import(self, outcome: ImportView) -> AppView {
        if outcome.words.len() > 0 {
            self.after_growing(self.words + outcome.words)
        } else {
            self
        }
    }

    /// The state after leaving the quiz to edit the list.
    pub open spec fn after_edit_words(self) -> AppView {
        AppView {
            mode: Mode::Collecting,
            user_answer: Seq::empty(),
            feedback: Seq::empty(),
            ..self
        }
    }

    /// The state after the word at `pick` was selected and is asked.
    pub open spec fn after_start(self, pick: nat) -> AppView {
        AppView {
            mode: Mode::Asking,
            current: pick,
            user_answer: Seq::empty(),
            feedback: Seq::empty(),
            ..self
        }
    }

    /// The state after selecting the word at `index`: only the index of the
    /// selected word changes. While the quiz is completed, and where there is
    /// no such word, nothing is selected.
    pub open spec fn after_select(self, index: nat) -> AppView {
        if self.mode != Mode::Completed && index < self.words.len() {
            AppView { current: index, ..self }
        } else {
            self
        }
    }

    /// The word list after the word that is being asked was answered, rightly
    /// or wrongly as `correct` says: that word has moved to the level that
    /// follows, and the others are as they were.
    pub open spec fn graded_words(self, correct: bool) -> Seq<WordView> {
        let word = self.current_word();
        self.words.update(self.current as int, word.with_level(next_level(word.level, correct)))
    }

    /// The state after the word that is being asked was answered, rightly or
    /// wrongly as `correct` says, with `next` as the index of the word to ask
    /// after it. When the answer leaves every word mastered the quiz is
    /// completed, nothing is said and no word is selected; otherwise the
    /// learner is told how the answer went and the word at `next` is asked.
    /// Either way the list is due to be saved and nothing is typed any more.
    pub open spec fn after_graded(self, correct: bool, next: nat) -> AppView {
        let words = self.graded_words(correct);
        if all_mastered(words) {
            AppView {
                mode: Mode::Completed,
                words,
                user_answer: Seq::empty(),
                feedback: Seq::empty(),
                store_changed: true,
                ..self
            }
        } else {
            AppView {
                mode: Mode::Asking,
                words,
                current: next,
                user_answer: Seq::empty(),
                feedback: feedback_for(self.current_word(), correct),
                store_changed: true,
                ..self
            }
        }
    }

    /// The state after `text` was given as the answer to the word that is
    /// being asked, with `next` as the index of the word to ask after it.
    pub open spec fn after_answer(self, text: Seq<char>, next: nat) -> AppView {
        self.after_graded(is_correct(self.current_word(), text), next)
    }

    /// The state after the word list was handed out for saving.
    pub open spec fn after_save(self) -> AppView {
        AppView { store_changed: false, ..self }
    }

    /// The state after starting over: every word at the lowest level, and the
    /// word at `pick` asked.
    pub open spec fn after_replay(self, pick: nat) -> AppView {
        AppView {
            mode: Mode::Asking,
            words: reset_levels(self.words),
            current: pick,
            user_answer: Seq::empty(),
            feedback: Seq::empty(),
            store_changed: true,
            ..self
        }
    }
}

} // verus!
