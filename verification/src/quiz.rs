//! The quiz: which word is asked, what an answer does to it, and when the
//! learner is done.

use vstd::prelude::*;
use crate::grade::Answer;
use crate::import::{import, parse_import};
use crate::random::random_index;
use crate::state::{AppView, Mode};
use crate::store::{ValidationError, WordStore};
use crate::text::same_answer;
use crate::word::{all_mastered, mastered_count, word_views, Word, WordView};

verus! {

/// Why the saved word list could not be written or read.
#[derive(Clone, Copy, Debug, PartialEq, Eq)]
pub enum PersistenceError {
    /// The list could not be written.
    Write,
    /// The list could not be put into its saved form.
    Serialize,
    /// What was read is not a saved list.
    Parse,
}

/// How far the learner is.
#[derive(Clone, Copy, Debug, PartialEq, Eq)]
pub struct Progress {
    /// The number of mastered words.
    pub mastered: usize,
    /// The number of all words.
    pub total: usize,
}

/// What reading a word list into the quiz came to.
#[derive(Clone, Copy, Debug, PartialEq, Eq)]
pub struct ImportReport {
    /// The number of accepted lines, each of which gave a word.
    pub accepted: usize,
    /// The number of rejected lines.
    pub rejected: usize,
}

/// The quiz with its word list and what the learner has typed.
///
/// The fields are private, and every function here that makes or changes a
/// quiz leaves it well formed: a caller that asks for a well-formed quiz
/// always has one.
#[derive(Debug)]
pub struct App {
    mode: Mode,
    store: WordStore,
    new_foreign: String,
    new_translation: String,
    current_word_index: usize,
    user_answer: String,
    feedback_message: String,
    store_changed: bool,
}

impl View for App {
    type V = AppView;

    closed spec fn view(&self) -> AppView {
        AppView {
            mode: self.mode,
            words: self.store@,
            current: self.current_word_index as nat,
            user_answer: self.user_answer@,
            feedback: self.feedback_message@,
            new_foreign: self.new_foreign@,
            new_translation: self.new_translation@,
            store_changed: self.store_changed,
        }
    }
}

impl App {
    /// Records that the word that is being asked was answered, rightly or
    /// wrongly as `correct` says, and selects the word at `next` to be asked
    /// after it, unless the answer completes the quiz. Refused, with nothing
    /// changed, when there is no word at `next`.
    pub fn record_answer(&mut self, correct: bool, next: usize) -> (result: Result<
        Answer,
        ValidationError,
    >)
        requires
            old(self)@.wf(),
            old(self)@.mode == Mode::Asking,
        ensures
            final(self)@.wf(),
            result is Ok <==> next < old(self)@.words.len(),
            result is Ok ==> result->Ok_0.is_outcome(old(self)@.current_word(), correct),
            result is Ok ==> final(self)@ == old(self)@.after_graded(correct, next as nat),
            result is Err ==> result->Err_0 == ValidationError::OutOfRange,
            result is Err ==> final(self)@ == old(self)@,
    {
        if next >= self.store.len() {
            return Err(ValidationError::OutOfRange);
        }
        let answer = self.store.grade_at(self.current_word_index, correct);
        self.store_changed = true;
        self.user_answer = String::new();
        if self.store.is_mastered() {
            self.mode = Mode::Completed;
            self.feedback_message = String::new();
        } else {
            self.current_word_index = next;
            self.feedback_message = answer.feedback.clone();
        }
        Ok(answer)
    }

    /// Takes `text` as the answer to the word that is being asked and
    /// selects the word at `next` to be asked after it, unless the answer
    /// completes the quiz. Refused, with nothing changed, when there is no
    /// word at `next`.
    pub fn submit_answer(&mut self, text: &str, next: usize) -> (result: Result<
        Answer,
        ValidationError,
    >)
        requires
            old(self)@.wf(),
            old(self)@.mode == Mode::Asking,
        ensures
            final(self)@.wf(),
            result is Ok <==> next < old(self)@.words.len(),
            result is Ok ==> result->Ok_0.grades(old(self)@.current_word(), text@),
            result is Ok ==> final(self)@ == old(self)@.after_answer(text@, next as nat),
            result is Err ==> result->Err_0 == ValidationError::OutOfRange,
            result is Err ==> final(self)@ == old(self)@,
    {
        let correct = match self.store.get(self.current_word_index) {
            Some(word) => same_answer(text, word.translation.as_str()),
            None => false,
        };
        self.record_answer(correct, next)
    }

    /// Takes what the learner has typed as the answer to the word that is
    /// being asked. Unless the answer completes the quiz, the word asked next
    /// is then drawn at random, each word of the list as likely as any other.
    pub fn check_answer(&mut self) -> (answer: Answer)
        requires
            old(self)@.wf(),
            old(self)@.mode == Mode::Asking,
        ensures
            final(self)@.wf(),
            answer.grades(old(self)@.current_word(), old(self)@.user_answer),
            final(self)@ == old(self)@.after_answer(
                old(self)@.user_answer,
                final(self)@.current,
            ),
    {
        let text = self.user_answer.clone();
        let asked = self.current_word_index;
        let answer = self.submit_answer(text.as_str(), asked).unwrap();
        if self.mode == Mode::Asking {
            let next = random_index(self.store.len()).unwrap();
            self.select_word(next);
        }
        answer
    }

    /// Reads a word list from `content` and appends its words; where it gave
    /// any, the list is due to be saved. A round that is under way goes on;
    /// a completed quiz is completed no more and is open for editing.
    /// Returns how many lines were accepted and how many were rejected.
    pub fn parse_txt_content(&mut self, content: &str) -> (report: ImportReport)
        requires
            old(self)@.wf(),
        ensures
            final(self)@.wf(),
            final(self)@ == old(self)@.after_import(import(content@)),
            report.accepted == import(content@).accepted,
            report.rejected == import(content@).rejected,
    {
        let outcome = parse_import(content);
        let report = ImportReport { accepted: outcome.accepted, rejected: outcome.rejected };
        if self.store.bulk_add(outcome.words) {
            if self.mode == Mode::Completed {
                self.mode = Mode::Collecting;
            }
            self.store_changed = true;
        }
        report
    }

    /// The quiz at the start of a run, from what reading the saved list gave:
    /// the saved words exactly as they were read, levels included, or no
    /// words at all when the list could not be read.
    pub fn from_load(loaded: Result<Vec<Word>, PersistenceError>) -> (app: App)
        ensures
            app@.wf(),
            loaded is Ok ==> app@ == AppView::initial(word_views(loaded->Ok_0@)),
            loaded is Err ==> app@ == AppView::initial(Seq::empty()),
    {
        match loaded {
            Ok(words) => App::with_words(words),
            Err(_) => App::new(),
        }
    }

    /// Adds the word typed: the two texts trimmed, at the lowest level, at
    /// the end of the list. The words that were there keep their places, the
    /// texts typed are cleared and the list is due to be saved. A round that
    /// is under way goes on with the word that is being asked; a completed
    /// quiz is completed no more and is open for editing. Refused, with
    /// nothing changed, when either text is blank.
    pub fn add_word(&mut self) -> (result: Result<(), ValidationError>)
        requires
            old(self)@.wf(),
        ensures
            final(self)@.wf(),
            final(self)@ == old(self)@.after_add(),
            result is Ok <==> old(self)@.can_add(),
            result is Ok ==> final(self)@.words.len() == old(self)@.words.len() + 1,
            result is Ok ==> final(self)@.words.last() == old(self)@.new_word(),
            result is Ok ==> final(self)@.words.drop_last() == old(self)@.words,
            result is Err ==> result->Err_0 == ValidationError::Empty,
            final(self)@.current == old(self)@.current,
            old(self)@.mode != Mode::Completed ==> final(self)@.mode == old(self)@.mode,
    {
        match self.store.add(self.new_foreign.as_str(), self.new_translation.as_str()) {
            Ok(()) => {
                self.new_foreign = String::new();
                self.new_translation = String::new();
                if self.mode == Mode::Completed {
                    self.mode = Mode::Collecting;
                }
                self.store_changed = true;
                assert(final(self)@.words.drop_last() =~= old(self)@.words);
                Ok(())
            },
            Err(error) => Err(error),
        }
    }

    /// Deletes the word at `index`; the list is then due to be saved, and no
    /// word is being asked any more. Refused, with nothing changed, when
    /// there is no such word.
    pub fn delete_word(&mut self, index: usize) -> (result: Result<(), ValidationError>)
        requires
            old(self)@.wf(),
        ensures
            final(self)@.wf(),
            final(self)@ == old(self)@.after_delete(index as nat),
            result is Ok <==> index < old(self)@.words.len(),
            result is Err ==> result->Err_0 == ValidationError::OutOfRange,
    {
        match self.store.delete(index) {
            Ok(()) => {
                self.mode = Mode::Collecting;
                self.store_changed = true;
                Ok(())
            },
            Err(error) => Err(error),
        }
    }

    /// Starts over after the quiz was completed: every word goes back to the
    /// lowest level, the list is due to be saved, and the word at `pick` is
    /// asked. Refused, with nothing changed, when there is no word at `pick`.
    pub fn replay_at(&mut self, pick: usize) -> (result: Result<(), ValidationError>)
        requires
            old(self)@.wf(),
            old(self)@.mode == Mode::Completed,
        ensures
            final(self)@.wf(),
            result is Ok <==> pick < old(self)@.words.len(),
            result is Ok ==> final(self)@ == old(self)@.after_replay(pick as nat),
            result is Err ==> result->Err_0 == ValidationError::OutOfRange,
            result is Err ==> final(self)@ == old(self)@,
    {
        if pick >= self.store.len() {
            return Err(ValidationError::OutOfRange);
        }
        self.store.reset_all_levels();
        self.store_changed = true;
        self.mode = Mode::Asking;
        self.current_word_index = pick;
        self.user_answer = String::new();
        self.feedback_message = String::new();
        Ok(())
    }

    /// Starts over after the quiz was completed: every word goes back to the
    /// lowest level, the list is due to be saved, and a word drawn at random
    /// is asked, each word of the list as likely as any other.
    pub fn replay(&mut self)
        requires
            old(self)@.wf(),
            old(self)@.mode == Mode::Completed,
        ensures
            final(self)@.wf(),
            final(self)@.current < old(self)@.words.len(),
            final(self)@ == old(self)@.after_replay(final(self)@.current),
    {
        let pick = random_index(self.store.len()).unwrap();
        self.replay_at(pick).unwrap()
    }

    /// Starts asking with the word at `pick`, with nothing typed and nothing
    /// said. Refused, with nothing changed, when there is no such word, as
    /// in an empty list.
    pub fn start_game_at(&mut self, pick: usize) -> (result: Result<(), ValidationError>)
        requires
            old(self)@.wf(),
        ensures
            final(self)@.wf(),
            result is Ok <==> pick < old(self)@.words.len(),
            result is Ok ==> final(self)@ == old(self)@.after_start(pick as nat),
            result is Err ==> result->Err_0 == ValidationError::OutOfRange,
            result is Err ==> final(self)@ == old(self)@,
    {
        if pick >= self.store.len() {
            return Err(ValidationError::OutOfRange);
        }
        self.mode = Mode::Asking;
        self.current_word_index = pick;
        self.user_answer = String::new();
        self.feedback_message = String::new();
        Ok(())
    }

    /// Starts asking with a word drawn at random, each word of the list as
    /// likely as any other. The list must hold a word.
    pub fn start_game(&mut self)
        requires
            old(self)@.wf(),
            old(self)@.words.len() > 0,
        ensures
            final(self)@.wf(),
            final(self)@.current < old(self)@.words.len(),
            final(self)@ == old(self)@.after_start(final(self)@.current),
    {
        let pick = random_index(self.store.len()).unwrap();
        self.start_game_at(pick).unwrap()
    }

    /// Selects the word at `index`; the list and what the quiz is doing stay
    /// as they are. While the quiz is completed, and where there is no such
    /// word, nothing changes.
    pub fn select_word(&mut self, index: usize)
        requires
            old(self)@.wf(),
        ensures
            final(self)@.wf(),
            final(self)@ == old(self)@.after_select(index as nat),
    {
        if self.mode != Mode::Completed && index < self.store.len() {
            self.current_word_index = index;
        }
    }

    /// Selects a word drawn at random, each word of the list as likely as
    /// any other; the list and what the quiz is doing stay as they are.
    /// Whatever index was selected before, one that names a word is selected
    /// afterwards. While the quiz is completed, and in an empty list, nothing
    /// changes.
    pub fn pick_random_word(&mut self)
        requires
            old(self)@.wf(),
        ensures
            final(self)@.wf(),
            final(self)@ == old(self)@.after_select(final(self)@.current),
            old(self)@.mode != Mode::Completed && old(self)@.words.len() > 0
                ==> final(self)@.current < final(self)@.words.len(),
            old(self)@.mode == Mode::Completed || old(self)@.words.len() == 0 ==> final(self)@
                == old(self)@,
    {
        if self.mode != Mode::Completed && self.store.len() > 0 {
            let index = random_index(self.store.len()).unwrap();
            self.select_word(index);
        }
    }

    /// Leaves the quiz to edit the list; nothing is typed or said any more.
    pub fn edit_words(&mut self)
        requires
            old(self)@.wf(),
        ensures
            final(self)@.wf(),
            final(self)@ == old(self)@.after_edit_words(),
    {
        self.mode = Mode::Collecting;
        self.user_answer = String::new();
        self.feedback_message = String::new();
    }

    /// Takes `text` as what the learner has typed as an answer; what was said
    /// after the last answer is gone.
    pub fn set_user_answer(&mut self, text: &str)
        requires
            old(self)@.wf(),
        ensures
            final(self)@.wf(),
            final(self)@ == old(self)@.after_typing(text@),
    {
        self.user_answer = String::from_str(text);
        self.feedback_message = String::new();
    }

    /// Tells whether the word list is due to be saved, and takes it as saved
    /// from now on.
    pub fn take_store_changed(&mut self) -> (changed: bool)
        requires
            old(self)@.wf(),
        ensures
            final(self)@.wf(),
            changed == old(self)@.store_changed,
            final(self)@ == old(self)@.after_save(),
    {
        let changed = self.store_changed;
        self.store_changed = false;
        changed
    }

    /// Whether the list is not empty and every word of it is mastered.
    pub fn all_words_mastered(&self) -> (mastered: bool)
        ensures
            mastered == all_mastered(self@.words),
    {
        self.store.is_mastered()
    }

    /// How far the learner is: the number of mastered words and the number of
    /// all words.
    pub fn progress(&self) -> (progress: Progress)
        ensures
            progress.mastered == mastered_count(self@.words),
            progress.total == self@.words.len(),
    {
        Progress { mastered: self.store.mastered_count(), total: self.store.len() }
    }

    /// The word that is being asked, while one is.
    pub fn current_word(&self) -> (word: Option<&Word>)
        requires
            self@.wf(),
        ensures
            word is Some <==> self@.mode == Mode::Asking,
            word is Some ==> word->Some_0@ == self@.current_word(),
    {
        if self.mode == Mode::Asking {
            self.store.get(self.current_word_index)
        } else {
            None
        }
    }

    /// A quiz over the given words, taken as they are, with nothing typed and
    /// no word asked.
    pub fn with_words(words: Vec<Word>) -> (app: App)
        ensures
            app@.wf(),
            app@ == AppView::initial(word_views(words@)),
    {
        App {
            mode: Mode::Collecting,
            store: WordStore::from_words(words),
            new_foreign: String::new(),
            new_translation: String::new(),
            current_word_index: 0,
            user_answer: String::new(),
            feedback_message: String::new(),
            store_changed: false,
        }
    }

    /// A quiz without words.
    pub fn new() -> (app: App)
        ensures
            app@.wf(),
            app@ == AppView::initial(Seq::empty()),
    {
        let words: Vec<Word> = Vec::new();
        assert(word_views(words@) =~= Seq::<WordView>::empty());
        App::with_words(words)
    }

    /// Takes `text` as the foreign text of the word to add.
    pub fn set_new_foreign(&mut self, text: &str)
        requires
            old(self)@.wf(),
        ensures
            final(self)@.wf(),
            final(self)@ == (AppView { new_foreign: text@, ..old(self)@ }),
    {
        self.new_foreign = String::from_str(text);
    }

    /// Takes `text` as the translation of the word to add.
    pub fn set_new_translation(&mut self, text: &str)
        requires
            old(self)@.wf(),
        ensures
            final(self)@.wf(),
            final(self)@ == (AppView { new_translation: text@, ..old(self)@ }),
    {
        self.new_translation = String::from_str(text);
    }

    /// What the quiz is doing.
    pub fn mode(&self) -> (mode: Mode)
        ensures
            mode == self@.mode,
    {
        self.mode
    }

    /// The word list, in order.
    pub fn words(&self) -> (words: &Vec<Word>)
        ensures
            word_views(words@) == self@.words,
    {
        self.store.words()
    }

    /// The index of the word that is being asked.
    pub fn current_word_index(&self) -> (index: usize)
        ensures
            index == self@.current,
    {
        self.current_word_index
    }

    /// What the learner has typed as an answer.
    pub fn user_answer(&self) -> (text: &str)
        ensures
            text@ == self@.user_answer,
    {
        self.user_answer.as_str()
    }

    /// What the learner was told after the last answer.
    pub fn feedback_message(&self) -> (text: &str)
        ensures
            text@ == self@.feedback,
    {
        self.feedback_message.as_str()
    }

    /// The foreign text typed for a new word.
    pub fn new_foreign(&self) -> (text: &str)
        ensures
            text@ == self@.new_foreign,
    {
        self.new_foreign.as_str()
    }

    /// The translation typed for a new word.
    pub fn new_translation(&self) -> (text: &str)
        ensures
            text@ == self@.new_translation,
    {
        self.new_translation.as_str()
    }

    /// Whether the word list has changed since it was last handed out for
    /// saving.
    pub fn store_changed(&self) -> (changed: bool)
        ensures
            changed == self@.store_changed,
    {
        self.store_changed
    }
}

} // verus!
