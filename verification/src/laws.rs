//! What holds of the vocabulary drill whatever the words and the answers
//! are.

use vstd::prelude::*;
use crate::grade::{feedback_for, is_correct, next_level};
use crate::import::{import, lemma_import_words_valid};
use crate::state::{AppView, Mode};
use crate::text::{lemma_trim_idempotent, lines, trim};
use crate::word::{
    all_levels_in_range, all_mastered, all_valid, blank, reset_levels, typed_word, WordView,
    MAX_LEVEL, MIN_LEVEL,
};

verus! {

/// The word after a sequence of answers, each judged against the word as the
/// answers before it left it.
pub open spec fn after_answers(word: WordView, answers: Seq<Seq<char>>) -> WordView
    decreases answers.len(),
{
    if answers.len() == 0 {
        word
    } else {
        let before = after_answers(word, answers.drop_last());
        before.with_level(next_level(before.level, is_correct(before, answers.last())))
    }
}

/// Adding a word whose two texts are not blank makes the list longer by
/// exactly one word, and the new word, which stands last, is valid and at the
/// lowest level. The words that were there keep their places, the selected
/// index stays, and so does what the quiz is doing, unless it was completed.
pub proof fn lemma_add_appends_one_word(state: AppView)
    requires
        state.can_add(),
    ensures
        state.after_add().words.len() == state.words.len() + 1,
        state.after_add().words.last().level == MIN_LEVEL,
        state.after_add().words.last().valid(),
        state.after_add().words.drop_last() == state.words,
        state.after_add().current == state.current,
        state.mode != Mode::Completed ==> state.after_add().mode == state.mode,
        trim(state.new_foreign) == state.new_foreign ==> state.after_add().words.last().foreign
            == state.new_foreign,
        trim(state.new_translation) == state.new_translation
            ==> state.after_add().words.last().translation == state.new_translation,
{
    assert(state.after_add().words.drop_last() =~= state.words);
}

/// The word that two typed texts make is trimmed: typing its texts again
/// makes the same word. Where neither text is blank the word is valid.
pub proof fn lemma_typed_word_is_trimmed(foreign: Seq<char>, translation: Seq<char>)
    ensures
        typed_word(
            typed_word(foreign, translation).foreign,
            typed_word(foreign, translation).translation,
        ) == typed_word(foreign, translation),
        !blank(foreign) && !blank(translation) ==> typed_word(foreign, translation).valid(),
{
    lemma_trim_idempotent(foreign);
    lemma_trim_idempotent(translation);
}

/// One answer, right or wrong, leaves a level that was between the lowest and
/// the highest level between them.
pub proof fn lemma_next_level_in_range(level: nat, correct: bool)
    requires
        MIN_LEVEL <= level <= MAX_LEVEL,
    ensures
        MIN_LEVEL <= next_level(level, correct) <= MAX_LEVEL,
{
}

/// Whatever is answered to a word, and however often, its texts never
/// change, and a level that was between the lowest and the highest level
/// stays between them.
pub proof fn lemma_answers_keep_level_in_range(word: WordView, answers: Seq<Seq<char>>)
    ensures
        after_answers(word, answers).foreign == word.foreign,
        after_answers(word, answers).translation == word.translation,
        word.level_in_range() ==> after_answers(word, answers).level_in_range(),
        word.valid() ==> after_answers(word, answers).valid(),
    decreases answers.len(),
{
    if answers.len() > 0 {
        lemma_answers_keep_level_in_range(word, answers.drop_last());
    }
}

/// An answer in the quiz leaves the list as long as it was, and leaves every
/// level between the lowest and the highest level if every level was there
/// before. No text changes, so that valid words stay valid.
pub proof fn lemma_answer_keeps_levels_in_range(state: AppView, text: Seq<char>, next: nat)
    requires
        state.wf(),
        state.mode == Mode::Asking,
    ensures
        state.after_answer(text, next).words.len() == state.words.len(),
        all_levels_in_range(state.words) ==> all_levels_in_range(
            state.after_answer(text, next).words,
        ),
        all_valid(state.words) ==> all_valid(state.after_answer(text, next).words),
{
    let after = state.after_answer(text, next).words;
    assert(after == state.graded_words(is_correct(state.current_word(), text)));
    if all_levels_in_range(state.words) {
        assert forall|i: int| 0 <= i < after.len() implies (
        #[trigger] after[i]).level_in_range() by {
            assert(state.words[i].level_in_range());
        }
    }
    if all_valid(state.words) {
        assert forall|i: int| 0 <= i < after.len() implies (#[trigger] after[i]).valid() by {
            assert(state.words[i].valid());
        }
    }
}

/// The state after a sequence of rounds, each an answer with the index of
/// the word to ask next. A round counts only while a word is being asked and
/// the index names a word; otherwise it changes nothing.
pub open spec fn after_rounds(state: AppView, rounds: Seq<(Seq<char>, nat)>) -> AppView
    decreases rounds.len(),
{
    if rounds.len() == 0 {
        state
    } else {
        let before = after_rounds(state, rounds.drop_last());
        let (text, next) = rounds.last();
        if before.mode == Mode::Asking && next < before.words.len() {
            before.after_answer(text, next)
        } else {
            before
        }
    }
}

/// Whatever is answered, and however often, a well-formed quiz stays well
/// formed and its list keeps its length. If every level was between the
/// lowest and the highest level, every level stays there, whatever the texts
/// of the words are; and valid words stay valid.
pub proof fn lemma_rounds_keep_levels_in_range(state: AppView, rounds: Seq<(Seq<char>, nat)>)
    requires
        state.wf(),
    ensures
        after_rounds(state, rounds).wf(),
        after_rounds(state, rounds).words.len() == state.words.len(),
        all_levels_in_range(state.words) ==> all_levels_in_range(
            after_rounds(state, rounds).words,
        ),
        all_valid(state.words) ==> all_valid(after_rounds(state, rounds).words),
    decreases rounds.len(),
{
    if rounds.len() > 0 {
        let before = after_rounds(state, rounds.drop_last());
        let (text, next) = rounds.last();
        lemma_rounds_keep_levels_in_range(state, rounds.drop_last());
        if before.mode == Mode::Asking && next < before.words.len() {
            lemma_answer_keeps_levels_in_range(before, text, next);
        }
    }
}

/// Editing the list leaves a list of valid words a list of valid words:
/// adding the word typed, deleting a word, and reading a word list.
pub proof fn lemma_edits_keep_words_valid(state: AppView, index: nat, content: Seq<char>)
    requires
        all_valid(state.words),
    ensures
        all_valid(state.after_add().words),
        all_valid(state.after_delete(index).words),
        all_valid(state.after_import(import(content)).words),
{
    let added = state.after_add().words;
    assert forall|i: int| 0 <= i < added.len() implies (#[trigger] added[i]).valid() by {
        if i < state.words.len() {
            assert(state.words[i].valid());
        }
    }
    let deleted = state.after_delete(index).words;
    assert forall|i: int| 0 <= i < deleted.len() implies (#[trigger] deleted[i]).valid() by {
        if index < state.words.len() {
            if i < index {
                assert(state.words[i].valid());
            } else {
                assert(state.words[i + 1].valid());
            }
        } else {
            assert(state.words[i].valid());
        }
    }
    lemma_import_words_valid(lines(content));
    let read = import(content).words;
    let imported = state.after_import(import(content)).words;
    assert forall|i: int| 0 <= i < imported.len() implies (#[trigger] imported[i]).valid() by {
        if i < state.words.len() {
            assert(state.words[i].valid());
        } else {
            assert(read[i - state.words.len()].valid());
        }
    }
}

/// Starting over leaves a list of valid words a list of valid words.
pub proof fn lemma_replay_keeps_words_valid(state: AppView, pick: nat)
    requires
        all_valid(state.words),
    ensures
        all_valid(state.after_replay(pick).words),
{
    let after = state.after_replay(pick).words;
    assert forall|i: int| 0 <= i < after.len() implies (#[trigger] after[i]).valid() by {
        assert(state.words[i].valid());
    }
}

/// The right answer to a word that is at the highest level leaves it there,
/// and is still reported as right.
pub proof fn lemma_right_answer_at_top_level(word: WordView, text: Seq<char>)
    requires
        word.level == MAX_LEVEL,
        is_correct(word, text),
    ensures
        next_level(word.level, is_correct(word, text)) == MAX_LEVEL,
        feedback_for(word, is_correct(word, text)) == "✅ CORRECT! Already mastered!"@,
{
}

/// An empty list is never mastered; a list whose levels lie between the
/// lowest and the highest level is mastered exactly when it is not empty and
/// every word is at the highest level.
pub proof fn lemma_mastered_iff_all_at_top_level(words: Seq<WordView>)
    requires
        all_levels_in_range(words),
    ensures
        words.len() == 0 ==> !all_mastered(words),
        all_mastered(words) <==> words.len() > 0 && forall|i: int|
            0 <= i < words.len() ==> (#[trigger] words[i]).level == MAX_LEVEL,
{
    if all_mastered(words) {
        assert forall|i: int| 0 <= i < words.len() implies (#[trigger] words[i]).level
            == MAX_LEVEL by {
            assert(words[i].level_in_range());
            assert(words[i].mastered());
        }
    }
    if words.len() > 0 && (forall|i: int|
        0 <= i < words.len() ==> (#[trigger] words[i]).level == MAX_LEVEL) {
        assert forall|i: int| 0 <= i < words.len() implies (#[trigger] words[i]).mastered() by {
            assert(words[i].level == MAX_LEVEL);
        }
    }
}

/// When every other word is mastered and the right answer takes the word that
/// is being asked to the highest level, the quiz is completed: every word is
/// mastered, nothing is typed or said, and selecting a word changes nothing
/// any more.
pub proof fn lemma_last_right_answer_completes(
    state: AppView,
    text: Seq<char>,
    next: nat,
    index: nat,
)
    requires
        state.wf(),
        state.mode == Mode::Asking,
        is_correct(state.current_word(), text),
        next_level(state.current_word().level, true) >= MAX_LEVEL,
        forall|i: int|
            0 <= i < state.words.len() && i != state.current ==> (
            #[trigger] state.words[i]).mastered(),
    ensures
        state.after_answer(text, next).mode == Mode::Completed,
        all_mastered(state.after_answer(text, next).words),
        state.after_answer(text, next).wf(),
        state.after_answer(text, next).after_select(index) == state.after_answer(text, next),
{
    let words = state.graded_words(true);
    assert forall|i: int| 0 <= i < words.len() implies (#[trigger] words[i]).mastered() by {
        if i != state.current {
            assert(state.words[i].mastered());
        }
    }
}

/// While the quiz is completed, selecting a word changes nothing.
pub proof fn lemma_no_selection_while_completed(state: AppView, index: nat)
    requires
        state.mode == Mode::Completed,
    ensures
        state.after_select(index) == state,
{
}

/// While the quiz is not completed, selecting a word of the list makes its
/// index the selected one, whatever index was selected before, and changes
/// neither the list nor what the quiz is doing.
pub proof fn lemma_selection_names_a_word(state: AppView, index: nat)
    requires
        state.mode != Mode::Completed,
        index < state.words.len(),
    ensures
        state.after_select(index).current == index,
        state.after_select(index).current < state.after_select(index).words.len(),
        state.after_select(index).words == state.words,
        state.after_select(index).mode == state.mode,
{
}

/// Starting over puts every word at the lowest level, leaves the texts and
/// the order of the words as they are, and asks the word that was picked.
pub proof fn lemma_replay_resets_every_level(state: AppView, pick: nat)
    requires
        state.wf(),
        state.mode == Mode::Completed,
        pick < state.words.len(),
    ensures
        state.after_replay(pick).wf(),
        state.after_replay(pick).mode == Mode::Asking,
        state.after_replay(pick).current == pick,
        state.after_replay(pick).words.len() == state.words.len(),
        forall|i: int|
            0 <= i < state.words.len() ==> (#[trigger] state.after_replay(pick).words[i])
                == state.words[i].with_level(MIN_LEVEL as nat),
        forall|i: int|
            0 <= i < state.words.len() ==> (#[trigger] state.after_replay(pick).words[i]).level
                == MIN_LEVEL,
{
    assert(state.after_replay(pick).words == reset_levels(state.words));
}

/// Every step leaves a well-formed quiz well formed: editing the list,
/// typing, starting, selecting, answering and starting over.
pub proof fn lemma_steps_keep_well_formed(
    state: AppView,
    index: nat,
    pick: nat,
    text: Seq<char>,
    content: Seq<char>,
)
    requires
        state.wf(),
    ensures
        state.after_add().wf(),
        state.after_delete(index).wf(),
        state.after_import(import(content)).wf(),
        state.after_edit_words().wf(),
        state.after_typing(text).wf(),
        state.after_save().wf(),
        state.after_select(index).wf(),
        pick < state.words.len() ==> state.after_start(pick).wf(),
        state.mode == Mode::Asking && pick < state.words.len() ==> state.after_answer(
            text,
            pick,
        ).wf(),
        state.mode == Mode::Completed && pick < state.words.len() ==> state.after_replay(
            pick,
        ).wf(),
{
}

/// Whenever a step changes the word list, the list is due to be saved
/// afterwards; an answer leaves it due to be saved even where no level moves.
pub proof fn lemma_changed_list_is_due_to_be_saved(
    state: AppView,
    index: nat,
    pick: nat,
    text: Seq<char>,
    content: Seq<char>,
)
    ensures
        state.after_add().words != state.words ==> state.after_add().store_changed,
        state.after_delete(index).words != state.words ==> state.after_delete(
            index,
        ).store_changed,
        state.after_import(import(content)).words != state.words ==> state.after_import(
            import(content),
        ).store_changed,
        state.after_answer(text, pick).store_changed,
        state.after_replay(pick).store_changed,
        state.after_edit_words().words == state.words,
        state.after_typing(text).words == state.words,
        state.after_start(pick).words == state.words,
        state.after_select(index).words == state.words,
{
}

} // verus!
