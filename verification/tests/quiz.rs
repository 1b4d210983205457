use woro::grade::Answer;
use woro::quiz::{App, ImportReport, PersistenceError, Progress};
use woro::state::Mode;
use woro::random::random_index;
use woro::store::ValidationError;
use woro::word::Word;

fn word(foreign: &str, translation: &str, level: u8) -> Word {
    Word { foreign: foreign.to_string(), translation: translation.to_string(), level }
}

fn levels(app: &App) -> Vec<u8> {
    app.words().iter().map(|w| w.level).collect()
}

#[test]
fn a_new_quiz_is_empty_and_collecting() {
    let app = App::new();
    assert_eq!(app.mode(), Mode::Collecting);
    assert!(app.words().is_empty());
    assert_eq!(app.current_word(), None);
    assert_eq!(app.current_word_index(), 0);
    assert_eq!(app.user_answer(), "");
    assert_eq!(app.feedback_message(), "");
    assert_eq!(app.new_foreign(), "");
    assert_eq!(app.new_translation(), "");
    assert!(!app.store_changed());
    assert!(!app.all_words_mastered());
    assert_eq!(app.progress(), Progress { mastered: 0, total: 0 });
}

#[test]
fn load_gives_back_the_saved_words_as_they_are() {
    let saved = vec![word("casa", "house", 3), word(" x ", "", 0), word("y", "z", 9)];
    let app = App::from_load(Ok(saved.clone()));
    assert_eq!(app.words(), &saved);
    assert_eq!(app.mode(), Mode::Collecting);
    assert!(!app.store_changed());
}

#[test]
fn load_that_failed_starts_with_an_empty_list() {
    for error in [PersistenceError::Parse, PersistenceError::Write, PersistenceError::Serialize] {
        let app = App::from_load(Err(error));
        assert!(app.words().is_empty());
        assert_eq!(app.mode(), Mode::Collecting);
    }
}

#[test]
fn load_of_an_empty_list_is_no_error() {
    let app = App::from_load(Ok(Vec::new()));
    assert!(app.words().is_empty());
}

#[test]
fn add_word_takes_the_typed_texts_and_clears_them() {
    let mut app = App::new();
    app.set_new_foreign(" casa ");
    app.set_new_translation("house\n");
    assert_eq!(app.new_foreign(), " casa ");
    assert_eq!(app.new_translation(), "house\n");
    assert_eq!(app.add_word(), Ok(()));
    assert_eq!(app.words(), &vec![word("casa", "house", 1)]);
    assert_eq!(app.new_foreign(), "");
    assert_eq!(app.new_translation(), "");
    assert!(app.store_changed());
    assert_eq!(app.mode(), Mode::Collecting);
}

#[test]
fn add_word_grows_the_list_by_exactly_one() {
    let mut app = App::with_words(vec![word("a", "1", 4), word("b", "2", 2)]);
    app.set_new_foreign("c");
    app.set_new_translation("3");
    assert_eq!(app.add_word(), Ok(()));
    assert_eq!(app.words().len(), 3);
    assert_eq!(app.words()[2], word("c", "3", 1));
    assert_eq!(levels(&app), vec![4, 2, 1]);
}

#[test]
fn add_word_with_a_blank_text_changes_nothing() {
    let mut app = App::new();
    app.set_new_foreign("casa");
    app.set_new_translation("   ");
    assert_eq!(app.add_word(), Err(ValidationError::Empty));
    assert!(app.words().is_empty());
    assert_eq!(app.new_foreign(), "casa");
    assert_eq!(app.new_translation(), "   ");
    assert!(!app.store_changed());
    app.set_new_foreign("");
    app.set_new_translation("house");
    assert_eq!(app.add_word(), Err(ValidationError::Empty));
    assert!(app.words().is_empty());
    assert!(!app.store_changed());
}

#[test]
fn delete_word_by_index() {
    let mut app = App::with_words(vec![word("a", "1", 1), word("b", "2", 1)]);
    assert_eq!(app.delete_word(0), Ok(()));
    assert_eq!(app.words(), &vec![word("b", "2", 1)]);
    assert!(app.take_store_changed());
    assert_eq!(app.delete_word(1), Err(ValidationError::OutOfRange));
    assert_eq!(app.words(), &vec![word("b", "2", 1)]);
    assert!(!app.store_changed());
}

#[test]
fn import_into_the_quiz_reports_the_counts() {
    let mut app = App::with_words(vec![word("gato", "cat", 2)]);
    let report = app.parse_txt_content("casa house\n# comment\n\nperro dog animal\nbad\n");
    assert_eq!(report, ImportReport { accepted: 2, rejected: 1 });
    assert_eq!(
        app.words(),
        &vec![word("gato", "cat", 2), word("casa", "house", 1), word("perro", "dog animal", 1)]
    );
    assert!(app.store_changed());
}

#[test]
fn import_that_gives_no_word_changes_nothing() {
    let mut app = App::with_words(vec![word("gato", "cat", 2)]);
    let report = app.parse_txt_content("# only a comment\nbad\n\n");
    assert_eq!(report, ImportReport { accepted: 0, rejected: 1 });
    assert_eq!(app.words(), &vec![word("gato", "cat", 2)]);
    assert!(!app.store_changed());
}

#[test]
fn the_change_flag_is_taken_once() {
    let mut app = App::new();
    assert!(!app.take_store_changed());
    app.set_new_foreign("a");
    app.set_new_translation("b");
    assert_eq!(app.add_word(), Ok(()));
    assert!(app.take_store_changed());
    assert!(!app.take_store_changed());
    assert!(!app.store_changed());
}

#[test]
fn start_needs_a_word_to_ask() {
    let mut app = App::new();
    assert_eq!(app.start_game_at(0), Err(ValidationError::OutOfRange));
    assert_eq!(app.mode(), Mode::Collecting);
    let mut app = App::with_words(vec![word("a", "1", 1), word("b", "2", 1)]);
    assert_eq!(app.start_game_at(2), Err(ValidationError::OutOfRange));
    assert_eq!(app.mode(), Mode::Collecting);
    assert_eq!(app.start_game_at(1), Ok(()));
    assert_eq!(app.mode(), Mode::Asking);
    assert_eq!(app.current_word_index(), 1);
    assert_eq!(app.current_word(), Some(&word("b", "2", 1)));
    assert!(!app.store_changed());
}

#[test]
fn start_clears_what_was_typed_and_said() {
    let mut app = App::with_words(vec![word("a", "1", 1), word("b", "2", 1)]);
    assert_eq!(app.start_game_at(0), Ok(()));
    assert_eq!(app.submit_answer("nope", 1).map(|a| a.correct), Ok(false));
    assert_ne!(app.feedback_message(), "");
    app.edit_words();
    app.set_user_answer("typed");
    assert_eq!(app.start_game_at(1), Ok(()));
    assert_eq!(app.user_answer(), "");
    assert_eq!(app.feedback_message(), "");
}

#[test]
fn start_at_random_asks_a_word_of_the_list() {
    for _ in 0..50 {
        let mut app =
            App::with_words(vec![word("a", "1", 1), word("b", "2", 1), word("c", "3", 1)]);
        app.start_game();
        assert_eq!(app.mode(), Mode::Asking);
        assert!(app.current_word_index() < 3);
        assert!(app.current_word().is_some());
    }
}

#[test]
fn typing_an_answer_clears_the_feedback() {
    let mut app = App::with_words(vec![word("a", "1", 1), word("b", "2", 1)]);
    assert_eq!(app.start_game_at(0), Ok(()));
    assert!(app.submit_answer("wrong", 0).is_ok());
    assert_eq!(app.feedback_message(), "❌ WRONG! Correct answer: 1 (Level: 1 → 1)");
    app.set_user_answer("1");
    assert_eq!(app.user_answer(), "1");
    assert_eq!(app.feedback_message(), "");
}

#[test]
fn submit_right_answer_raises_the_level_and_moves_on() {
    let mut app = App::with_words(vec![word("casa", "house", 2), word("perro", "dog", 1)]);
    assert_eq!(app.start_game_at(0), Ok(()));
    let answer = app.submit_answer("House", 1);
    assert_eq!(
        answer,
        Ok(Answer {
            correct: true,
            old_level: 2,
            new_level: 3,
            feedback: "✅ CORRECT! Level: 2 → 3".to_string(),
        })
    );
    assert_eq!(levels(&app), vec![3, 1]);
    assert_eq!(app.mode(), Mode::Asking);
    assert_eq!(app.current_word_index(), 1);
    assert_eq!(app.feedback_message(), "✅ CORRECT! Level: 2 → 3");
    assert_eq!(app.user_answer(), "");
    assert!(app.store_changed());
}

#[test]
fn submit_wrong_answer_lowers_the_level_and_reveals_the_translation() {
    let mut app = App::with_words(vec![word("casa", "house", 2), word("perro", "dog", 1)]);
    assert_eq!(app.start_game_at(0), Ok(()));
    let answer = app.submit_answer("gato", 0).unwrap();
    assert!(!answer.correct);
    assert_eq!(answer.feedback, "❌ WRONG! Correct answer: house (Level: 2 → 1)");
    assert_eq!(levels(&app), vec![1, 1]);
    assert_eq!(app.current_word_index(), 0);
    assert_eq!(app.feedback_message(), answer.feedback);
    assert!(app.store_changed());
}

#[test]
fn submit_saves_even_when_the_level_stays() {
    let mut app = App::with_words(vec![word("casa", "house", 1), word("perro", "dog", 1)]);
    assert_eq!(app.start_game_at(0), Ok(()));
    assert!(app.submit_answer("gato", 1).is_ok());
    assert_eq!(levels(&app), vec![1, 1]);
    assert!(app.store_changed());
}

#[test]
fn submit_refuses_a_next_word_that_is_not_there() {
    let mut app = App::with_words(vec![word("casa", "house", 2)]);
    assert_eq!(app.start_game_at(0), Ok(()));
    assert_eq!(app.submit_answer("house", 1), Err(ValidationError::OutOfRange));
    assert_eq!(levels(&app), vec![2]);
    assert_eq!(app.mode(), Mode::Asking);
    assert!(!app.store_changed());
}

#[test]
fn the_same_word_may_be_asked_again_at_once() {
    let mut app = App::with_words(vec![word("casa", "house", 1), word("perro", "dog", 1)]);
    assert_eq!(app.start_game_at(0), Ok(()));
    assert!(app.submit_answer("house", 0).is_ok());
    assert_eq!(app.current_word_index(), 0);
    assert!(app.submit_answer("house", 0).is_ok());
    assert_eq!(levels(&app), vec![3, 1]);
}

#[test]
fn the_last_right_answer_completes_the_quiz() {
    let mut app = App::with_words(vec![word("casa", "house", 5), word("perro", "dog", 4)]);
    assert_eq!(app.start_game_at(1), Ok(()));
    app.set_user_answer("dog");
    let answer = app.submit_answer("dog", 0).unwrap();
    assert!(answer.correct);
    assert_eq!(answer.feedback, "✅ CORRECT! Level: 4 → 5");
    assert_eq!(app.mode(), Mode::Completed);
    assert!(app.all_words_mastered());
    assert_eq!(levels(&app), vec![5, 5]);
    assert_eq!(app.feedback_message(), "");
    assert_eq!(app.user_answer(), "");
    assert_eq!(app.current_word(), None);
    assert!(app.store_changed());
}

#[test]
fn no_word_is_selected_while_the_quiz_is_completed() {
    let mut app = App::with_words(vec![word("casa", "house", 5), word("perro", "dog", 4)]);
    assert_eq!(app.start_game_at(1), Ok(()));
    assert!(app.submit_answer("dog", 0).is_ok());
    assert_eq!(app.mode(), Mode::Completed);
    let index = app.current_word_index();
    app.select_word(0);
    assert_eq!(app.current_word_index(), index);
    for _ in 0..20 {
        app.pick_random_word();
        assert_eq!(app.current_word_index(), index);
        assert_eq!(app.mode(), Mode::Completed);
        assert_eq!(app.current_word(), None);
    }
}

#[test]
fn a_quiz_of_mastered_words_completes_on_the_next_answer() {
    let mut app = App::with_words(vec![word("casa", "house", 5)]);
    assert_eq!(app.start_game_at(0), Ok(()));
    assert_eq!(app.mode(), Mode::Asking);
    let answer = app.submit_answer("house", 0).unwrap();
    assert_eq!(answer.feedback, "✅ CORRECT! Already mastered!");
    assert_eq!(app.mode(), Mode::Completed);
}

#[test]
fn a_wrong_answer_on_a_mastered_word_keeps_the_quiz_going() {
    let mut app = App::with_words(vec![word("casa", "house", 5)]);
    assert_eq!(app.start_game_at(0), Ok(()));
    assert!(app.submit_answer("gato", 0).is_ok());
    assert_eq!(levels(&app), vec![4]);
    assert_eq!(app.mode(), Mode::Asking);
}

#[test]
fn replay_resets_every_level_and_asks_again() {
    let mut app = App::with_words(vec![word("casa", "house", 5), word("perro", "dog", 4)]);
    assert_eq!(app.start_game_at(1), Ok(()));
    assert!(app.submit_answer("dog", 0).is_ok());
    assert!(app.take_store_changed());
    assert_eq!(app.replay_at(2), Err(ValidationError::OutOfRange));
    assert_eq!(app.mode(), Mode::Completed);
    assert_eq!(levels(&app), vec![5, 5]);
    assert_eq!(app.replay_at(1), Ok(()));
    assert_eq!(app.mode(), Mode::Asking);
    assert_eq!(levels(&app), vec![1, 1]);
    assert_eq!(app.current_word_index(), 1);
    assert_eq!(app.current_word(), Some(&word("perro", "dog", 1)));
    assert_eq!(app.feedback_message(), "");
    assert_eq!(app.user_answer(), "");
    assert!(app.store_changed());
}

#[test]
fn replay_at_random_asks_a_word_of_the_list() {
    for _ in 0..50 {
        let mut app = App::with_words(vec![word("casa", "house", 5), word("perro", "dog", 4)]);
        assert_eq!(app.start_game_at(1), Ok(()));
        assert!(app.submit_answer("dog", 0).is_ok());
        app.replay();
        assert_eq!(app.mode(), Mode::Asking);
        assert_eq!(levels(&app), vec![1, 1]);
        assert!(app.current_word_index() < 2);
    }
}

#[test]
fn check_answer_takes_what_was_typed() {
    let mut app = App::with_words(vec![word("casa", "house", 2), word("perro", "house", 2)]);
    app.start_game();
    let asked = app.current_word_index();
    app.set_user_answer("  HOUSE ");
    let answer = app.check_answer();
    assert!(answer.correct);
    assert_eq!(answer.feedback, "✅ CORRECT! Level: 2 → 3");
    assert_eq!(app.words()[asked].level, 3);
    assert_eq!(app.words()[1 - asked].level, 2);
    assert_eq!(app.mode(), Mode::Asking);
    assert!(app.current_word_index() < 2);
    assert_eq!(app.user_answer(), "");
    assert_eq!(app.feedback_message(), "✅ CORRECT! Level: 2 → 3");
    assert!(app.store_changed());
}

#[test]
fn check_answer_until_every_word_is_mastered() {
    let mut app = App::with_words(vec![word("casa", "house", 1), word("perro", "dog", 3)]);
    app.start_game();
    let mut rounds = 0;
    while app.mode() == Mode::Asking {
        let translation = app.current_word().unwrap().translation.clone();
        app.set_user_answer(&translation);
        let answer = app.check_answer();
        assert!(answer.correct);
        rounds += 1;
        assert!(rounds < 10_000);
        for w in app.words() {
            assert!(1 <= w.level && w.level <= 5);
        }
    }
    assert_eq!(app.mode(), Mode::Completed);
    assert_eq!(levels(&app), vec![5, 5]);
    assert!(rounds >= 6);
    assert_eq!(app.progress(), Progress { mastered: 2, total: 2 });
}

#[test]
fn pick_random_word_stays_inside_the_list() {
    let mut app = App::with_words(vec![word("a", "1", 1), word("b", "2", 1), word("c", "3", 1)]);
    let mut seen = [false; 3];
    for _ in 0..500 {
        app.pick_random_word();
        assert_eq!(app.mode(), Mode::Collecting);
        assert!(app.current_word_index() < 3);
        seen[app.current_word_index()] = true;
    }
    assert_eq!(seen, [true, true, true]);
    assert_eq!(app.start_game_at(2), Ok(()));
    let mut seen = [false; 3];
    for _ in 0..500 {
        app.pick_random_word();
        assert_eq!(app.mode(), Mode::Asking);
        assert!(app.current_word_index() < 3);
        seen[app.current_word_index()] = true;
    }
    assert_eq!(seen, [true, true, true]);
    assert_eq!(app.words().len(), 3);
    assert!(!app.store_changed());
}

#[test]
fn pick_random_word_mends_an_index_left_past_the_end() {
    for _ in 0..50 {
        let mut app =
            App::with_words(vec![word("a", "1", 1), word("b", "2", 1), word("c", "3", 1)]);
        assert_eq!(app.start_game_at(2), Ok(()));
        assert_eq!(app.delete_word(2), Ok(()));
        assert_eq!(app.delete_word(0), Ok(()));
        assert_eq!(app.mode(), Mode::Collecting);
        assert_eq!(app.current_word_index(), 2);
        app.pick_random_word();
        assert_eq!(app.current_word_index(), 0);
        assert_eq!(app.mode(), Mode::Collecting);
        assert_eq!(app.words(), &vec![word("b", "2", 1)]);
    }
}

#[test]
fn pick_random_word_in_an_empty_list_changes_nothing() {
    let mut app = App::with_words(vec![word("a", "1", 1)]);
    assert_eq!(app.delete_word(0), Ok(()));
    app.pick_random_word();
    assert_eq!(app.current_word_index(), 0);
    assert_eq!(app.mode(), Mode::Collecting);
    assert!(app.words().is_empty());
}

#[test]
fn select_word_selects_only_words_that_are_there() {
    let mut app = App::with_words(vec![word("a", "1", 1), word("b", "2", 1)]);
    app.select_word(1);
    assert_eq!(app.current_word_index(), 1);
    assert_eq!(app.mode(), Mode::Collecting);
    app.select_word(2);
    assert_eq!(app.current_word_index(), 1);
    assert_eq!(app.start_game_at(0), Ok(()));
    app.select_word(1);
    assert_eq!(app.current_word_index(), 1);
    assert_eq!(app.mode(), Mode::Asking);
    app.select_word(2);
    assert_eq!(app.current_word_index(), 1);
}

#[test]
fn deleting_a_word_ends_the_round() {
    let mut app = App::with_words(vec![word("a", "1", 1), word("b", "2", 1)]);
    assert_eq!(app.start_game_at(1), Ok(()));
    assert_eq!(app.delete_word(1), Ok(()));
    assert_eq!(app.mode(), Mode::Collecting);
    assert_eq!(app.current_word(), None);
    assert_eq!(app.start_game_at(0), Ok(()));
    app.edit_words();
    assert_eq!(app.mode(), Mode::Collecting);
    assert_eq!(app.words().len(), 1);
}

#[test]
fn adding_a_word_leaves_the_round_running() {
    let mut app = App::with_words(vec![word("a", "1", 3), word("b", "2", 1)]);
    assert_eq!(app.start_game_at(1), Ok(()));
    app.set_user_answer("typed");
    app.set_new_foreign("c");
    app.set_new_translation("3");
    assert_eq!(app.add_word(), Ok(()));
    assert_eq!(app.mode(), Mode::Asking);
    assert_eq!(app.current_word_index(), 1);
    assert_eq!(app.current_word(), Some(&word("b", "2", 1)));
    assert_eq!(app.user_answer(), "typed");
    assert_eq!(app.words(), &vec![word("a", "1", 3), word("b", "2", 1), word("c", "3", 1)]);
    assert!(app.store_changed());
}

#[test]
fn importing_words_leaves_the_round_running() {
    let mut app = App::with_words(vec![word("a", "1", 3), word("b", "2", 1)]);
    assert_eq!(app.start_game_at(0), Ok(()));
    let report = app.parse_txt_content("c 3\nd 4\n");
    assert_eq!(report, ImportReport { accepted: 2, rejected: 0 });
    assert_eq!(app.mode(), Mode::Asking);
    assert_eq!(app.current_word_index(), 0);
    assert_eq!(app.words().len(), 4);
    assert_eq!(app.words()[0], word("a", "1", 3));
    assert_eq!(app.words()[1], word("b", "2", 1));
}

#[test]
fn new_words_end_a_completed_quiz() {
    let mut app = App::with_words(vec![word("a", "1", 5), word("b", "2", 4)]);
    assert_eq!(app.start_game_at(1), Ok(()));
    assert!(app.submit_answer("2", 0).is_ok());
    assert_eq!(app.mode(), Mode::Completed);
    app.set_new_foreign("c");
    app.set_new_translation("3");
    assert_eq!(app.add_word(), Ok(()));
    assert_eq!(app.mode(), Mode::Collecting);
    assert!(!app.all_words_mastered());

    let mut app = App::with_words(vec![word("a", "1", 5)]);
    assert_eq!(app.start_game_at(0), Ok(()));
    assert!(app.submit_answer("1", 0).is_ok());
    assert_eq!(app.mode(), Mode::Completed);
    assert_eq!(app.parse_txt_content("bad\n"), ImportReport { accepted: 0, rejected: 1 });
    assert_eq!(app.mode(), Mode::Completed);
    assert_eq!(app.parse_txt_content("c 3\n"), ImportReport { accepted: 1, rejected: 0 });
    assert_eq!(app.mode(), Mode::Collecting);
}

#[test]
fn progress_counts_mastered_words() {
    let app = App::with_words(vec![word("a", "1", 5), word("b", "2", 4), word("c", "3", 5)]);
    assert_eq!(app.progress(), Progress { mastered: 2, total: 3 });
    assert!(!app.all_words_mastered());
}

#[test]
fn random_index_is_below_the_bound() {
    assert_eq!(random_index(0), None);
    assert_eq!(random_index(1), Some(0));
    let mut seen = [false; 4];
    for _ in 0..1000 {
        let index = random_index(4).unwrap();
        assert!(index < 4);
        seen[index] = true;
    }
    assert_eq!(seen, [true, true, true, true]);
}

#[test]
fn record_answer_moves_the_level_as_told() {
    let mut app = App::with_words(vec![word("casa", "house", 2), word("perro", "dog", 1)]);
    assert_eq!(app.start_game_at(0), Ok(()));
    let right = app.record_answer(true, 0).unwrap();
    assert_eq!(right.feedback, "✅ CORRECT! Level: 2 → 3");
    assert_eq!(levels(&app), vec![3, 1]);
    let wrong = app.record_answer(false, 1).unwrap();
    assert_eq!(wrong.feedback, "❌ WRONG! Correct answer: house (Level: 3 → 2)");
    assert_eq!(levels(&app), vec![2, 1]);
    assert_eq!(app.current_word_index(), 1);
    assert_eq!(app.record_answer(true, 2), Err(ValidationError::OutOfRange));
    assert_eq!(levels(&app), vec![2, 1]);
}

#[test]
fn record_answer_completes_the_quiz_with_the_last_word() {
    let mut app = App::with_words(vec![word("casa", "house", 5), word("perro", "dog", 4)]);
    assert_eq!(app.start_game_at(1), Ok(()));
    assert!(app.record_answer(true, 0).is_ok());
    assert_eq!(app.mode(), Mode::Completed);
    assert_eq!(app.feedback_message(), "");
    assert_eq!(app.current_word_index(), 1);
}
