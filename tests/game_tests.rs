use typing_game::game::{
    FieldState, Game, GameConf, GameError, GameMode, GameStat, Letter, Limit,
};

fn game_over(text: &str, limit: Limit) -> Game {
    Game {
        correct_text: text.chars().collect(),
        written_vec: Vec::new(),
        statistics: GameStat::new(),
        game_conf: GameConf {
            mode: GameMode::Normal,
            limit,
        },
    }
}

fn type_text(game: &mut Game, typed: &str) {
    for c in typed.chars() {
        game.char_key_pressed(c);
    }
}

fn letter(c: char, state: FieldState) -> Letter {
    Letter { c, state }
}

#[test]
fn match_all_correct() {
    let mut test_game = Game {
        correct_text: "ccccc".chars().collect(),
        written_vec: Vec::new(),
        statistics: GameStat::new(),
        game_conf: GameConf {
            mode: GameMode::Normal,
            limit: Limit::Unbounded,
        },
    };
    let written_text: Vec<char> = "ccccc".chars().collect();
    for c in written_text {
        test_game.char_key_pressed(c);
    }
    let answer = vec![
        letter('c', FieldState::Correct),
        letter('c', FieldState::Correct),
        letter('c', FieldState::Correct),
        letter('c', FieldState::Correct),
        letter('c', FieldState::Correct),
    ];
    assert_eq!(test_game.get_written_vec(), answer);
}

#[test]
fn match_all_wrong() {
    let mut test_game = Game {
        correct_text: "wwwww".chars().collect(),
        written_vec: Vec::new(),
        statistics: GameStat::new(),
        game_conf: GameConf {
            mode: GameMode::Normal,
            limit: Limit::Unbounded,
        },
    };
    let written_text: Vec<char> = "-----".chars().collect();
    for c in written_text {
        test_game.char_key_pressed(c);
    }
    let answer = vec![
        letter('w', FieldState::Wrong),
        letter('w', FieldState::Wrong),
        letter('w', FieldState::Wrong),
        letter('w', FieldState::Wrong),
        letter('w', FieldState::Wrong),
    ];
    assert_eq!(test_game.get_written_vec(), answer);
}

#[test]
fn match_mixed() {
    let mut test_game = Game {
        correct_text: "ccwcu".chars().collect(),
        written_vec: Vec::new(),
        statistics: GameStat::new(),
        game_conf: GameConf {
            mode: GameMode::Normal,
            limit: Limit::Unbounded,
        },
    };
    let written_text: Vec<char> = "cc-c".chars().collect();
    for c in written_text {
        test_game.char_key_pressed(c);
    }
    let answer = vec![
        letter('c', FieldState::Correct),
        letter('c', FieldState::Correct),
        letter('w', FieldState::Wrong),
        letter('c', FieldState::Correct),
        letter('u', FieldState::Unfilled),
    ];
    assert_eq!(test_game.get_written_vec(), answer);
}

#[test]
fn get_correct_words_test() {
    let mut test_game = Game {
        correct_text: "cc cc cc cc".chars().collect(),
        written_vec: Vec::new(),
        statistics: GameStat::new(),
        game_conf: GameConf {
            mode: GameMode::Normal,
            limit: Limit::Unbounded,
        },
    };
    let written_text: Vec<char> = "ccuuc cc cc".chars().collect();
    for c in written_text {
        test_game.char_key_pressed(c);
    }
    assert_eq!(test_game.get_correct_words_count(), 2);
}

#[test]
fn get_total_words_test() {
    let mut test_game = Game {
        correct_text: "cc cc cc cc".chars().collect(),
        written_vec: Vec::new(),
        statistics: GameStat::new(),
        game_conf: GameConf {
            mode: GameMode::Normal,
            limit: Limit::Unbounded,
        },
    };
    let written_text: Vec<char> = "ccuuc cc cc".chars().collect();
    for c in written_text {
        test_game.char_key_pressed(c);
    }
    assert_eq!(test_game.get_total_words_count(), 4);
}

#[test]
fn history_never_outgrows_reference() {
    let mut game = game_over("ab c", Limit::Unbounded);
    for c in "xbyz".chars() {
        assert!(game.written_vec.len() < game.correct_text.len());
        game.char_key_pressed(c);
        assert!(game.written_vec.len() <= game.correct_text.len());
    }
    assert_eq!(game.written_vec.len(), 4);
    assert!(game.is_complete());
}

#[test]
fn wrong_letter_keeps_expected_character() {
    let mut game = game_over("abc", Limit::Unbounded);
    game.char_key_pressed('x');
    assert_eq!(game.written_vec[0], letter('a', FieldState::Wrong));
    game.char_key_pressed('b');
    assert_eq!(game.written_vec[1], letter('b', FieldState::Correct));
    assert_eq!(game.statistics.correct_strokes, 1);
    assert_eq!(game.statistics.wrong_strokes, 1);
}

#[test]
fn backspace_takes_back_only_correct_strokes() {
    let mut game = game_over("abcd", Limit::Unbounded);
    type_text(&mut game, "ax");
    assert_eq!(game.statistics.correct_strokes, 1);
    game.clear_last_letter();
    assert_eq!(game.statistics.correct_strokes, 1);
    assert_eq!(game.statistics.wrong_strokes, 1);
    game.clear_last_letter();
    assert_eq!(game.statistics.correct_strokes, 0);
    assert_eq!(game.written_vec.len(), 0);
    for _ in 0..3 {
        game.clear_last_letter();
        assert_eq!(game.written_vec.len(), 0);
        assert_eq!(game.statistics.correct_strokes, 0);
        assert_eq!(game.statistics.wrong_strokes, 1);
    }
}

#[test]
fn clear_last_word_stops_at_completed_word() {
    let mut game = game_over("cc cc cc", Limit::Unbounded);
    type_text(&mut game, "cc cc ");
    game.clear_last_world();
    let kept: Vec<char> = game.written_vec.iter().map(|l| l.c).collect();
    assert_eq!(kept, vec!['c', 'c', ' ']);
    assert_eq!(game.statistics.correct_strokes, 3);
    game.clear_last_world();
    assert_eq!(game.written_vec.len(), 0);
    game.clear_last_world();
    assert_eq!(game.written_vec.len(), 0);
}

#[test]
fn clear_last_word_passes_wrong_space() {
    let mut game = game_over("ab cd ef", Limit::Unbounded);
    type_text(&mut game, "abxcd");
    game.clear_last_world();
    assert_eq!(game.written_vec.len(), 0);
    type_text(&mut game, "ab c");
    game.clear_last_world();
    assert_eq!(game.written_vec.len(), 3);
}

#[test]
fn accuracy_of_no_stroke_is_zero() {
    let mut game = game_over("abc", Limit::Unbounded);
    let stats = game.get_statistics();
    assert_eq!(stats.correct_strokes + stats.wrong_strokes, 0);
    assert_eq!(stats.accuracy(), 0);
}

#[test]
fn accuracy_formula() {
    let mut game = game_over("abcd", Limit::Unbounded);
    type_text(&mut game, "abcx");
    assert_eq!(game.get_statistics().accuracy(), 75);
    let mut third = game_over("abc", Limit::Unbounded);
    type_text(&mut third, "axx");
    assert_eq!(third.get_statistics().accuracy(), 33);
    let mut two_thirds = game_over("abc", Limit::Unbounded);
    type_text(&mut two_thirds, "abx");
    assert_eq!(two_thirds.get_statistics().accuracy(), 67);
}

#[test]
fn words_per_minute_rounds_to_nearest() {
    let mut stats = GameStat::new();
    stats.time_started = 0;
    stats.correct_words = 2;
    stats.time_finished = 90_000;
    assert_eq!(stats.words_per_minute(), Some(1));
    stats.correct_words = 5;
    stats.time_finished = 120_000;
    assert_eq!(stats.words_per_minute(), Some(3));
    stats.correct_words = 1;
    stats.time_finished = 180_000;
    assert_eq!(stats.words_per_minute(), Some(0));
}

#[test]
fn backspace_after_keystroke_restores_history() {
    let mut game = game_over("abc", Limit::Unbounded);
    game.char_key_pressed('a');
    game.char_key_pressed('x');
    game.clear_last_letter();
    assert_eq!(game.written_vec.len(), 1);
    assert_eq!(game.statistics.correct_strokes, 1);
    assert_eq!(game.statistics.wrong_strokes, 1);
    game.char_key_pressed('b');
    game.clear_last_letter();
    assert_eq!(game.statistics.correct_strokes, 1);
    assert_eq!(game.statistics.wrong_strokes, 1);
}

#[test]
fn full_correct_text_counts_terminal_word() {
    let mut game = game_over("ccccc", Limit::Unbounded);
    type_text(&mut game, "ccccc");
    assert!(game
        .get_written_vec()
        .iter()
        .all(|l| l.state == FieldState::Correct));
    assert!(game.is_complete());
    assert_eq!(game.get_correct_words_count(), 1);
}

#[test]
fn all_wrong_scenario() {
    let mut game = game_over("wwwww", Limit::Unbounded);
    type_text(&mut game, "abcde");
    assert!(game.written_vec.iter().all(|l| *l == letter('w', FieldState::Wrong)));
    let stats = game.get_statistics();
    assert_eq!(stats.wrong_letters, 5);
    assert_eq!(stats.accuracy(), 0);
}

#[test]
fn partial_last_word_not_counted() {
    let mut game = game_over("ab cd", Limit::Unbounded);
    type_text(&mut game, "ab c");
    assert_eq!(game.get_correct_words_count(), 1);
    assert_eq!(game.get_total_words_count(), 2);
    game.char_key_pressed('d');
    assert_eq!(game.get_correct_words_count(), 2);
}

#[test]
fn reference_ending_in_space() {
    let mut game = game_over("ab ", Limit::Unbounded);
    type_text(&mut game, "ab ");
    assert_eq!(game.get_correct_words_count(), 1);
    assert_eq!(game.get_total_words_count(), 2);
    let empty = game_over("", Limit::Unbounded);
    assert_eq!(empty.get_total_words_count(), 0);
    assert_eq!(empty.get_correct_words_count(), 0);
}

#[test]
fn time_limit_completes_without_input() {
    let mut game = game_over("abc def", Limit::Time(2));
    game.statistics.time_started = 1_000_000;
    game.char_key_pressed('a');
    assert!(!game.is_complete_at(1_000_000));
    assert!(!game.is_complete_at(1_001_999));
    assert!(game.is_complete_at(1_002_000));
    assert!(game.is_complete_at(1_005_000));
    assert!(!game.is_complete_at(999_000));
}

#[test]
fn word_limit_completes_after_words() {
    let mut game = game_over("ab cd ef", Limit::WordCount(2));
    type_text(&mut game, "ab c");
    assert!(!game.is_complete_at(0));
    type_text(&mut game, "d ");
    assert!(game.is_complete_at(0));
}

#[test]
fn speed_series_sums_to_correct_words() {
    let mut game = game_over("aa bb cc dd ", Limit::Unbounded);
    let words = ["aa ", "bx ", "cc ", "dd "];
    for w in words {
        type_text(&mut game, w);
        let sum: u32 = game.statistics.speed_stat.iter().sum();
        assert_eq!(sum, game.get_correct_words_count());
    }
    assert_eq!(game.statistics.speed_stat, vec![1, 0, 1, 1]);
    game.stop_game();
    assert_eq!(game.statistics.speed_stat, vec![1, 0, 1, 1, 0]);
}

#[test]
fn speed_sample_after_lost_word_is_zero() {
    let mut game = game_over("aa bb ", Limit::Unbounded);
    type_text(&mut game, "aa ");
    game.clear_last_letter();
    game.register_speed();
    assert_eq!(game.statistics.speed_stat, vec![1, 0]);
}

#[test]
fn snapshot_records_counts_and_time() {
    let mut game = game_over("ab cd", Limit::Unbounded);
    game.statistics.time_started = 10_000;
    type_text(&mut game, "ax cd");
    let stats = game.get_statistics_at(70_000);
    assert_eq!(stats.wrong_letters, 1);
    assert_eq!(stats.correct_words, 1);
    assert_eq!(stats.total_words, 2);
    assert_eq!(stats.time_started, 10_000);
    assert_eq!(stats.time_finished, 70_000);
    assert_eq!(game.statistics.time_finished, 70_000);
    assert_eq!(stats.words_per_minute(), Some(1));
}

#[test]
fn words_per_minute_needs_elapsed_time() {
    let mut stats = GameStat::new();
    stats.correct_words = 30;
    stats.time_started = 5;
    stats.time_finished = 5;
    assert_eq!(stats.words_per_minute(), None);
    stats.time_finished = 30_005;
    assert_eq!(stats.words_per_minute(), Some(60));
}

#[test]
fn new_statistics_start_now() {
    let stats = GameStat::new();
    assert!(stats.time_started > 1_500_000_000_000);
    assert_eq!(stats.time_started, stats.time_finished);
}

#[test]
fn default_configuration() {
    let conf = GameConf::new();
    assert_eq!(conf.mode, GameMode::Normal);
    assert_eq!(conf.limit, Limit::Time(30));
}

#[test]
fn new_game_generates_requested_words() {
    let conf = GameConf {
        mode: GameMode::Normal,
        limit: Limit::Unbounded,
    };
    let game = Game::new(20, conf, None).unwrap();
    let spaces = game.correct_text.iter().filter(|c| **c == ' ').count();
    assert_eq!(spaces, 19);
    assert_eq!(game.correct_text.last(), Some(&' '));
    assert!(game.written_vec.is_empty());

    let limited = GameConf {
        mode: GameMode::Rewrite,
        limit: Limit::WordCount(5),
    };
    let corpus = Some(String::from("one two three four one three two"));
    let game = Game::new(1000, limited, corpus).unwrap();
    let spaces = game.correct_text.iter().filter(|c| **c == ' ').count();
    assert_eq!(spaces, 5);
    assert_eq!(game.game_conf, limited);
    for word in game.correct_text.iter().collect::<String>().split(' ') {
        assert!(["", "one", "two", "three", "four"].contains(&word));
    }
}

#[test]
fn new_game_rejects_corpus_without_spaces() {
    let conf = GameConf {
        mode: GameMode::Normal,
        limit: Limit::Unbounded,
    };
    let r = Game::new(10, conf, Some(String::from("word")));
    assert_eq!(r.err(), Some(GameError::CorpusWithoutSpaces));
    let one = Game::new(1, conf, Some(String::from("word"))).unwrap();
    assert!(one.correct_text.is_empty());
    let empty_corpus = Game::new(3, conf, Some(String::new())).unwrap();
    assert_eq!(empty_corpus.correct_text.iter().filter(|c| **c == ' ').count(), 2);
}

#[test]
fn with_text_starts_fresh_session() {
    let conf = GameConf::new();
    let game = Game::with_text(vec!['a', ' ', 'b'], conf, 42).unwrap();
    assert_eq!(game.statistics.time_started, 42);
    assert_eq!(game.statistics.correct_strokes, 0);
    assert!(game.written_vec.is_empty());
    assert_eq!(game.correct_text, vec!['a', ' ', 'b']);
}

#[test]
fn copies_are_equal() {
    let mut game = game_over("ab", Limit::Unbounded);
    type_text(&mut game, "a");
    let copy = game.copied();
    assert_eq!(copy.written_vec, game.written_vec);
    assert_eq!(copy.correct_text, game.correct_text);
    assert_eq!(copy.statistics.correct_strokes, 1);
}
