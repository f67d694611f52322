use guessing_game::game::{classify_difficulty, Difficulty, GameState, Keypress, Setting, State};

fn in_settings() -> GameState {
    let mut s = GameState::new();
    s.handle_key(Keypress::Tab);
    assert_eq!(s.state, State::Settings);
    s
}

#[test]
fn difficulty_labels_by_span() {
    assert_eq!(classify_difficulty(-5), "INVALID");
    assert_eq!(classify_difficulty(0), "INVALID");
    assert_eq!(classify_difficulty(1), "EXTREMELY EASY");
    assert_eq!(classify_difficulty(10), "EXTREMELY EASY");
    assert_eq!(classify_difficulty(11), "VERY EASY");
    assert_eq!(classify_difficulty(99), "VERY EASY");
    assert_eq!(classify_difficulty(100), "VERY EASY");
    assert_eq!(classify_difficulty(101), "EASY");
    assert_eq!(classify_difficulty(1000), "EASY");
    assert_eq!(classify_difficulty(1001), "NORMAL");
    assert_eq!(classify_difficulty(10000), "NORMAL");
    assert_eq!(classify_difficulty(10001), "HARD");
    assert_eq!(classify_difficulty(100000), "HARD");
    assert_eq!(classify_difficulty(100001), "EXTREME");
    assert_eq!(classify_difficulty(i32::MAX), "EXTREME");
}

#[test]
fn default_range_is_very_easy() {
    // min=1, max=100: span 99
    let mut s = in_settings();
    s.update();
    assert!(s.text.output.ends_with("DIFFICULTY  = VERY EASY"));
}

#[test]
fn settings_text_is_exact() {
    let s = in_settings();
    assert_eq!(s.text.title, "Settings >>");
    assert_eq!(
        s.text.output,
        "MI[N]       = 1    <<< Minimum value the number can be.\n\
         MA[X]       = 100    <<< Maximum value the number can be.\n\
         LEN         = 3    <<< Maximum number of digits the number can include.\n\
         RANGE       = 99    <<< Range between largest and lowest possible value.\n\
         DIFFICULTY  = VERY EASY"
    );
    assert_eq!(s.text.err, "Press ESC to quit. press TAB to return to main menu.");
    assert_eq!(s.formatting.text_size, 16);
    assert_eq!(s.formatting.text_lines_ct, 5);
}

#[test]
fn settings_guard_forces_min_below_max() {
    // set min = max, then leave the settings screen: min becomes max - 1
    let mut s = GameState::new();
    s.difficulty = Difficulty { min: 50, max: 50, len: 2 };
    s.state = State::Settings;
    s.handle_key(Keypress::Tab);
    assert_eq!(s.state, State::NewGame);
    assert_eq!(s.difficulty.max, 50);
    assert_eq!(s.difficulty.min, 49);
    assert!(s.secret_number >= 49 && s.secret_number <= 50);
}

#[test]
fn settings_guard_applies_on_redraw_too() {
    let mut s = GameState::new();
    s.difficulty = Difficulty { min: 80, max: 20, len: 2 };
    s.settings_menu();
    assert_eq!(s.difficulty.min, 19);
    assert_eq!(s.difficulty.max, 20);
}

#[test]
fn digit_keys_edit_selected_bound() {
    let mut s = in_settings();
    s.handle_key(Keypress::LetterX);
    s.handle_key(Keypress::Five);
    // max was 100: one digit press appends, 100 -> 1005
    assert_eq!(s.difficulty.max, 1005);
    assert_eq!(s.difficulty.min, 1);
    s.handle_key(Keypress::LetterN);
    s.handle_key(Keypress::Seven);
    assert_eq!(s.difficulty.min, 17);
    assert_eq!(s.difficulty.max, 1005);
}

#[test]
fn bound_edit_saturates_at_ceiling() {
    let mut s = in_settings();
    // the ten-fold bound plus the digit still fits the ceiling: no clamp
    s.difficulty = Difficulty { min: 99999990, max: 100, len: 8 };
    s.change_setting(0);
    assert_eq!(s.difficulty.min, 999999900);
    // one more digit would pass the ceiling: saturates
    s.change_setting(1);
    assert_eq!(s.difficulty.min, 999999999);
    // once saturated it stays put
    s.change_setting(9);
    assert_eq!(s.difficulty.min, 999999999);

    // the product can land exactly on the ceiling
    s.difficulty = Difficulty { min: 99999999, max: 100, len: 8 };
    s.change_setting(9);
    assert_eq!(s.difficulty.min, 999999999);

    // past the ceiling's first digit count the clamp always engages
    s.difficulty = Difficulty { min: 100000000, max: 100, len: 9 };
    s.change_setting(5);
    assert_eq!(s.difficulty.min, 999999999);
}

#[test]
fn bound_edit_keeps_sign() {
    let mut s = in_settings();
    s.difficulty = Difficulty { min: -12, max: 100, len: 3 };
    s.change_setting(3);
    assert_eq!(s.difficulty.min, -123);
    s.difficulty = Difficulty { min: -99999990, max: 100, len: 8 };
    s.change_setting(1);
    assert_eq!(s.difficulty.min, -999999901);
    s.change_setting(1);
    assert_eq!(s.difficulty.min, -999999999);
}

#[test]
fn minus_key_negates_selected_bound() {
    let mut s = in_settings();
    s.handle_key(Keypress::Negative);
    assert_eq!(s.difficulty.min, -1);
    s.handle_key(Keypress::Negative);
    assert_eq!(s.difficulty.min, 1);
    s.handle_key(Keypress::LetterX);
    s.handle_key(Keypress::Negative);
    assert_eq!(s.difficulty.max, -100);
}

#[test]
fn backspace_divides_selected_bound_by_ten() {
    let mut s = in_settings();
    s.difficulty = Difficulty { min: -15, max: 234, len: 3 };
    s.handle_key(Keypress::Undo);
    // truncates toward zero: -15 -> -1
    assert_eq!(s.difficulty.min, -1);
    s.handle_key(Keypress::LetterX);
    s.handle_key(Keypress::Undo);
    assert_eq!(s.difficulty.max, 23);
}

#[test]
fn digit_cap_follows_larger_magnitude_bound() {
    let mut s = GameState::new();
    s.difficulty = Difficulty { min: -12345, max: 100, len: 3 };
    s.settings_menu();
    assert_eq!(s.difficulty.len, 5);
    s.difficulty = Difficulty { min: 1, max: 999999999, len: 3 };
    s.settings_menu();
    assert_eq!(s.difficulty.len, 9);
}

#[test]
fn main_menu_text_and_reset() {
    let mut s = GameState::new();
    s.guess = 7;
    s.guess_count = 3;
    s.negative = true;
    s.main_menu();
    assert_eq!(s.text.title, "Guess the number!");
    assert_eq!(s.text.output, "Ready? (Press Return to start)");
    assert_eq!(s.text.err, "Press Esc to quit (Tab to change settings)");
    assert_eq!(s.guess, 0);
    assert_eq!(s.guess_count, 0);
    assert!(!s.negative);
    assert_eq!(s.formatting.text_size, 24);
}

#[test]
fn reset_guesses_clears_session() {
    let mut s = GameState::new();
    s.guess = 55;
    s.guess_count = 9;
    s.negative = true;
    s.reset_guesses();
    assert_eq!(s.guess, 0);
    assert_eq!(s.guess_count, 0);
    assert!(!s.negative);
}

#[test]
fn swap_neg_negates_selected_bound() {
    let mut s = GameState::new();
    s.setting_code = Setting::Max;
    s.swap_neg();
    assert_eq!(s.difficulty.max, -100);
    s.setting_code = Setting::Min;
    s.swap_neg();
    assert_eq!(s.difficulty.min, -1);
    s.swap_neg();
    assert_eq!(s.difficulty.min, 1);
}
