//! The game controller: a single state machine that owns the mode, the
//! difficulty range, the in-progress guess buffer, the secret number and the
//! three display strings, and applies one key press at a time.
//!
//! The guess buffer is kept in canonical form: an unsigned magnitude plus a
//! sign flag.  Its on-screen digit string is exactly
//! `numstr::dec_digits(guess)`, so stripping leading zeros never needs a
//! re-parse; appending a digit is `10 * guess + d`, removing one is
//! `guess / 10`.

use vstd::prelude::*;
use vstd::math::max;
use vstd::string::StringExecFns;

use crate::numstr;
use crate::numstr::{dec_digits, int_str, n_digits};
use crate::rng;

verus! {

pub const DEFAULT_MIN_NUM: i32 = 1;

pub const DEFAULT_MAX_NUM: i32 = 100;

pub const DEFAULT_MAX_LEN: usize = 3;

/// The ceiling at which a bound edited in the settings screen saturates.
pub const TRU_MAX: i32 = 999999999;

/// The screen the game is on.
#[derive(Clone, Copy, Debug, PartialEq, Eq, Structural)]
pub enum State {
    NewGame,
    Guessing,
    Win,
    Settings,
}

/// Which bound of the range the settings screen is editing.
#[derive(Clone, Copy, Debug, PartialEq, Eq, Structural)]
pub enum Setting {
    Min,
    Max,
}

/// A key press, already mapped from whatever the windowing layer reports.
#[derive(Clone, Copy, Debug, PartialEq, Eq, Structural)]
pub enum Keypress {
    Esc,
    Ret,
    Zero,
    One,
    Two,
    Three,
    Four,
    Five,
    Six,
    Seven,
    Eight,
    Nine,
    Undo,
    Negative,
    Tab,
    LetterN,
    LetterX,
}

/// Which side of the secret a wrong guess fell on: `Higher` means the guess
/// was above the secret, so the shown hint tells the player to try lower.
#[derive(Clone, Copy, Debug, PartialEq, Eq, Structural)]
pub enum Direction {
    Higher,
    Lower,
}

/// What a submitted guess came to.
#[derive(Clone, Copy, Debug, PartialEq, Eq, Structural)]
pub enum GuessOutcome {
    Correct,
    Incorrect(Direction),
}

/// The guessable range and the digit-length cap derived from it.
#[derive(Clone, Copy, Debug, PartialEq, Eq, Structural)]
pub struct Difficulty {
    pub min: i32,
    pub max: i32,
    pub len: usize,
}

/// Layout hints for the rendering layer: font sizes in points and the line
/// count of the body text.
#[derive(Clone, Copy, Debug, PartialEq, Eq, Structural)]
pub struct Formats {
    pub title_size: u32,
    pub margin: u32,
    pub text_size: u32,
    pub text_lines_ct: u32,
    pub err_size: u32,
    pub left_gutter: u32,
    pub text_block_size: u32,
}

/// The three text regions the window shows, as plain strings; the rendering
/// layer reads them each frame and owns fonts and positioning.
#[derive(Debug)]
pub struct GameText {
    pub title: String,
    pub output: String,
    pub err: String,
}

/// All mutable game state.
#[derive(Debug)]
pub struct GameState {
    pub text: GameText,
    /// The magnitude of the in-progress guess, shown as its canonical
    /// decimal digits.
    pub guess: u32,
    /// The sign flag of the in-progress guess.
    pub negative: bool,
    pub secret_number: i32,
    pub guess_count: u32,
    pub state: State,
    pub formatting: Formats,
    pub difficulty: Difficulty,
    pub setting_code: Setting,
}

impl Formats {
    /// The fixed layout used on every screen (the body size and line count
    /// vary by screen).
    pub fn new() -> (f: Formats)
        ensures
            f == (Formats {
                title_size: 48,
                margin: 12,
                text_size: 24,
                text_lines_ct: 1,
                err_size: 12,
                left_gutter: 10,
                text_block_size: 24,
            }),
    {
        Formats {
            title_size: 48,
            margin: 12,
            text_size: 24,
            text_lines_ct: 1,
            err_size: 12,
            left_gutter: 10,
            text_block_size: 24,
        }
    }
}

impl GameText {
    /// Three empty regions; every screen fills them in before they are shown.
    pub fn new() -> (t: GameText)
        ensures
            t.title@ == Seq::<char>::empty(),
            t.output@ == Seq::<char>::empty(),
            t.err@ == Seq::<char>::empty(),
    {
        GameText { title: String::new(), output: String::new(), err: String::new() }
    }
}

/// Magnitude of an integer.
pub open spec fn abs_val(x: int) -> int {
    if x < 0 {
        -x
    } else {
        x
    }
}

/// Integer division by ten that truncates toward zero, as the settings
/// screen's backspace does.
pub open spec fn div10_toward_zero(b: int) -> int {
    if b >= 0 {
        b / 10
    } else {
        -((-b) / 10)
    }
}

/// What a digit press does to a bound on the settings screen: the magnitude
/// shifts left by one decimal place and takes the digit, saturating at
/// `TRU_MAX`; the bound keeps its sign.
pub open spec fn setting_digit_val(b: int, d: int) -> int {
    let mag = abs_val(b);
    let new_mag: int = if 10 * mag + d <= 999999999 {
        10 * mag + d
    } else {
        999999999
    };
    if b < 0 {
        -new_mag
    } else {
        new_mag
    }
}

impl GameState {
    /// The signed value the guess buffer stands for.
    pub open spec fn signed_guess(self) -> int {
        if self.negative {
            -(self.guess as int)
        } else {
            self.guess as int
        }
    }

    /// The digit string of the buffer as shown on screen: a `-` prefix when
    /// the sign flag is set, then the canonical digits of the magnitude.
    pub open spec fn buffer_str(self) -> Seq<char> {
        if self.negative {
            seq!['-'] + dec_digits(self.guess as nat)
        } else {
            dec_digits(self.guess as nat)
        }
    }

    /// Bounds every operation keeps: the range bounds never leave the band
    /// in which every edit to them is overflow-free, the digit cap matches a
    /// count derived from them, and the buffer magnitude stays within the
    /// widest value the range can admit.
    pub open spec fn wf(self) -> bool {
        &&& 1 <= self.difficulty.len <= 10
        &&& -1000000000 <= self.difficulty.min <= 1000000000
        &&& -999999999 <= self.difficulty.max <= 999999999
        &&& self.guess <= 1000000000
    }

    /// A fresh controller: main-menu screen, default range, no guesses yet.
    /// The secret is drawn when the new-game screen is entered.
    pub fn new() -> (s: GameState)
        ensures
            s.text.title@ == Seq::<char>::empty(),
            s.text.output@ == Seq::<char>::empty(),
            s.text.err@ == Seq::<char>::empty(),
            s.guess == 0,
            s.negative == false,
            s.secret_number == 0,
            s.guess_count == 0,
            s.state == State::NewGame,
            s.formatting == (Formats {
                title_size: 48,
                margin: 12,
                text_size: 24,
                text_lines_ct: 1,
                err_size: 12,
                left_gutter: 10,
                text_block_size: 24,
            }),
            s.difficulty == (Difficulty {
                min: DEFAULT_MIN_NUM,
                max: DEFAULT_MAX_NUM,
                len: DEFAULT_MAX_LEN,
            }),
            s.setting_code == Setting::Min,
            s.wf(),
    {
        GameState {
            text: GameText::new(),
            secret_number: 0,
            guess: 0,
            negative: false,
            guess_count: 0,
            state: State::NewGame,
            formatting: Formats::new(),
            difficulty: Difficulty {
                min: DEFAULT_MIN_NUM,
                max: DEFAULT_MAX_NUM,
                len: DEFAULT_MAX_LEN,
            },
            setting_code: Setting::Min,
        }
    }

    /// Clears the guessing session: no guesses made, buffer back to `0`.
    pub fn reset_guesses(&mut self)
        ensures
            *final(self) == (GameState {
                guess_count: 0,
                negative: false,
                guess: 0,
                ..*old(self)
            }),
    {
        self.guess_count = 0;
        self.negative = false;
        self.guess = 0;
    }

    /// Negates the bound the settings screen has selected.
    pub fn swap_neg(&mut self)
        requires
            old(self).wf(),
        ensures
            old(self).setting_code == Setting::Min ==> *final(self) == (GameState {
                difficulty: Difficulty { min: (-old(self).difficulty.min as int) as i32, ..old(self).difficulty },
                ..*old(self)
            }),
            old(self).setting_code == Setting::Max ==> *final(self) == (GameState {
                difficulty: Difficulty { max: (-old(self).difficulty.max as int) as i32, ..old(self).difficulty },
                ..*old(self)
            }),
            final(self).wf(),
    {
        match self.setting_code {
            Setting::Max => {
                self.difficulty.max = -self.difficulty.max;
            },
            Setting::Min => {
                self.difficulty.min = -self.difficulty.min;
            },
        }
    }

    /// Appends a decimal digit to the bound the settings screen has
    /// selected, saturating at `TRU_MAX` and keeping the bound's sign.
    pub fn change_setting(&mut self, new_number: i32)
        requires
            old(self).wf(),
            0 <= new_number <= 9,
        ensures
            old(self).setting_code == Setting::Min ==> *final(self) == (GameState {
                difficulty: Difficulty {
                    min: setting_digit_val(old(self).difficulty.min as int, new_number as int) as i32,
                    ..old(self).difficulty
                },
                ..*old(self)
            }),
            old(self).setting_code == Setting::Max ==> *final(self) == (GameState {
                difficulty: Difficulty {
                    max: setting_digit_val(old(self).difficulty.max as int, new_number as int) as i32,
                    ..old(self).difficulty
                },
                ..*old(self)
            }),
            final(self).wf(),
    {
        match self.setting_code {
            Setting::Max => {
                self.difficulty.max = setting_digit(self.difficulty.max, new_number);
            },
            Setting::Min => {
                self.difficulty.min = setting_digit(self.difficulty.min, new_number);
            },
        }
    }

    /// Picks which bound the settings screen edits; outside that screen the
    /// selector keys do nothing.
    pub fn select_setting(&mut self, which: Setting)
        ensures
            old(self).state == State::Settings ==> *final(self) == (GameState {
                setting_code: which,
                ..*old(self)
            }),
            old(self).state != State::Settings ==> *final(self) == *old(self),
    {
        match self.state {
            State::Settings => {
                self.setting_code = which;
            },
            _ => {},
        }
    }

    /// Removes the last digit: of the guess buffer while guessing, of the
    /// selected bound on the settings screen; nothing elsewhere.
    pub fn backspace(&mut self)
        requires
            old(self).wf(),
        ensures
            old(self).state == State::Guessing ==> *final(self) == (GameState {
                guess: (old(self).guess / 10) as u32,
                ..*old(self)
            }),
            old(self).state == State::Settings && old(self).setting_code == Setting::Min
                ==> *final(self) == (GameState {
                difficulty: Difficulty {
                    min: div10_toward_zero(old(self).difficulty.min as int) as i32,
                    ..old(self).difficulty
                },
                ..*old(self)
            }),
            old(self).state == State::Settings && old(self).setting_code == Setting::Max
                ==> *final(self) == (GameState {
                difficulty: Difficulty {
                    max: div10_toward_zero(old(self).difficulty.max as int) as i32,
                    ..old(self).difficulty
                },
                ..*old(self)
            }),
            old(self).state == State::NewGame || old(self).state == State::Win ==> *final(self)
                == *old(self),
            final(self).wf(),
    {
        match self.state {
            State::Guessing => {
                self.guess = self.guess / 10;
            },
            State::Settings => {
                match self.setting_code {
                    Setting::Max => {
                        self.difficulty.max = div10(self.difficulty.max);
                    },
                    Setting::Min => {
                        self.difficulty.min = div10(self.difficulty.min);
                    },
                }
            },
            _ => {},
        }
    }

    /// Flips the guess's sign flag, but only when the range admits negative
    /// guesses; on the settings screen it negates the selected bound.
    pub fn toggle_negative(&mut self)
        requires
            old(self).wf(),
        ensures
            old(self).state == State::Guessing && old(self).difficulty.min >= 0 ==> *final(self)
                == *old(self),
            old(self).state == State::Guessing && old(self).difficulty.min < 0 ==> *final(self)
                == (GameState { negative: !old(self).negative, ..*old(self) }),
            old(self).state == State::Settings && old(self).setting_code == Setting::Min
                ==> *final(self) == (GameState {
                difficulty: Difficulty { min: (-old(self).difficulty.min as int) as i32, ..old(self).difficulty },
                ..*old(self)
            }),
            old(self).state == State::Settings && old(self).setting_code == Setting::Max
                ==> *final(self) == (GameState {
                difficulty: Difficulty { max: (-old(self).difficulty.max as int) as i32, ..old(self).difficulty },
                ..*old(self)
            }),
            old(self).state == State::NewGame || old(self).state == State::Win ==> *final(self)
                == *old(self),
            final(self).wf(),
    {
        match self.state {
            State::Guessing => {
                if self.difficulty.min < 0 {
                    self.negative = !self.negative;
                }
            },
            State::Settings => {
                self.swap_neg();
            },
            _ => {},
        }
    }
}

/// What a digit press does to the guess buffer while guessing: the candidate
/// value appends the digit to the buffer's digits; it is rejected — the state
/// is unchanged — when the buffer is already at the digit cap or the signed
/// candidate would leave `[min, max]`, and otherwise becomes the new buffer.
pub open spec fn digit_push_tr(s: GameState, d: int) -> GameState {
    let cand = 10 * (s.guess as int) + d;
    let signed = if s.negative {
        -cand
    } else {
        cand
    };
    if n_digits(s.guess as nat) >= s.difficulty.len || signed < s.difficulty.min || signed
        > s.difficulty.max {
        s
    } else {
        GameState { guess: cand as u32, ..s }
    }
}

/// The label the settings screen shows for a span `max - min`.
pub open spec fn difficulty_label(span: int) -> Seq<char> {
    if span <= 0 {
        "INVALID"@
    } else if span <= 10 {
        "EXTREMELY EASY"@
    } else if span <= 100 {
        "VERY EASY"@
    } else if span <= 1000 {
        "EASY"@
    } else if span <= 10000 {
        "NORMAL"@
    } else if span <= 100000 {
        "HARD"@
    } else {
        "EXTREME"@
    }
}

/// Classifies a span `max - min` into the six difficulty labels.
pub fn classify_difficulty(span: i32) -> (r: String)
    ensures
        r@ == difficulty_label(span as int),
{
    if span <= 0 {
        String::from_str("INVALID")
    } else if span <= 10 {
        String::from_str("EXTREMELY EASY")
    } else if span <= 100 {
        String::from_str("VERY EASY")
    } else if span <= 1000 {
        String::from_str("EASY")
    } else if span <= 10000 {
        String::from_str("NORMAL")
    } else if span <= 100000 {
        String::from_str("HARD")
    } else {
        String::from_str("EXTREME")
    }
}

/// The body text of the settings screen for the given bounds and digit cap.
pub open spec fn settings_text(min: int, max: int, len: int) -> Seq<char> {
    "MI[N]       = "@ + int_str(min) + "    <<< Minimum value the number can be.\nMA[X]       = "@
        + int_str(max) + "    <<< Maximum value the number can be.\nLEN         = "@ + int_str(len)
        + "    <<< Maximum number of digits the number can include.\nRANGE       = "@ + int_str(
        max - min,
    ) + "    <<< Range between largest and lowest possible value.\nDIFFICULTY  = "@
        + difficulty_label(max - min)
}

impl GameState {
    /// Forces `min` below `max` — the guard applied whenever the settings
    /// screen is shown or left, and before a secret number is drawn.
    fn enforce_range(&mut self)
        requires
            old(self).wf(),
        ensures
            old(self).difficulty.min < old(self).difficulty.max ==> *final(self) == *old(self),
            old(self).difficulty.min >= old(self).difficulty.max ==> *final(self) == (GameState {
                difficulty: Difficulty {
                    min: (old(self).difficulty.max - 1) as i32,
                    ..old(self).difficulty
                },
                ..*old(self)
            }),
            final(self).difficulty.min < final(self).difficulty.max,
            final(self).difficulty.max == old(self).difficulty.max,
            final(self).wf(),
    {
        if self.difficulty.min >= self.difficulty.max {
            self.difficulty.min = self.difficulty.max - 1;
        }
    }

    /// Shows the main menu and clears the guessing session.
    pub fn main_menu(&mut self)
        ensures
            final(self).text.title@ == "Guess the number!"@,
            final(self).text.output@ == "Ready? (Press Return to start)"@,
            final(self).text.err@ == "Press Esc to quit (Tab to change settings)"@,
            final(self).formatting == (Formats { text_size: 24, ..old(self).formatting }),
            final(self).guess_count == 0,
            final(self).negative == false,
            final(self).guess == 0,
            final(self).state == old(self).state,
            final(self).difficulty == old(self).difficulty,
            final(self).secret_number == old(self).secret_number,
            final(self).setting_code == old(self).setting_code,
    {
        self.text.title = String::from_str("Guess the number!");
        self.text.output = String::from_str("Ready? (Press Return to start)");
        self.text.err = String::from_str("Press Esc to quit (Tab to change settings)");
        self.formatting.text_size = 24;
        self.reset_guesses();
    }

    /// Shows the settings screen: applies the range guard, re-derives the
    /// digit cap from the larger-magnitude bound, and formats the body text
    /// with the span and its difficulty label.
    pub fn settings_menu(&mut self)
        requires
            old(self).wf(),
        ensures
            final(self).difficulty.min == (if old(self).difficulty.min >= old(self).difficulty.max {
                old(self).difficulty.max - 1
            } else {
                old(self).difficulty.min as int
            }),
            final(self).difficulty.max == old(self).difficulty.max,
            final(self).difficulty.min < final(self).difficulty.max,
            final(self).difficulty.len == n_digits(
                max(
                    abs_val(final(self).difficulty.min as int),
                    abs_val(final(self).difficulty.max as int),
                ) as nat,
            ),
            final(self).text.title@ == "Settings >>"@,
            final(self).text.output@ == settings_text(
                final(self).difficulty.min as int,
                final(self).difficulty.max as int,
                final(self).difficulty.len as int,
            ),
            final(self).text.err@ == "Press ESC to quit. press TAB to return to main menu."@,
            final(self).formatting == (Formats {
                text_lines_ct: 5,
                text_size: 16,
                ..old(self).formatting
            }),
            final(self).guess == old(self).guess,
            final(self).negative == old(self).negative,
            final(self).guess_count == old(self).guess_count,
            final(self).secret_number == old(self).secret_number,
            final(self).state == old(self).state,
            final(self).setting_code == old(self).setting_code,
            final(self).wf(),
    {
        self.enforce_range();

        let span: i32 = self.difficulty.max - self.difficulty.min;
        let label = classify_difficulty(span);

        let min_mag: u32 = if self.difficulty.min < 0 {
            (0i64 - (self.difficulty.min as i64)) as u32
        } else {
            self.difficulty.min as u32
        };
        let max_mag: u32 = if self.difficulty.max < 0 {
            (0i64 - (self.difficulty.max as i64)) as u32
        } else {
            self.difficulty.max as u32
        };
        let larger: u32 = if min_mag > max_mag {
            min_mag
        } else {
            max_mag
        };
        self.difficulty.len = numstr::digit_count(larger);

        self.text.title = String::from_str("Settings >>");

        let mut out = String::from_str("MI[N]       = ");
        out.append(numstr::i32_to_string(self.difficulty.min).as_str());
        out.append("    <<< Minimum value the number can be.\nMA[X]       = ");
        out.append(numstr::i32_to_string(self.difficulty.max).as_str());
        out.append("    <<< Maximum value the number can be.\nLEN         = ");
        let len32: i32 = self.difficulty.len as i32;
        out.append(numstr::i32_to_string(len32).as_str());
        out.append("    <<< Maximum number of digits the number can include.\nRANGE       = ");
        out.append(numstr::i32_to_string(span).as_str());
        out.append("    <<< Range between largest and lowest possible value.\nDIFFICULTY  = ");
        out.append(label.as_str());
        proof {
            assert(out@ =~= settings_text(
                self.difficulty.min as int,
                self.difficulty.max as int,
                self.difficulty.len as int,
            ));
        }
        self.text.output = out;

        self.formatting.text_lines_ct = 5;
        self.formatting.text_size = 16;
        self.text.err = String::from_str("Press ESC to quit. press TAB to return to main menu.");
    }

    /// Applies a digit key: appended to the guess buffer while guessing
    /// (rejected when it would break the digit cap or the range), appended to
    /// the selected bound on the settings screen, and ignored elsewhere.
    pub fn apply_digit(&mut self, d: u8)
        requires
            old(self).wf(),
            d <= 9,
        ensures
            old(self).state == State::Guessing ==> *final(self) == digit_push_tr(
                *old(self),
                d as int,
            ),
            old(self).state == State::Guessing ==> (*final(self) == *old(self)
                || (old(self).difficulty.min <= final(self).signed_guess()
                <= old(self).difficulty.max && n_digits(final(self).guess as nat) <= max(
                n_digits(old(self).guess as nat) as int,
                old(self).difficulty.len as int,
            ))),
            old(self).state == State::Settings && old(self).setting_code == Setting::Min
                ==> *final(self) == (GameState {
                difficulty: Difficulty {
                    min: setting_digit_val(old(self).difficulty.min as int, d as int) as i32,
                    ..old(self).difficulty
                },
                ..*old(self)
            }),
            old(self).state == State::Settings && old(self).setting_code == Setting::Max
                ==> *final(self) == (GameState {
                difficulty: Difficulty {
                    max: setting_digit_val(old(self).difficulty.max as int, d as int) as i32,
                    ..old(self).difficulty
                },
                ..*old(self)
            }),
            old(self).state == State::NewGame || old(self).state == State::Win ==> *final(self)
                == *old(self),
            final(self).wf(),
    {
        match self.state {
            State::Guessing => {
                let cand: u64 = (self.guess as u64) * 10 + (d as u64);
                let signed: i64 = if self.negative {
                    -(cand as i64)
                } else {
                    cand as i64
                };
                let cur_len: usize = numstr::digit_count(self.guess);
                if cur_len >= self.difficulty.len || signed < self.difficulty.min as i64 || signed
                    > self.difficulty.max as i64 {
                    // rejected: the buffer is untouched
                } else {
                    proof {
                        numstr::lemma_n_digits_push(self.guess as nat, d as nat);
                    }
                    self.guess = cand as u32;
                }
            },
            State::Settings => {
                self.change_setting(d as i32);
            },
            _ => {},
        }
    }
}

/// The guessing screen has been entered from `pre`: the buffer is cleared and
/// the prompt shown; everything else carries over.  (The screen field itself
/// is the caller's to set.)
pub open spec fn entered_guessing(pre: GameState, post: GameState) -> bool {
    &&& post.guess == 0
    &&& post.negative == false
    &&& post.text.title@ == "Type your guess below!"@
    &&& post.text.output@ == dec_digits(0)
    &&& post.text.err == pre.text.err
    &&& post.guess_count == pre.guess_count
    &&& post.difficulty == pre.difficulty
    &&& post.secret_number == pre.secret_number
    &&& post.formatting == pre.formatting
    &&& post.setting_code == pre.setting_code
}

/// The win screen has been entered from `pre`: the secret is revealed and the
/// guesses counted; everything else carries over.
pub open spec fn entered_win(pre: GameState, post: GameState) -> bool {
    &&& post.text.title@ == "The number was "@ + int_str(pre.secret_number as int) + "."@
    &&& post.text.output@ == "You won in "@ + dec_digits(pre.guess_count as nat)
        + " guesses.\nPress Return to go back to the main menu"@
    &&& post.text.err == pre.text.err
    &&& post.formatting == (Formats { text_lines_ct: 2, ..pre.formatting })
    &&& post.guess == pre.guess
    &&& post.negative == pre.negative
    &&& post.guess_count == pre.guess_count
    &&& post.difficulty == pre.difficulty
    &&& post.secret_number == pre.secret_number
    &&& post.setting_code == pre.setting_code
}

/// The new-game screen has been entered from `pre`: the range is guarded, a
/// fresh secret drawn from it, the session cleared and the menu shown.
pub open spec fn entered_new_game(pre: GameState, post: GameState) -> bool {
    &&& post.difficulty.min == (if pre.difficulty.min >= pre.difficulty.max {
        pre.difficulty.max - 1
    } else {
        pre.difficulty.min as int
    })
    &&& post.difficulty.max == pre.difficulty.max
    &&& post.difficulty.len == pre.difficulty.len
    &&& post.difficulty.min < post.difficulty.max
    &&& post.difficulty.min <= post.secret_number <= post.difficulty.max
    &&& post.guess_count == 0
    &&& post.negative == false
    &&& post.guess == 0
    &&& post.text.title@ == "Guess the number!"@
    &&& post.text.output@ == "Ready? (Press Return to start)"@
    &&& post.text.err@ == "Press Esc to quit (Tab to change settings)"@
    &&& post.formatting == (Formats { text_size: 24, text_lines_ct: 1, ..pre.formatting })
    &&& post.setting_code == pre.setting_code
}

/// The settings screen has been entered from `pre`: the range is guarded, the
/// digit cap re-derived, and the settings text shown.  Says nothing of the
/// guess buffer's magnitude, which differs between entering the screen and
/// redrawing it.
pub open spec fn entered_settings(pre: GameState, post: GameState) -> bool {
    &&& post.difficulty.min == (if pre.difficulty.min >= pre.difficulty.max {
        pre.difficulty.max - 1
    } else {
        pre.difficulty.min as int
    })
    &&& post.difficulty.max == pre.difficulty.max
    &&& post.difficulty.min < post.difficulty.max
    &&& post.difficulty.len == n_digits(
        max(abs_val(post.difficulty.min as int), abs_val(post.difficulty.max as int)) as nat,
    )
    &&& post.text.title@ == "Settings >>"@
    &&& post.text.output@ == settings_text(
        post.difficulty.min as int,
        post.difficulty.max as int,
        post.difficulty.len as int,
    )
    &&& post.text.err@ == "Press ESC to quit. press TAB to return to main menu."@
    &&& post.formatting == (Formats { text_lines_ct: 5, text_size: 16, ..pre.formatting })
    &&& post.negative == pre.negative
    &&& post.guess_count == pre.guess_count
    &&& post.secret_number == pre.secret_number
    &&& post.setting_code == pre.setting_code
}

/// What submitting a guess against a secret comes to: a hit when they are
/// equal, otherwise the side of the secret the guess fell on.
pub open spec fn outcome_of(guess: int, secret: int) -> GuessOutcome {
    if guess == secret {
        GuessOutcome::Correct
    } else if guess > secret {
        GuessOutcome::Incorrect(Direction::Higher)
    } else {
        GuessOutcome::Incorrect(Direction::Lower)
    }
}

/// Law: for every guess and secret, submitting yields `Correct` exactly when
/// the guess equals the secret; any other guess yields `Incorrect(Higher)`
/// exactly when it is above the secret, else `Incorrect(Lower)`.
pub proof fn lemma_submit_law(guess: int, secret: int)
    ensures
        outcome_of(guess, secret) == GuessOutcome::Correct <==> guess == secret,
        outcome_of(guess, secret) == GuessOutcome::Incorrect(Direction::Higher) <==> guess
            > secret,
        outcome_of(guess, secret) == GuessOutcome::Incorrect(Direction::Lower) <==> guess
            < secret,
{
}

impl GameState {
    /// Submits the guess buffer: counts the guess and says whether it hit
    /// the secret, and on a miss on which side of the secret it fell.
    pub fn submit(&mut self) -> (r: GuessOutcome)
        requires
            old(self).wf(),
            old(self).state == State::Guessing,
            old(self).guess_count < u32::MAX,
        ensures
            *final(self) == (GameState { guess_count: (old(self).guess_count + 1) as u32, ..*old(self) }),
            r == outcome_of(old(self).signed_guess(), old(self).secret_number as int),
            r == GuessOutcome::Correct <==> old(self).signed_guess() == old(self).secret_number,
            old(self).signed_guess() > old(self).secret_number <==> r == GuessOutcome::Incorrect(
                Direction::Higher,
            ),
            old(self).signed_guess() < old(self).secret_number <==> r == GuessOutcome::Incorrect(
                Direction::Lower,
            ),
    {
        self.guess_count = self.guess_count + 1;
        let signed: i64 = if self.negative {
            -(self.guess as i64)
        } else {
            self.guess as i64
        };
        let secret: i64 = self.secret_number as i64;
        if signed == secret {
            GuessOutcome::Correct
        } else if signed > secret {
            GuessOutcome::Incorrect(Direction::Higher)
        } else {
            GuessOutcome::Incorrect(Direction::Lower)
        }
    }

    /// Submits the guess buffer and reports a hit as `true`; on a miss the
    /// title becomes a hint naming the guess and the direction to try next.
    pub fn check_guess(&mut self) -> (r: bool)
        requires
            old(self).wf(),
            old(self).state == State::Guessing,
            old(self).guess_count < u32::MAX,
        ensures
            r <==> old(self).signed_guess() == old(self).secret_number,
            final(self).guess_count == old(self).guess_count + 1,
            r ==> *final(self) == (GameState {
                guess_count: (old(self).guess_count + 1) as u32,
                ..*old(self)
            }),
            !r ==> final(self).text.title@ == "You guessed "@ + old(self).buffer_str() + ", try "@
                + (if old(self).signed_guess() > old(self).secret_number {
                "lower"@
            } else {
                "higher"@
            }) + "!"@,
            !r ==> final(self).text.output == old(self).text.output && final(self).text.err == old(self).text.err,
            final(self).guess == old(self).guess,
            final(self).negative == old(self).negative,
            final(self).secret_number == old(self).secret_number,
            final(self).difficulty == old(self).difficulty,
            final(self).state == old(self).state,
            final(self).formatting == old(self).formatting,
            final(self).setting_code == old(self).setting_code,
            final(self).wf(),
    {
        let outcome = self.submit();
        match outcome {
            GuessOutcome::Correct => true,
            GuessOutcome::Incorrect(dir) => {
                let deviance: &'static str = match dir {
                    Direction::Higher => "lower",
                    Direction::Lower => "higher",
                };
                let shown = numstr::guess_string_compiler(
                    &numstr::u32_to_string(self.guess),
                    self.negative,
                );
                let mut title = String::from_str("You guessed ");
                title.append(shown.as_str());
                title.append(", try ");
                title.append(deviance);
                title.append("!");
                proof {
                    assert(title@ =~= "You guessed "@ + old(self).buffer_str() + ", try "@ + (if old(self).signed_guess() > old(self).secret_number {
                        "lower"@
                    } else {
                        "higher"@
                    }) + "!"@);
                }
                self.text.title = title;
                false
            },
        }
    }

    /// Moves the game onto a screen: fills the display strings in and, on
    /// entering the new-game screen, guards the range and draws a fresh
    /// secret from it.  Returns the screen so the caller can store it.
    pub fn new_state(&mut self, some_state: State) -> (r: State)
        requires
            old(self).wf(),
        ensures
            r == some_state,
            final(self).state == old(self).state,
            final(self).setting_code == old(self).setting_code,
            final(self).wf(),
            some_state == State::Guessing ==> entered_guessing(*old(self), *final(self)),
            some_state == State::Win ==> entered_win(*old(self), *final(self)),
            some_state == State::NewGame ==> entered_new_game(*old(self), *final(self)),
            some_state == State::Settings ==> entered_settings(*old(self), *final(self)),
            some_state == State::Settings ==> final(self).guess == old(self).guess,
    {
        match some_state {
            State::Guessing => {
                self.guess = 0;
                self.negative = false;
                self.text.output = numstr::u32_to_string(0);
                self.text.title = String::from_str("Type your guess below!");
            },
            State::Win => {
                let mut title = String::from_str("The number was ");
                title.append(numstr::i32_to_string(self.secret_number).as_str());
                title.append(".");
                proof {
                    assert(title@ =~= "The number was "@ + int_str(old(self).secret_number as int)
                        + "."@);
                }
                self.text.title = title;

                let mut body = String::from_str("You won in ");
                body.append(numstr::u32_to_string(self.guess_count).as_str());
                body.append(" guesses.\nPress Return to go back to the main menu");
                proof {
                    assert(body@ =~= "You won in "@ + dec_digits(old(self).guess_count as nat)
                        + " guesses.\nPress Return to go back to the main menu"@);
                }
                self.text.output = body;
                self.formatting.text_lines_ct = 2;
            },
            State::NewGame => {
                self.main_menu();
                self.enforce_range();
                self.secret_number = rng::draw_uniform(self.difficulty.min, self.difficulty.max);
                self.formatting.text_lines_ct = 1;
            },
            State::Settings => {
                self.settings_menu();
            },
        }
        some_state
    }

    /// Recomputes the display strings for the current screen, as the
    /// rendering layer asks before every frame; while guessing, the body is
    /// the buffer as typed.
    pub fn update(&mut self)
        requires
            old(self).wf(),
        ensures
            final(self).wf(),
            final(self).state == old(self).state,
            old(self).state == State::Guessing ==> ({
                &&& final(self).text.output@ == old(self).buffer_str()
                &&& final(self).text.title == old(self).text.title
                &&& final(self).text.err == old(self).text.err
                &&& final(self).guess == old(self).guess
                &&& final(self).negative == old(self).negative
                &&& final(self).guess_count == old(self).guess_count
                &&& final(self).difficulty == old(self).difficulty
                &&& final(self).secret_number == old(self).secret_number
                &&& final(self).formatting == old(self).formatting
                &&& final(self).setting_code == old(self).setting_code
            }),
            old(self).state == State::NewGame ==> ({
                &&& final(self).text.title@ == "Guess the number!"@
                &&& final(self).text.output@ == "Ready? (Press Return to start)"@
                &&& final(self).text.err@ == "Press Esc to quit (Tab to change settings)"@
                &&& final(self).guess_count == 0
                &&& final(self).guess == 0
                &&& final(self).negative == false
                &&& final(self).difficulty == old(self).difficulty
                &&& final(self).secret_number == old(self).secret_number
                &&& final(self).formatting == (Formats {
                    text_size: 24,
                    ..old(self).formatting
                })
                &&& final(self).setting_code == old(self).setting_code
            }),
            old(self).state == State::Settings ==> entered_settings(*old(self), *final(self))
                && final(self).guess == old(self).guess,
            old(self).state == State::Win ==> *final(self) == *old(self),
    {
        match self.state {
            State::NewGame => {
                self.main_menu();
            },
            State::Guessing => {
                self.text.output = numstr::guess_string_compiler(
                    &numstr::u32_to_string(self.guess),
                    self.negative,
                );
            },
            State::Settings => {
                self.settings_menu();
            },
            State::Win => {},
        }
    }
}

/// The digit a key stands for, or `-1` for the non-digit keys.
pub open spec fn digit_of(key: Keypress) -> int {
    match key {
        Keypress::Zero => 0,
        Keypress::One => 1,
        Keypress::Two => 2,
        Keypress::Three => 3,
        Keypress::Four => 4,
        Keypress::Five => 5,
        Keypress::Six => 6,
        Keypress::Seven => 7,
        Keypress::Eight => 8,
        Keypress::Nine => 9,
        _ => -1,
    }
}

/// The screen a key press moves the game to: Return walks the new game →
/// guessing → win → new game loop (staying on guessing until the guess hits
/// the secret), Tab toggles between the settings screen and the new-game
/// screen, and every other key stays put.
pub open spec fn next_mode(s: GameState, key: Keypress) -> State {
    match key {
        Keypress::Ret => match s.state {
            State::Guessing => if s.signed_guess() == s.secret_number {
                State::Win
            } else {
                State::Guessing
            },
            State::NewGame => State::Guessing,
            State::Win => State::NewGame,
            State::Settings => State::Settings,
        },
        Keypress::Tab => match s.state {
            State::NewGame => State::Settings,
            State::Win => State::Settings,
            State::Settings => State::NewGame,
            State::Guessing => State::NewGame,
        },
        _ => s.state,
    }
}

/// Everything one key press does to the game, by key and by the screen it
/// lands on.  The buffer magnitude is cleared whenever the key leaves the
/// game on the new-game or settings screen.
pub open spec fn key_applied(pre: GameState, post: GameState, key: Keypress) -> bool {
    match key {
        Keypress::Esc => post == pre,
        Keypress::Ret => match pre.state {
            State::NewGame => entered_guessing(pre, post),
            State::Guessing => if pre.signed_guess() == pre.secret_number {
                entered_win(GameState { guess_count: (pre.guess_count + 1) as u32, ..pre }, post)
            } else {
                &&& post.guess == 0
                &&& post.negative == false
                &&& post.guess_count == pre.guess_count + 1
                &&& post.text.title@ == "You guessed "@ + pre.buffer_str() + ", try "@ + (if pre.signed_guess() > pre.secret_number {
                    "lower"@
                } else {
                    "higher"@
                }) + "!"@
                &&& post.text.output == pre.text.output
                &&& post.text.err == pre.text.err
                &&& post.difficulty == pre.difficulty
                &&& post.secret_number == pre.secret_number
                &&& post.formatting == pre.formatting
                &&& post.setting_code == pre.setting_code
            },
            State::Win => entered_new_game(pre, post),
            State::Settings => post == (GameState { guess: 0, ..pre }),
        },
        Keypress::Tab => match pre.state {
            State::NewGame => entered_settings(pre, post) && post.guess == 0,
            State::Win => entered_settings(pre, post) && post.guess == 0,
            State::Settings => entered_new_game(pre, post),
            State::Guessing => entered_new_game(pre, post),
        },
        Keypress::Negative => match pre.state {
            State::Guessing => if pre.difficulty.min >= 0 {
                post == pre
            } else {
                post == (GameState { negative: !pre.negative, ..pre })
            },
            State::Settings => match pre.setting_code {
                Setting::Min => post == (GameState {
                    difficulty: Difficulty {
                        min: (-pre.difficulty.min as int) as i32,
                        ..pre.difficulty
                    },
                    guess: 0,
                    ..pre
                }),
                Setting::Max => post == (GameState {
                    difficulty: Difficulty {
                        max: (-pre.difficulty.max as int) as i32,
                        ..pre.difficulty
                    },
                    guess: 0,
                    ..pre
                }),
            },
            State::NewGame => post == (GameState { guess: 0, ..pre }),
            State::Win => post == pre,
        },
        Keypress::Undo => match pre.state {
            State::Guessing => post == (GameState { guess: (pre.guess / 10) as u32, ..pre }),
            State::Settings => match pre.setting_code {
                Setting::Min => post == (GameState {
                    difficulty: Difficulty {
                        min: div10_toward_zero(pre.difficulty.min as int) as i32,
                        ..pre.difficulty
                    },
                    guess: 0,
                    ..pre
                }),
                Setting::Max => post == (GameState {
                    difficulty: Difficulty {
                        max: div10_toward_zero(pre.difficulty.max as int) as i32,
                        ..pre.difficulty
                    },
                    guess: 0,
                    ..pre
                }),
            },
            State::NewGame => post == (GameState { guess: 0, ..pre }),
            State::Win => post == pre,
        },
        Keypress::LetterN => match pre.state {
            State::Settings => post == (GameState { setting_code: Setting::Min, guess: 0, ..pre }),
            State::NewGame => post == (GameState { guess: 0, ..pre }),
            _ => post == pre,
        },
        Keypress::LetterX => match pre.state {
            State::Settings => post == (GameState { setting_code: Setting::Max, guess: 0, ..pre }),
            State::NewGame => post == (GameState { guess: 0, ..pre }),
            _ => post == pre,
        },
        _ => match pre.state {
            State::Guessing => post == digit_push_tr(pre, digit_of(key)),
            State::Settings => match pre.setting_code {
                Setting::Min => post == (GameState {
                    difficulty: Difficulty {
                        min: setting_digit_val(pre.difficulty.min as int, digit_of(key)) as i32,
                        ..pre.difficulty
                    },
                    guess: 0,
                    ..pre
                }),
                Setting::Max => post == (GameState {
                    difficulty: Difficulty {
                        max: setting_digit_val(pre.difficulty.max as int, digit_of(key)) as i32,
                        ..pre.difficulty
                    },
                    guess: 0,
                    ..pre
                }),
            },
            State::NewGame => post == (GameState { guess: 0, ..pre }),
            State::Win => post == pre,
        },
    }
}

impl GameState {
    /// Handles one key press: digits build the guess or a bound, Return
    /// submits or moves screens, Tab toggles the settings screen, the minus
    /// key flips signs, backspace removes a digit, and N/X pick the bound the
    /// settings screen edits.  Returns `true` exactly when the key asks to
    /// quit the game, which is the caller's to carry out.
    pub fn handle_key(&mut self, key: Keypress) -> (quit: bool)
        requires
            old(self).wf(),
            old(self).state == State::Guessing && key == Keypress::Ret ==> old(self).guess_count
                < u32::MAX,
        ensures
            quit == (key == Keypress::Esc),
            final(self).state == next_mode(*old(self), key),
            key_applied(*old(self), *final(self), key),
            final(self).wf(),
    {
        match key {
            Keypress::Esc => {
                return true;
            },
            Keypress::Undo => {
                self.backspace();
            },
            Keypress::Ret => {
                match self.state {
                    State::Guessing => {
                        if !self.check_guess() {
                            self.guess = 0;
                            self.negative = false;
                        } else {
                            let s = self.new_state(State::Win);
                            self.state = s;
                        }
                    },
                    State::NewGame => {
                        let s = self.new_state(State::Guessing);
                        self.state = s;
                    },
                    State::Win => {
                        let s = self.new_state(State::NewGame);
                        self.state = s;
                    },
                    State::Settings => {},
                }
            },
            Keypress::Tab => {
                match self.state {
                    State::NewGame | State::Win => {
                        let s = self.new_state(State::Settings);
                        self.state = s;
                    },
                    State::Settings | State::Guessing => {
                        let s = self.new_state(State::NewGame);
                        self.state = s;
                    },
                }
            },
            Keypress::Zero => self.apply_digit(0),
            Keypress::One => self.apply_digit(1),
            Keypress::Two => self.apply_digit(2),
            Keypress::Three => self.apply_digit(3),
            Keypress::Four => self.apply_digit(4),
            Keypress::Five => self.apply_digit(5),
            Keypress::Six => self.apply_digit(6),
            Keypress::Seven => self.apply_digit(7),
            Keypress::Eight => self.apply_digit(8),
            Keypress::Nine => self.apply_digit(9),
            Keypress::Negative => {
                self.toggle_negative();
            },
            Keypress::LetterN => {
                self.select_setting(Setting::Min);
            },
            Keypress::LetterX => {
                self.select_setting(Setting::Max);
            },
        }

        // outside the guessing and win screens the buffer always shows "0"
        match self.state {
            State::Guessing | State::Win => {},
            _ => {
                self.guess = 0;
            },
        }
        false
    }
}

/// A whole sequence of digit presses applied to the guess buffer, in order.
pub open spec fn digits_applied(s: GameState, ds: Seq<u8>) -> GameState
    decreases ds.len(),
{
    if ds.len() == 0 {
        s
    } else {
        digit_push_tr(digits_applied(s, ds.drop_last()), ds.last() as int)
    }
}

/// Digit presses only ever touch the buffer's magnitude: the range, the sign
/// flag, the secret, the counters and the display text all carry through, and
/// the state stays well formed.
pub proof fn lemma_digits_applied_frame(s: GameState, ds: Seq<u8>)
    requires
        s.wf(),
    ensures
        ({
            let t = digits_applied(s, ds);
            &&& t.difficulty == s.difficulty
            &&& t.negative == s.negative
            &&& t.secret_number == s.secret_number
            &&& t.state == s.state
            &&& t.guess_count == s.guess_count
            &&& t.text == s.text
            &&& t.formatting == s.formatting
            &&& t.setting_code == s.setting_code
            &&& t.wf()
        }),
    decreases ds.len(),
{
    if ds.len() > 0 {
        lemma_digits_applied_frame(s, ds.drop_last());
    }
}

/// Law: over any sequence of digit presses while guessing, the buffer's
/// signed value lies within `[min, max]` after each press — except for a
/// rejected press, which leaves the whole state exactly as it was.  Applied
/// to every prefix of a sequence, this pins the value after every call.
pub proof fn lemma_digit_presses_keep_range(s: GameState, ds: Seq<u8>)
    requires
        s.wf(),
        ds.len() > 0,
    ensures
        ({
            let prev = digits_applied(s, ds.drop_last());
            let cur = digits_applied(s, ds);
            cur == prev || s.difficulty.min <= cur.signed_guess() <= s.difficulty.max
        }),
{
    lemma_digits_applied_frame(s, ds.drop_last());
}

/// Law: digit presses never take the buffer's digit count beyond the digit
/// cap: a press that would is rejected.
pub proof fn lemma_digit_presses_keep_len(s: GameState, ds: Seq<u8>)
    requires
        s.wf(),
        n_digits(s.guess as nat) <= s.difficulty.len,
        forall|i: int| 0 <= i < ds.len() ==> ds[i] <= 9,
    ensures
        n_digits(digits_applied(s, ds).guess as nat) <= s.difficulty.len,
        dec_digits(digits_applied(s, ds).guess as nat).len() <= s.difficulty.len,
    decreases ds.len(),
{
    if ds.len() > 0 {
        lemma_digit_presses_keep_len(s, ds.drop_last());
        lemma_digits_applied_frame(s, ds.drop_last());
        let prev = digits_applied(s, ds.drop_last());
        numstr::lemma_n_digits_push(prev.guess as nat, ds.last() as nat);
    }
    numstr::lemma_dec_digits_len(digits_applied(s, ds).guess as nat);
}

/// One settings-screen digit press applied to a bound.
fn setting_digit(b: i32, d: i32) -> (r: i32)
    requires
        -1000000000 <= b <= 1000000000,
        0 <= d <= 9,
    ensures
        r == setting_digit_val(b as int, d as int),
        -999999999 <= r <= 999999999,
{
    let neg = b < 0;
    let mag: i32 = if b < 0 {
        -b
    } else {
        b
    };
    // below 100 000 000 the ten-fold magnitude plus a digit still fits the
    // ceiling; from there on the result saturates
    let new_mag: i32 = if mag < 100000000 {
        mag * 10 + d
    } else {
        TRU_MAX
    };
    if neg {
        -new_mag
    } else {
        new_mag
    }
}

/// Division by ten truncating toward zero, kept overflow-free by the
/// controller's bound band.
fn div10(b: i32) -> (r: i32)
    requires
        -1000000000 <= b <= 1000000000,
    ensures
        r == div10_toward_zero(b as int),
        -100000000 <= r <= 100000000,
{
    let neg = b < 0;
    let mag: i32 = if b < 0 {
        -b
    } else {
        b
    };
    let q: i32 = mag / 10;
    if neg {
        -q
    } else {
        q
    }
}

} // verus!
