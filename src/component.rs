//! The screens of the program and how each reacts to a message.

use vstd::prelude::*;
use crate::game::{
    Game, GameConf, GameMode,
    GameStat, Limit, DEFAULT_TIME_LIMIT_SECS,
};
use crate::model::Message;

verus! {

/// A key, as far as the screens tell keys apart.
#[derive(Clone, Copy, Debug, PartialEq, Eq, Structural)]
pub enum KeyCode {
    Char(char),
    Enter,
    Esc,
    Backspace,
    Up,
    Down,
    Left,
    Right,
    Other,
}

/// A key press: the key, and whether Control alone was held.
#[derive(Clone, Copy, Debug, PartialEq, Eq, Structural)]
pub struct KeyEvent {
    pub code: KeyCode,
    pub ctrl: bool,
}

/// Longest time limit that can be entered, in seconds.
pub const MAX_TIME_LIMIT_SECS: u64 = 600;

/// Largest word-count limit that can be entered.
pub const MAX_WORD_LIMIT: u64 = 10000;

/// Word-count limit offered when that policy is picked.
pub const DEFAULT_WORD_LIMIT: u32 = 50;

/// `input` bounded to `[min, max]`.
pub open spec fn clamped(input: u64, min: u64, max: u64) -> u64 {
    if input < min {
        min
    } else if input > max {
        max
    } else {
        input
    }
}

/// Relies on num_traits::clamp: `input` bounded to `[min, max]` (it only
/// asserts `min <= max` in debug builds).
#[verifier::external_body]
fn clamp_u64(input: u64, min: u64, max: u64) -> (r: u64)
    requires
        min <= max,
    ensures
        r == clamped(input, min, max),
{
    num_traits::clamp(input, min, max)
}

// ---------------------------------------------------------------- menu

/// Entries of the main menu.
#[derive(Clone, Copy, Debug, PartialEq, Eq, Structural)]
pub enum MenuOptions {
    GameConf,
    ExitProgram,
}

/// The entry below `o`, wrapping round.
pub open spec fn menu_next(o: MenuOptions) -> MenuOptions {
    match o {
        MenuOptions::GameConf => MenuOptions::ExitProgram,
        MenuOptions::ExitProgram => MenuOptions::GameConf,
    }
}

/// The entry above `o`, wrapping round.
pub open spec fn menu_prev(o: MenuOptions) -> MenuOptions {
    match o {
        MenuOptions::GameConf => MenuOptions::ExitProgram,
        MenuOptions::ExitProgram => MenuOptions::GameConf,
    }
}

impl MenuOptions {
    /// Selects the next entry.
    pub fn go_next(&mut self)
        ensures
            *final(self) == menu_next(*old(self)),
    {
        *self = match *self {
            MenuOptions::GameConf => MenuOptions::ExitProgram,
            MenuOptions::ExitProgram => MenuOptions::GameConf,
        };
    }

    /// Selects the previous entry.
    pub fn go_prev(&mut self)
        ensures
            *final(self) == menu_prev(*old(self)),
    {
        *self = match *self {
            MenuOptions::GameConf => MenuOptions::ExitProgram,
            MenuOptions::ExitProgram => MenuOptions::GameConf,
        };
    }
}

/// The main menu.
#[derive(Debug)]
pub struct MenuComp {
    pub current_opt: MenuOptions,
}

impl MenuComp {
    /// The menu with its first entry selected.
    pub fn new() -> (r: MenuComp)
        ensures
            r.current_opt == MenuOptions::GameConf,
    {
        MenuComp { current_opt: MenuOptions::GameConf }
    }

    /// Reacts to `msg`: Space or Enter opens the configuration screen or
    /// quits, as the selected entry says; Up and Down move the selection.
    /// Any other message is handed back.
    pub fn handle_message(&mut self, msg: Message) -> (r: Message)
        ensures
            r == menu_answer(old(self).current_opt, msg),
            final(self).current_opt == menu_after(old(self).current_opt, msg),
    {
        match msg {
            Message::KeyInput(key) => match key.code {
                KeyCode::Char(' ') | KeyCode::Enter => match self.current_opt {
                    MenuOptions::GameConf => Message::GoToWindow(
                        WindowType::GameConfigMenu(GameConfigComp::new()),
                    ),
                    MenuOptions::ExitProgram => Message::Quit,
                },
                KeyCode::Down => {
                    self.current_opt.go_next();
                    msg
                },
                KeyCode::Up => {
                    self.current_opt.go_prev();
                    msg
                },
                _ => msg,
            },
            _ => msg,
        }
    }
}

/// The message the menu answers to `msg` with `o` selected.
pub open spec fn menu_answer(o: MenuOptions, msg: Message) -> Message {
    match msg {
        Message::KeyInput(key) => match key.code {
            KeyCode::Char(' ') | KeyCode::Enter => match o {
                MenuOptions::GameConf => Message::GoToWindow(
                    WindowType::GameConfigMenu(fresh_config()),
                ),
                MenuOptions::ExitProgram => Message::Quit,
            },
            _ => msg,
        },
        _ => msg,
    }
}

/// The selection of the menu after `msg` with `o` selected.
pub open spec fn menu_after(o: MenuOptions, msg: Message) -> MenuOptions {
    match msg {
        Message::KeyInput(key) => match key.code {
            KeyCode::Down => menu_next(o),
            KeyCode::Up => menu_prev(o),
            _ => o,
        },
        _ => o,
    }
}


// ------------------------------------------------------- configuration

/// Setting of the configuration screen that the arrows and digits act on.
#[derive(Clone, Copy, Debug, PartialEq, Eq, Structural)]
pub enum SelectedOption {
    Mode,
    Limit,
    Input,
}

/// The setting below `o`, wrapping round.
pub open spec fn option_next(o: SelectedOption) -> SelectedOption {
    match o {
        SelectedOption::Mode => SelectedOption::Limit,
        SelectedOption::Limit => SelectedOption::Input,
        SelectedOption::Input => SelectedOption::Mode,
    }
}

/// The setting above `o`, wrapping round.
pub open spec fn option_prev(o: SelectedOption) -> SelectedOption {
    match o {
        SelectedOption::Mode => SelectedOption::Input,
        SelectedOption::Limit => SelectedOption::Mode,
        SelectedOption::Input => SelectedOption::Limit,
    }
}

/// The other mode.
pub open spec fn mode_flipped(m: GameMode) -> GameMode {
    match m {
        GameMode::Normal => GameMode::Rewrite,
        GameMode::Rewrite => GameMode::Normal,
    }
}

/// The policy after `l` in the order time, word count, unbounded.
pub open spec fn limit_right(l: Limit) -> Limit {
    match l {
        Limit::Time(_) => Limit::WordCount(DEFAULT_WORD_LIMIT),
        Limit::WordCount(_) => Limit::Unbounded,
        Limit::Unbounded => Limit::Time(DEFAULT_TIME_LIMIT_SECS),
    }
}

/// The policy before `l` in the order time, word count, unbounded.
pub open spec fn limit_left(l: Limit) -> Limit {
    match l {
        Limit::Time(_) => Limit::Unbounded,
        Limit::WordCount(_) => Limit::Time(DEFAULT_TIME_LIMIT_SECS),
        Limit::Unbounded => Limit::WordCount(DEFAULT_WORD_LIMIT),
    }
}

/// `conf` after Right with `o` selected.
pub open spec fn conf_right(o: SelectedOption, conf: GameConf) -> GameConf {
    match o {
        SelectedOption::Mode => GameConf { mode: mode_flipped(conf.mode), ..conf },
        SelectedOption::Limit => GameConf { limit: limit_right(conf.limit), ..conf },
        SelectedOption::Input => conf,
    }
}

/// `conf` after Left with `o` selected.
pub open spec fn conf_left(o: SelectedOption, conf: GameConf) -> GameConf {
    match o {
        SelectedOption::Mode => GameConf { mode: mode_flipped(conf.mode), ..conf },
        SelectedOption::Limit => GameConf { limit: limit_left(conf.limit), ..conf },
        SelectedOption::Input => conf,
    }
}

/// `x` cut to the largest `u64`.
pub open spec fn saturated(x: int) -> u64 {
    if x > u64::MAX {
        u64::MAX
    } else {
        x as u64
    }
}

/// The limit after Backspace: its last decimal digit removed.
pub open spec fn limit_backspace(l: Limit) -> Limit {
    match l {
        Limit::Time(t) => Limit::Time(clamped(t / 10, 0, MAX_TIME_LIMIT_SECS)),
        Limit::WordCount(w) => Limit::WordCount(clamped((w / 10) as u64, 0, MAX_WORD_LIMIT) as u32),
        Limit::Unbounded => Limit::Unbounded,
    }
}

/// The limit after typing decimal digit `d`: the digit appended, kept
/// between 1 and the largest limit.
pub open spec fn limit_digit(l: Limit, d: u64) -> Limit {
    match l {
        Limit::Time(t) => Limit::Time(clamped(saturated(t * 10 + d), 1, MAX_TIME_LIMIT_SECS)),
        Limit::WordCount(w) => Limit::WordCount(
            clamped((w * 10 + d) as u64, 1, MAX_WORD_LIMIT) as u32,
        ),
        Limit::Unbounded => Limit::Unbounded,
    }
}

/// Whether `c` is an ASCII decimal digit.
pub open spec fn is_digit(c: char) -> bool {
    '0' <= c && c <= '9'
}

impl SelectedOption {
    /// Selects the next setting.
    pub fn next(&mut self)
        ensures
            *final(self) == option_next(*old(self)),
    {
        *self = match *self {
            SelectedOption::Mode => SelectedOption::Limit,
            SelectedOption::Limit => SelectedOption::Input,
            SelectedOption::Input => SelectedOption::Mode,
        };
    }

    /// Selects the previous setting.
    pub fn prev(&mut self)
        ensures
            *final(self) == option_prev(*old(self)),
    {
        *self = match *self {
            SelectedOption::Mode => SelectedOption::Input,
            SelectedOption::Limit => SelectedOption::Mode,
            SelectedOption::Input => SelectedOption::Limit,
        };
    }

    /// Moves the selected setting of `conf` to its next value.
    pub fn right(&mut self, conf: &mut GameConf)
        ensures
            *final(self) == *old(self),
            *final(conf) == conf_right(*old(self), *old(conf)),
    {
        match self {
            SelectedOption::Mode => {
                conf.mode = match conf.mode {
                    GameMode::Normal => GameMode::Rewrite,
                    GameMode::Rewrite => GameMode::Normal,
                };
            },
            SelectedOption::Limit => {
                conf.limit = match conf.limit {
                    Limit::Time(_) => Limit::WordCount(DEFAULT_WORD_LIMIT),
                    Limit::WordCount(_) => Limit::Unbounded,
                    Limit::Unbounded => Limit::Time(DEFAULT_TIME_LIMIT_SECS),
                };
            },
            SelectedOption::Input => {},
        }
    }

    /// Moves the selected setting of `conf` to its previous value.
    pub fn left(&mut self, conf: &mut GameConf)
        ensures
            *final(self) == *old(self),
            *final(conf) == conf_left(*old(self), *old(conf)),
    {
        match self {
            SelectedOption::Mode => {
                conf.mode = match conf.mode {
                    GameMode::Normal => GameMode::Rewrite,
                    GameMode::Rewrite => GameMode::Normal,
                };
            },
            SelectedOption::Limit => {
                conf.limit = match conf.limit {
                    Limit::Time(_) => Limit::Unbounded,
                    Limit::WordCount(_) => Limit::Time(DEFAULT_TIME_LIMIT_SECS),
                    Limit::Unbounded => Limit::WordCount(DEFAULT_WORD_LIMIT),
                };
            },
            SelectedOption::Input => {},
        }
    }
}

/// The configuration screen: the settings being chosen and the selected one.
#[derive(Clone, Copy, Debug, PartialEq, Eq, Structural)]
pub struct GameConfigComp {
    pub game_conf: GameConf,
    pub option: SelectedOption,
}

/// The configuration screen as it opens: default settings, mode selected.
pub open spec fn fresh_config() -> GameConfigComp {
    GameConfigComp {
        game_conf: GameConf { mode: GameMode::Normal, limit: Limit::Time(DEFAULT_TIME_LIMIT_SECS) },
        option: SelectedOption::Mode,
    }
}

/// The message the configuration screen `s` answers to `msg`: Escape goes
/// back to the menu, Enter (or Space, unless the limit input is selected)
/// starts a session with the settings; anything else is handed back.
pub open spec fn config_answer(s: GameConfigComp, msg: Message) -> Message {
    match msg {
        Message::KeyInput(key) => match key.code {
            KeyCode::Esc => Message::GoToWindow(
                WindowType::Menu(MenuComp { current_opt: MenuOptions::GameConf }),
            ),
            KeyCode::Enter => Message::StartGame(s.game_conf),
            KeyCode::Char(c) => if c == ' ' && s.option != SelectedOption::Input {
                Message::StartGame(s.game_conf)
            } else {
                msg
            },
            _ => msg,
        },
        _ => msg,
    }
}

/// The configuration screen `s` after `msg`: Up and Down change the
/// selected setting, Left and Right its value, Backspace drops the last
/// digit of the limit, and a digit typed with the limit input selected is
/// appended to it.
pub open spec fn config_after(s: GameConfigComp, msg: Message) -> GameConfigComp {
    match msg {
        Message::KeyInput(key) => match key.code {
            KeyCode::Down => GameConfigComp { option: option_next(s.option), ..s },
            KeyCode::Up => GameConfigComp { option: option_prev(s.option), ..s },
            KeyCode::Left => GameConfigComp { game_conf: conf_left(s.option, s.game_conf), ..s },
            KeyCode::Right => GameConfigComp { game_conf: conf_right(s.option, s.game_conf), ..s },
            KeyCode::Backspace => GameConfigComp {
                game_conf: GameConf { limit: limit_backspace(s.game_conf.limit), ..s.game_conf },
                ..s
            },
            KeyCode::Char(c) => if s.option == SelectedOption::Input && is_digit(c) {
                GameConfigComp {
                    game_conf: GameConf {
                        limit: limit_digit(s.game_conf.limit, (c as u32 - '0' as u32) as u64),
                        ..s.game_conf
                    },
                    ..s
                }
            } else {
                s
            },
            _ => s,
        },
        _ => s,
    }
}

impl GameConfigComp {
    /// The screen as it opens (see `fresh_config`).
    pub fn new() -> (r: GameConfigComp)
        ensures
            r == fresh_config(),
    {
        GameConfigComp { game_conf: GameConf::new(), option: SelectedOption::Mode }
    }

    /// Reacts to `msg` (see `config_answer` and `config_after`).
    pub fn handle_message(&mut self, msg: Message) -> (r: Message)
        ensures
            r == config_answer(*old(self), msg),
            *final(self) == config_after(*old(self), msg),
    {
        let mut s = *self;
        let r = match msg {
            Message::KeyInput(key) => match key.code {
                KeyCode::Esc => Message::GoToWindow(WindowType::Menu(MenuComp::new())),
                KeyCode::Down => {
                    s.option.next();
                    msg
                },
                KeyCode::Up => {
                    s.option.prev();
                    msg
                },
                KeyCode::Left => {
                    s.option.left(&mut s.game_conf);
                    msg
                },
                KeyCode::Right => {
                    s.option.right(&mut s.game_conf);
                    msg
                },
                KeyCode::Backspace => {
                    s.game_conf.limit = match s.game_conf.limit {
                        Limit::Time(t) => Limit::Time(clamp_u64(t / 10, 0, MAX_TIME_LIMIT_SECS)),
                        Limit::WordCount(wc) => Limit::WordCount(
                            clamp_u64((wc / 10) as u64, 0, MAX_WORD_LIMIT) as u32,
                        ),
                        Limit::Unbounded => Limit::Unbounded,
                    };
                    msg
                },
                KeyCode::Char(c) if s.option == SelectedOption::Input => {
                    if '0' <= c && c <= '9' {
                        let d = (c as u32 - '0' as u32) as u64;
                        s.game_conf.limit = match s.game_conf.limit {
                            Limit::Time(t) => {
                                let appended = match t.checked_mul(10) {
                                    Some(x) => x.saturating_add(d),
                                    None => u64::MAX,
                                };
                                proof {
                                    assert(appended == saturated(t * 10 + d));
                                }
                                Limit::Time(clamp_u64(appended, 1, MAX_TIME_LIMIT_SECS))
                            },
                            Limit::WordCount(wc) => Limit::WordCount(
                                clamp_u64(wc as u64 * 10 + d, 1, MAX_WORD_LIMIT) as u32,
                            ),
                            Limit::Unbounded => Limit::Unbounded,
                        };
                    }
                    msg
                },
                KeyCode::Enter | KeyCode::Char(' ') => Message::StartGame(s.game_conf),
                _ => msg,
            },
            _ => msg,
        };
        *self = s;
        r
    }
}


// ------------------------------------------------------------- session

/// How the session screen reacts to `msg` at time `now`, taking session `g0`
/// to `g1` and answering `r`. A character is typed (while the reference is
/// not fully typed), and the session stops if it is then complete; Backspace
/// removes a letter, or the current word with Control; Escape stops the
/// session; a tick stops it once it is complete. Otherwise the message is
/// handed back and the session stays.
pub open spec fn game_screen_step(g0: Game, msg: Message, now: u64, g1: Game, r: Message) -> bool {
    match msg {
        Message::KeyInput(key) => match key.code {
            KeyCode::Esc => r == Message::StopGame && g1.same_as(&g0),
            KeyCode::Char(c) => {
                &&& if g0.written_vec@.len() < g0.correct_text@.len() {
                    g1.keystroke_of(&g0, c)
                } else {
                    g1.same_as(&g0)
                }
                &&& if g1.complete_at(now) {
                    r == Message::StopGame
                } else {
                    r == msg
                }
            },
            KeyCode::Backspace => {
                &&& r == msg
                &&& if key.ctrl {
                    g1.word_undo_of(&g0)
                } else {
                    g1.backspace_of(&g0)
                }
            },
            _ => r == msg && g1.same_as(&g0),
        },
        Message::Tick => {
            &&& g1.same_as(&g0)
            &&& if g0.complete_at(now) {
                r == Message::StopGame
            } else {
                r == msg
            }
        },
        _ => r == msg && g1.same_as(&g0),
    }
}

/// The screen of a running session.
#[derive(Debug)]
pub struct GameComp {
    pub game: Game,
}

impl GameComp {
    /// Reacts to `msg` at time `now` (see `game_screen_step`).
    pub fn handle_message(&mut self, msg: Message, now: u64) -> (r: Message)
        requires
            old(self).game.wf(),
        ensures
            final(self).game.wf(),
            game_screen_step(old(self).game, msg, now, final(self).game, r),
    {
        match msg {
            Message::KeyInput(key) => match key.code {
                KeyCode::Esc => Message::StopGame,
                KeyCode::Char(c) => {
                    if self.game.written_vec.len() < self.game.correct_text.len() {
                        self.game.char_key_pressed(c);
                    }
                    if self.game.is_complete_at(now) {
                        Message::StopGame
                    } else {
                        msg
                    }
                },
                KeyCode::Backspace => {
                    if key.ctrl {
                        self.game.clear_last_world();
                    } else {
                        self.game.clear_last_letter();
                    }
                    msg
                },
                _ => msg,
            },
            Message::Tick => {
                if self.game.is_complete_at(now) {
                    Message::StopGame
                } else {
                    msg
                }
            },
            _ => msg,
        }
    }
}

// ------------------------------------------------------------- results

/// The results screen: the finished session and, once taken, the snapshot
/// of its statistics.
#[derive(Debug)]
pub struct StatComp {
    pub game: Game,
    pub statistics: Option<GameStat>,
}

/// The message the results screen answers to `msg`: Escape quits, Enter
/// goes back to the menu; anything else is handed back.
pub open spec fn stat_answer(msg: Message) -> Message {
    match msg {
        Message::KeyInput(key) => match key.code {
            KeyCode::Esc => Message::Quit,
            KeyCode::Enter => Message::GoToWindow(
                WindowType::Menu(MenuComp { current_opt: MenuOptions::GameConf }),
            ),
            _ => msg,
        },
        _ => msg,
    }
}

impl StatComp {
    /// Reacts to `msg` (see `stat_answer`); the screen does not change.
    pub fn handle_message(&mut self, msg: Message) -> (r: Message)
        ensures
            r == stat_answer(msg),
            final(self).game == old(self).game,
            final(self).statistics == old(self).statistics,
    {
        match msg {
            Message::KeyInput(key) => match key.code {
                KeyCode::Esc => Message::Quit,
                KeyCode::Enter => Message::GoToWindow(WindowType::Menu(MenuComp::new())),
                _ => msg,
            },
            _ => msg,
        }
    }

    /// The statistics of the finished session. The first call takes a
    /// snapshot and keeps it; every later call returns that same snapshot.
    pub fn get_statistics(&mut self) -> (r: GameStat)
        requires
            old(self).game.wf(),
        ensures
            final(self).game.wf(),
            final(self).statistics matches Some(s) && s.same_as(&r),
            old(self).statistics matches Some(s) ==> (r.same_as(&s) && final(self).game.same_as(
                &old(self).game,
            )),
            old(self).statistics is None ==> old(self).game.snapshot_of(&r),
    {
        match &self.statistics {
            Some(s) => {
                let r = s.copied();
                r
            },
            None => {
                let r = self.game.get_statistics();
                self.statistics = Some(r.copied());
                r
            },
        }
    }
}

// ------------------------------------------------------------- screens

/// The screen on display.
#[derive(Debug)]
pub enum WindowType {
    Menu(MenuComp),
    Game(GameComp),
    Statistics(StatComp),
    GameConfigMenu(GameConfigComp),
}

/// How screen `w0` reacts to `msg` at time `now`, becoming `w1` and
/// answering `r`: each kind of screen as its own handler says, and the kind
/// of screen stays.
pub open spec fn screen_step(w0: WindowType, msg: Message, now: u64, w1: WindowType, r: Message) -> bool {
    match w0 {
        WindowType::Menu(c) => {
            &&& r == menu_answer(c.current_opt, msg)
            &&& w1 == WindowType::Menu(MenuComp { current_opt: menu_after(c.current_opt, msg) })
        },
        WindowType::GameConfigMenu(c) => {
            &&& r == config_answer(c, msg)
            &&& w1 == WindowType::GameConfigMenu(config_after(c, msg))
        },
        WindowType::Statistics(_) => r == stat_answer(msg) && w1 == w0,
        WindowType::Game(c) => w1 matches WindowType::Game(c2) && game_screen_step(
            c.game,
            msg,
            now,
            c2.game,
            r,
        ),
    }
}

impl WindowType {
    /// The session a screen holds is well formed.
    pub open spec fn wf(&self) -> bool {
        match self {
            WindowType::Game(c) => c.game.wf(),
            WindowType::Statistics(c) => c.game.wf(),
            _ => true,
        }
    }

    /// Hands `msg`, arriving at time `now`, to the screen on display and
    /// returns its answer (see `screen_step`).
    pub fn handle_message(&mut self, msg: Message, now: u64) -> (r: Message)
        requires
            old(self).wf(),
        ensures
            final(self).wf(),
            screen_step(*old(self), msg, now, *final(self), r),
            msg.wf() ==> r.wf(),
            r.rank() <= msg.rank(),
    {
        match self {
            WindowType::Menu(comp) => comp.handle_message(msg),
            WindowType::Game(comp) => comp.handle_message(msg, now),
            WindowType::Statistics(comp) => comp.handle_message(msg),
            WindowType::GameConfigMenu(comp) => comp.handle_message(msg),
        }
    }
}

} // verus!
