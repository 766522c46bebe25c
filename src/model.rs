//! Messages, the program state, and the dispatch of one event through the
//! chain of follow-up messages it causes.

use vstd::prelude::*;
use crate::component::{
    screen_step, GameComp, KeyEvent, MenuComp, MenuOptions, StatComp, WindowType,
};
use crate::game::{generated_shape, new_game_succeeds, requested_words, Game, GameConf};

verus! {

/// The unit of communication between the event loop and the screens.
#[derive(Debug)]
pub enum Message {
    KeyInput(KeyEvent),
    Tick,
    StartGame(GameConf),
    StopGame,
    GameStopped(Option<Game>),
    GoToWindow(WindowType),
    Quit,
}

impl Message {
    /// Any session the message carries is well formed.
    pub open spec fn wf(&self) -> bool {
        match self {
            Message::GameStopped(Some(g)) => g.wf(),
            Message::GoToWindow(w) => w.wf(),
            _ => true,
        }
    }

    /// Position of the message in a chain of follow-ups: each follow-up,
    /// but a request to quit, ranks lower than the message it answers.
    pub open spec fn rank(&self) -> nat {
        match self {
            Message::KeyInput(_) => 4,
            Message::Tick => 4,
            Message::StopGame => 3,
            Message::GameStopped(_) => 2,
            Message::GoToWindow(_) => 1,
            Message::StartGame(_) => 1,
            Message::Quit => 0,
        }
    }
}

/// Whether the program goes on.
#[derive(Clone, Copy, Debug, PartialEq, Eq, Structural, Default)]
pub enum RunningState {
    #[default]
    Running,
    Done,
}

/// The state of the program.
pub struct Model {
    pub active_window: WindowType,
    pub running_state: RunningState,
    /// Text used to generate the reference texts.
    pub gen_text: String,
}

/// Words generated for a session without a word-count limit.
pub const GENERATED_TEXT_WORDS: usize = 1000;

/// Rank of a pending follow-up, 0 when there is none.
pub open spec fn pending_rank(m: Option<Message>) -> nat {
    match m {
        Some(m) => m.rank() + 1,
        None => 0,
    }
}

/// The menu as it opens.
pub open spec fn fresh_menu() -> WindowType {
    WindowType::Menu(MenuComp { current_opt: MenuOptions::GameConf })
}

/// Where a stopped session leads: to its results if it was complete at
/// `now`, else back to the menu.
pub open spec fn stop_destination(g: Game, now: u64) -> WindowType {
    if g.complete_at(now) {
        WindowType::Statistics(StatComp { game: g, statistics: None })
    } else {
        fresh_menu()
    }
}

/// How the program acts on answer `answer` of a screen at time `now`,
/// going from `m0` to `m1` and handing on `r`. The generating text and the
/// running state never change.
/// - A request to start opens a fresh session over generated text. Only
///   when starting can fail (see `new_game_succeeds`) may it instead hand
///   on a request to quit, leaving the screen as it was.
/// - A request to stop takes the final speed sample of the session on
///   display and hands on a copy of it; with no session on display it hands
///   on that nothing was stopped.
/// - A stopped session leads to its results if it was complete, else to the
///   menu (see `stop_destination`); nothing stopped leads to the menu.
/// - A screen handed over replaces the one on display.
/// - A request to quit is handed on; other messages end the chain. These
///   leave the screen as it was.
pub open spec fn answer_step(m0: Model, answer: Message, now: u64, m1: Model, r: Option<Message>) -> bool {
    &&& m1.gen_text == m0.gen_text
    &&& m1.running_state == m0.running_state
    &&& match answer {
        Message::StartGame(conf) => {
            ||| (r is None && (m1.active_window matches WindowType::Game(c) && c.game.is_fresh(conf)
                && generated_shape(
                c.game.correct_text@,
                requested_words(GENERATED_TEXT_WORDS, conf.limit),
            )))
            ||| (r == Some(Message::Quit) && m1.active_window == m0.active_window
                && !new_game_succeeds(GENERATED_TEXT_WORDS, conf, Some(m0.gen_text)))
        },
        Message::StopGame => match m0.active_window {
            WindowType::Game(c) => {
                &&& m1.active_window matches WindowType::Game(c1)
                &&& c1.game.sampled_of(&c.game)
                &&& r matches Some(Message::GameStopped(Some(g)))
                &&& g.same_as(&c1.game)
            },
            _ => r == Some(Message::GameStopped(None)) && m1.active_window == m0.active_window,
        },
        Message::GameStopped(Some(g)) => r == Some(Message::GoToWindow(stop_destination(g, now)))
            && m1.active_window == m0.active_window,
        Message::GameStopped(None) => r == Some(Message::GoToWindow(fresh_menu()))
            && m1.active_window == m0.active_window,
        Message::GoToWindow(w) => r is None && m1.active_window == w,
        Message::Quit => r == Some(Message::Quit) && m1.active_window == m0.active_window,
        _ => r is None && m1.active_window == m0.active_window,
    }
}

/// Acts on the answer of a screen (see `answer_step`).
pub fn process_answer(model: &mut Model, answer: Message, now: u64) -> (r: Option<Message>)
    requires
        old(model).active_window.wf(),
        answer.wf(),
    ensures
        final(model).active_window.wf(),
        r matches Some(m) ==> m.wf() && (m == Message::Quit || m.rank() < answer.rank()),
        answer_step(*old(model), answer, now, *final(model), r),
{
    match answer {
        Message::StartGame(conf) => {
            match Game::new(GENERATED_TEXT_WORDS, conf, Some(model.gen_text.clone())) {
                Ok(game) => {
                    model.active_window = WindowType::Game(GameComp { game });
                    None
                },
                Err(_) => Some(Message::Quit),
            }
        },
        Message::StopGame => match &mut model.active_window {
            WindowType::Game(comp) => {
                comp.game.stop_game();
                Some(Message::GameStopped(Some(comp.game.copied())))
            },
            _ => Some(Message::GameStopped(None)),
        },
        Message::Quit => Some(Message::Quit),
        Message::GameStopped(game) => match game {
            Some(game) => {
                if game.is_complete_at(now) {
                    Some(
                        Message::GoToWindow(
                            WindowType::Statistics(StatComp { game, statistics: None }),
                        ),
                    )
                } else {
                    Some(Message::GoToWindow(WindowType::Menu(MenuComp::new())))
                }
            },
            None => Some(Message::GoToWindow(WindowType::Menu(MenuComp::new()))),
        },
        Message::GoToWindow(window) => {
            model.active_window = window;
            None
        },
        _ => None,
    }
}

/// One message handled: the screen on display reacts to `msg` (see
/// `screen_step`) and the program acts on its answer (see `answer_step`),
/// going from `m0` to `m1` and handing on `r`.
pub open spec fn update_step(m0: Model, msg: Message, now: u64, m1: Model, r: Option<Message>) -> bool {
    exists|w: WindowType, a: Message|
        screen_step(m0.active_window, msg, now, w, a) && #[trigger] answer_step(
            Model { active_window: w, ..m0 },
            a,
            now,
            m1,
            r,
        )
}

/// Entry `i + 1` of `trace` follows from entry `i`: that entry handed on a
/// message other than a request to quit, and handling it gave entry `i + 1`.
pub open spec fn steps_on(trace: Seq<(Model, Option<Message>)>, i: int, now: u64) -> bool {
    &&& trace[i].1 matches Some(m)
    &&& m != Message::Quit
    &&& update_step(trace[i].0, m, now, trace[i + 1].0, trace[i + 1].1)
}

/// `trace` records how handing `msg` to `m0` settles: each entry is the
/// state after one step and the follow-up it handed on. The first step
/// handles `msg`, each later one the follow-up before it, and the chain
/// ends at the first step that hands on nothing or a request to quit.
pub open spec fn settles(trace: Seq<(Model, Option<Message>)>, m0: Model, msg: Message, now: u64) -> bool {
    &&& trace.len() >= 1
    &&& update_step(m0, msg, now, trace[0].0, trace[0].1)
    &&& forall|i: int| 0 <= i < trace.len() - 1 ==> #[trigger] steps_on(trace, i, now)
    &&& (trace.last().1 is None || trace.last().1 == Some(Message::Quit))
}

/// Hands `msg` to the screen on display and acts on its answer.
pub fn update(model: &mut Model, msg: Message, now: u64) -> (r: Option<Message>)
    requires
        old(model).active_window.wf(),
        msg.wf(),
    ensures
        final(model).active_window.wf(),
        r matches Some(m) ==> m.wf() && (m == Message::Quit || m.rank() < msg.rank()),
        update_step(*old(model), msg, now, *final(model), r),
{
    let ghost m0 = *model;
    let answer = model.active_window.handle_message(msg, now);
    let ghost w = model.active_window;
    let ghost a = answer;
    proof {
        assert(*model == Model { active_window: w, ..m0 });
    }
    let r = process_answer(model, answer, now);
    proof {
        assert(answer_step(Model { active_window: w, ..m0 }, a, now, *model, r));
    }
    r
}

/// Settles one event: hands `msg` on, then each follow-up in turn, until a
/// step hands on nothing (`false`) or a request to quit (`true`). The chain
/// always ends; `settles` describes each of its steps.
pub fn dispatch(model: &mut Model, msg: Message, now: u64) -> (quit: bool)
    requires
        old(model).active_window.wf(),
        msg.wf(),
    ensures
        final(model).active_window.wf(),
        (exists|trace: Seq<(Model, Option<Message>)>| #[trigger] settles(trace, *old(model), msg, now)
            && trace.last().0 == *final(model) && (quit <==> trace.last().1 == Some(Message::Quit))),
{
    let ghost m0 = *model;
    let ghost msg0 = msg;
    let mut current = update(model, msg, now);
    let ghost mut trace: Seq<(Model, Option<Message>)> = seq![(*model, current)];
    loop
        invariant
            m0 == *old(model),
            msg0 == msg,
            model.active_window.wf(),
            current matches Some(m) ==> m.wf(),
            trace.len() >= 1,
            update_step(m0, msg0, now, trace[0].0, trace[0].1),
            forall|i: int| 0 <= i < trace.len() - 1 ==> #[trigger] steps_on(trace, i, now),
            trace.last().0 == *model,
            trace.last().1 == current,
        decreases pending_rank(current),
    {
        match current {
            None => {
                proof {
                    assert(settles(trace, m0, msg0, now));
                }
                return false;
            },
            Some(Message::Quit) => {
                proof {
                    assert(settles(trace, m0, msg0, now));
                }
                return true;
            },
            Some(m) => {
                let ghost prev = trace;
                let ghost mm = m;
                current = update(model, m, now);
                proof {
                    trace = prev.push((*model, current));
                    assert forall|i: int| 0 <= i < trace.len() - 1 implies #[trigger] steps_on(
                        trace,
                        i,
                        now,
                    ) by {
                        if i < prev.len() - 1 {
                            assert(steps_on(prev, i, now));
                            assert(trace[i] == prev[i]);
                            assert(trace[i + 1] == prev[i + 1]);
                        } else {
                            assert(trace[i] == prev.last());
                            assert(prev.last().1 == Some(mm));
                        }
                    }
                }
            },
        }
    }
}

} // verus!
