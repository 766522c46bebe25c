//! Engine of a terminal typing exercise: keystroke matching against a
//! reference text, limit policies, word counting, statistics, and the
//! message-driven screen state machine around a typing session.

pub mod component;
pub mod game;
pub mod input;
pub mod matching;
pub mod model;
