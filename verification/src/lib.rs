//! A modal key interpreter for a line editor: it turns terminal input into
//! the editing events of a vi-style Normal and Insert mode.
//!
//! [`Vi`] owns the state and answers each input event with one
//! [`ReedlineEvent`]. What it does is stated over mathematical values in
//! [`model`]: `parse_event` returns exactly what `model::step` says. The
//! grammar of Normal mode is in [`parser`]; [`spelling`] says how a command
//! is written in keys and proves that the grammar reads exactly that, and
//! [`laws`] holds what follows for every input.

pub mod command;
pub mod event;
pub mod keybindings;
pub mod keys;
pub mod laws;
pub mod model;
pub mod motion;
pub mod parser;
pub mod spelling;
pub mod text;
pub mod vi;
pub mod vi_keybindings;

pub use command::{Action, Operator};
pub use event::{EditCommand, ReedlineEvent};
pub use keybindings::Keybindings;
pub use keys::{
    Event, KeyCode, KeyCombination, KeyEvent, KeyEventKind, KeyModifiers, MediaKeyCode,
    ModifierKeyCode, ReedlineRawEvent,
};
pub use model::ViMode;
pub use motion::{Direction, Motion, ParseResult, ViCharSearch};
pub use parser::{parse, ParsedCommand, Verb};
pub use text::normalize_newlines;
pub use vi::{PromptEditMode, PromptViMode, Vi};
pub use vi_keybindings::{default_vi_insert_keybindings, default_vi_normal_keybindings};
