//! The interpreter as a state machine over mathematical values: the state,
//! and the step that one input event makes.

use crate::event::{one, EditCommandView, ReedlineEventView};
use crate::keys::{
    ascii_lower, ascii_upper, EventView, KeyCode, KeyCombination, KeyModifiers, CONTROL_ALT,
    CONTROL_ALT_SHIFT,
};
use crate::motion::{ParseResult, ViCharSearch};
use crate::parser::classify;
use crate::text::normalized_newlines;
use vstd::prelude::*;

verus! {

/// The two modes of the editor.
#[derive(Clone, Copy, Debug, PartialEq, Eq, Structural)]
pub enum ViMode {
    Normal,
    Insert,
}

/// A keybinding table as a mathematical value.
pub type Bindings = Map<KeyCombination, ReedlineEventView>;

/// The state of the interpreter.
pub ghost struct ViView {
    pub mode: ViMode,
    /// The keys of the Normal-mode command that is being typed.
    pub cache: Seq<char>,
    /// The last search for a character, for `;` and `,`.
    pub last_char_search: Option<ViCharSearch>,
    pub insert_keybindings: Bindings,
    pub normal_keybindings: Bindings,
}

/// A state after a step, and the event that the step hands out.
pub ghost struct Step {
    pub state: ViView,
    pub output: ReedlineEventView,
}

impl ViView {
    /// No command is being typed: the cache is empty.
    pub open spec fn seq_completed(self) -> bool {
        self.cache.len() == 0
    }

    /// While a command is being typed, the cache is the beginning of a
    /// command.
    pub open spec fn wf(self) -> bool {
        !self.seq_completed() ==> classify(self.cache) is Incomplete
    }

    /// The state that an interpreter begins in.
    pub open spec fn initial(insert_keybindings: Bindings, normal_keybindings: Bindings) -> ViView {
        ViView {
            mode: ViMode::Insert,
            cache: Seq::empty(),
            last_char_search: None,
            insert_keybindings,
            normal_keybindings,
        }
    }

    /// The table of the mode that the editor is in.
    pub open spec fn keybindings(self) -> Bindings {
        match self.mode {
            ViMode::Normal => self.normal_keybindings,
            ViMode::Insert => self.insert_keybindings,
        }
    }

    /// The state with no command being typed, and all else as it is.
    pub open spec fn idle(self) -> ViView {
        ViView { cache: Seq::empty(), ..self }
    }
}

/// What `table` binds the key combination to, or the no-op.
pub open spec fn bound_event(table: Bindings, modifiers: u8, code: KeyCode) -> ReedlineEventView {
    let key = KeyCombination { modifier: modifiers, key_code: code };
    if table.contains_key(key) {
        table[key]
    } else {
        ReedlineEventView::NoOp
    }
}

/// The modifier set is empty, or Shift alone.
pub open spec fn plain_or_shift(modifiers: u8) -> bool {
    modifiers == KeyModifiers::NONE || modifiers == KeyModifiers::SHIFT
}

/// The character that a key press stands for in Normal mode: the lower-case
/// letter, or the upper-case one where Shift alone is held.
pub open spec fn typed_key(modifiers: u8, c: char) -> char {
    if modifiers == KeyModifiers::SHIFT {
        ascii_upper(ascii_lower(c))
    } else {
        ascii_lower(c)
    }
}

/// The key combination under which Normal mode looks a character up.
pub open spec fn normal_lookup(modifiers: u8, c: char) -> KeyCombination {
    KeyCombination { modifier: modifiers, key_code: KeyCode::Char(ascii_lower(c)) }
}

/// In state `s`, Normal mode hands the character to the grammar: a command is
/// being typed, or the character has no binding of its own and comes with no
/// modifier but Shift.
pub open spec fn feeds_grammar(s: ViView, modifiers: u8, c: char) -> bool {
    !s.seq_completed() || (!s.normal_keybindings.contains_key(normal_lookup(modifiers, c))
        && plain_or_shift(modifiers))
}

/// The step of a character that the grammar takes.
pub open spec fn grammar_step(s: ViView, key: char) -> Step {
    let keys = s.cache.push(key);
    match classify(keys) {
        ParseResult::Invalid => Step { state: s.idle(), output: ReedlineEventView::NoOp },
        ParseResult::Incomplete => Step {
            state: ViView { cache: keys, ..s },
            output: ReedlineEventView::NoOp,
        },
        ParseResult::Complete(command) => Step {
            state: ViView {
                mode: if command.enters_insert_mode() {
                    ViMode::Insert
                } else {
                    s.mode
                },
                last_char_search: command.remembered(s.last_char_search),
                ..s.idle()
            },
            output: command.event(s.last_char_search),
        },
    }
}

/// The step of a character key in Normal mode.
pub open spec fn normal_char_step(s: ViView, modifiers: u8, c: char) -> Step {
    if feeds_grammar(s, modifiers, c) {
        grammar_step(s, typed_key(modifiers, c))
    } else {
        Step {
            state: s,
            output: bound_event(s.normal_keybindings, modifiers, KeyCode::Char(ascii_lower(c))),
        }
    }
}

/// The character under which Insert mode looks a key press up, and which it
/// inserts: as it came where no modifier is held, in lower case otherwise.
pub open spec fn insert_key(modifiers: u8, c: char) -> char {
    if modifiers == KeyModifiers::NONE {
        c
    } else {
        ascii_lower(c)
    }
}

/// The modifier sets with which a character is text to insert: none, Shift,
/// and what a key for a third level reports, Control with Alt, with or
/// without Shift.
pub open spec fn inserts_text(modifiers: u8) -> bool {
    modifiers == KeyModifiers::NONE || modifiers == KeyModifiers::SHIFT || modifiers == CONTROL_ALT
        || modifiers == CONTROL_ALT_SHIFT
}

/// The event of a character key in Insert mode: its binding if it has one,
/// else the character as text, else nothing.
pub open spec fn insert_char_event(table: Bindings, modifiers: u8, c: char) -> ReedlineEventView {
    let key = insert_key(modifiers, c);
    if table.contains_key(KeyCombination { modifier: modifiers, key_code: KeyCode::Char(key) }) {
        table[KeyCombination { modifier: modifiers, key_code: KeyCode::Char(key) }]
    } else if inserts_text(modifiers) {
        one(
            EditCommandView::InsertChar(
                if modifiers == KeyModifiers::SHIFT {
                    ascii_upper(key)
                } else {
                    key
                },
            ),
        )
    } else {
        ReedlineEventView::NoOp
    }
}

/// The step of Escape with no modifier: the command being typed is dropped,
/// and Insert mode is left with the cursor moved one place back.
pub open spec fn escape_step(s: ViView) -> Step {
    Step {
        state: ViView { mode: ViMode::Normal, ..s.idle() },
        output: match s.mode {
            ViMode::Insert => ReedlineEventView::Multiple(
                seq![ReedlineEventView::Left, ReedlineEventView::Esc, ReedlineEventView::Repaint],
            ),
            ViMode::Normal => ReedlineEventView::Multiple(
                seq![ReedlineEventView::Esc, ReedlineEventView::Repaint],
            ),
        },
    }
}

/// The step of Enter with no modifier: the line is submitted, and the next
/// one begins in Insert mode.
pub open spec fn enter_step(s: ViView) -> Step {
    Step { state: ViView { mode: ViMode::Insert, ..s }, output: ReedlineEventView::Enter }
}

/// The step of a key press. The order of the cases matters: a character goes
/// by its mode before anything else, then come Escape and Enter without
/// modifier, and only what is left is looked up in the table of the mode.
pub open spec fn key_step(s: ViView, modifiers: u8, code: KeyCode) -> Step {
    match code {
        KeyCode::Char(c) => match s.mode {
            ViMode::Normal => normal_char_step(s, modifiers, c),
            ViMode::Insert => Step {
                state: s,
                output: insert_char_event(s.insert_keybindings, modifiers, c),
            },
        },
        _ => if code == KeyCode::Esc && modifiers == KeyModifiers::NONE {
            escape_step(s)
        } else if code == KeyCode::Enter && modifiers == KeyModifiers::NONE {
            enter_step(s)
        } else {
            Step { state: s, output: bound_event(s.keybindings(), modifiers, code) }
        },
    }
}

/// The step of an input event.
pub open spec fn step(s: ViView, event: EventView) -> Step {
    match event {
        EventView::Key(key) => key_step(s, key.modifiers, key.code),
        EventView::Mouse => Step { state: s, output: ReedlineEventView::Mouse },
        EventView::Resize(width, height) => Step {
            state: s,
            output: ReedlineEventView::Resize(width, height),
        },
        EventView::FocusGained => Step { state: s, output: ReedlineEventView::NoOp },
        EventView::FocusLost => Step { state: s, output: ReedlineEventView::NoOp },
        EventView::Paste(body) => Step {
            state: s,
            output: one(EditCommandView::InsertString(normalized_newlines(body))),
        },
    }
}

} // verus!
