//! The interpreter itself: it owns the mode, the keys of the command that is
//! being typed, the memory of the last search and the two keybinding tables,
//! and answers each input event with one event for the line editor.

use crate::event::{edit, event_views, lemma_multiple_view, EditCommand, ReedlineEvent};
use crate::keybindings::Keybindings;
use crate::keys::{
    to_ascii_lowercase, to_ascii_uppercase, Event, KeyCode, KeyModifiers, ReedlineRawEvent,
    CONTROL_ALT, CONTROL_ALT_SHIFT,
};
use crate::model::{
    escape_step, insert_char_event, normal_char_step, step, Step, ViMode, ViView,
};
use crate::motion::{ParseResult, ViCharSearch};
use crate::parser::parse;
use crate::text::normalize_newlines;
use crate::vi_keybindings::{
    bind, default_insert_bindings, default_normal_bindings, default_vi_insert_keybindings,
    default_vi_normal_keybindings,
};
use vstd::prelude::*;

verus! {

/// The mode as the prompt shows it.
#[derive(Clone, Copy, Debug, PartialEq, Eq, Structural)]
pub enum PromptViMode {
    Normal,
    Insert,
}

/// The edit mode that the prompt is told of.
#[derive(Clone, Copy, Debug, PartialEq, Eq, Structural)]
pub enum PromptEditMode {
    Default,
    Emacs,
    Vi(PromptViMode),
}

/// A vi-style interpreter of input events.
///
/// While a command is being typed in Normal mode its keys are kept, and they
/// are always the beginning of a command: keys that cannot become one are
/// dropped at once.
pub struct Vi {
    cache: Vec<char>,
    insert_keybindings: Keybindings,
    normal_keybindings: Keybindings,
    mode: ViMode,
    last_char_search: Option<ViCharSearch>,
}

impl View for Vi {
    type V = ViView;

    closed spec fn view(&self) -> ViView {
        ViView {
            mode: self.mode,
            cache: self.cache@,
            last_char_search: self.last_char_search,
            insert_keybindings: self.insert_keybindings@,
            normal_keybindings: self.normal_keybindings@,
        }
    }
}

impl Default for Vi {
    /// An interpreter in Insert mode with the default keybindings.
    fn default() -> (vi: Vi)
        ensures
            vi@ == ViView::initial(default_insert_bindings(), default_normal_bindings()),
    {
        Vi {
            insert_keybindings: default_vi_insert_keybindings(),
            normal_keybindings: default_vi_normal_keybindings(),
            cache: Vec::new(),
            mode: ViMode::Insert,
            last_char_search: None,
        }
    }
}

impl Vi {
    #[verifier::type_invariant]
    spec fn well_formed(&self) -> bool {
        self@.wf()
    }

    /// An interpreter in Insert mode with the given keybindings.
    pub fn new(insert_keybindings: Keybindings, normal_keybindings: Keybindings) -> (vi: Vi)
        ensures
            vi@ == ViView::initial(insert_keybindings@, normal_keybindings@),
    {
        Vi {
            insert_keybindings,
            normal_keybindings,
            cache: Vec::new(),
            mode: ViMode::Insert,
            last_char_search: None,
        }
    }

    /// An interpreter with the given keybindings that begins in `mode`.
    pub fn with_mode(
        insert_keybindings: Keybindings,
        normal_keybindings: Keybindings,
        mode: ViMode,
    ) -> (vi: Vi)
        ensures
            vi@ == (ViView { mode, ..ViView::initial(insert_keybindings@, normal_keybindings@) }),
    {
        Vi {
            insert_keybindings,
            normal_keybindings,
            cache: Vec::new(),
            mode,
            last_char_search: None,
        }
    }

    /// Binds the key combination to `command` in the table of `mode`, in
    /// place of what it was bound to there before.
    pub fn add_binding(
        &mut self,
        mode: ViMode,
        modifier: u8,
        key_code: KeyCode,
        command: ReedlineEvent,
    )
        ensures
            final(self)@ == match mode {
                ViMode::Normal => (ViView {
                    normal_keybindings: bind(
                        old(self)@.normal_keybindings,
                        modifier,
                        key_code,
                        command@,
                    ),
                    ..old(self)@
                }),
                ViMode::Insert => (ViView {
                    insert_keybindings: bind(
                        old(self)@.insert_keybindings,
                        modifier,
                        key_code,
                        command@,
                    ),
                    ..old(self)@
                }),
            },
    {
        proof {
            use_type_invariant(&*self);
        }
        let mut table = Keybindings::new();
        match mode {
            ViMode::Normal => {
                core::mem::swap(&mut self.normal_keybindings, &mut table);
                table.add_binding(modifier, key_code, command);
                core::mem::swap(&mut self.normal_keybindings, &mut table);
            },
            ViMode::Insert => {
                core::mem::swap(&mut self.insert_keybindings, &mut table);
                table.add_binding(modifier, key_code, command);
                core::mem::swap(&mut self.insert_keybindings, &mut table);
            },
        }
    }

    /// A character key in Normal mode.
    fn normal_char(&mut self, modifiers: u8, c: char) -> (out: ReedlineEvent)
        ensures
            (Step { state: final(self)@, output: out@ }) == normal_char_step(
                old(self)@,
                modifiers,
                c,
            ),
    {
        let lower = to_ascii_lowercase(c);
        let binding = self.normal_keybindings.find_binding(modifiers, KeyCode::Char(lower));
        if !self.cache.is_empty() || (binding.is_none() && (modifiers == KeyModifiers::NONE
            || modifiers == KeyModifiers::SHIFT)) {
            let key = if modifiers == KeyModifiers::SHIFT {
                to_ascii_uppercase(lower)
            } else {
                lower
            };
            let mut keys: Vec<char> = Vec::new();
            core::mem::swap(&mut self.cache, &mut keys);
            keys.push(key);
            match parse(keys.as_slice()) {
                ParseResult::Invalid => ReedlineEvent::NoOp,
                ParseResult::Incomplete => {
                    self.cache = keys;
                    ReedlineEvent::NoOp
                },
                ParseResult::Complete(command) => {
                    if command.is_insert_entry() {
                        self.mode = ViMode::Insert;
                    }
                    let mut memory = self.last_char_search;
                    let event = command.to_reedline_event(&mut memory);
                    self.last_char_search = memory;
                    event
                },
            }
        } else if let Some(event) = binding {
            event
        } else {
            ReedlineEvent::NoOp
        }
    }

    /// A character key in Insert mode.
    fn insert_char(&self, modifiers: u8, c: char) -> (out: ReedlineEvent)
        ensures
            out@ == insert_char_event(self@.insert_keybindings, modifiers, c),
    {
        let key = if modifiers == KeyModifiers::NONE {
            c
        } else {
            to_ascii_lowercase(c)
        };
        match self.insert_keybindings.find_binding(modifiers, KeyCode::Char(key)) {
            Some(event) => event,
            None => {
                if modifiers == KeyModifiers::NONE || modifiers == KeyModifiers::SHIFT || modifiers
                    == CONTROL_ALT || modifiers == CONTROL_ALT_SHIFT {
                    edit(
                        EditCommand::InsertChar(
                            if modifiers == KeyModifiers::SHIFT {
                                to_ascii_uppercase(key)
                            } else {
                                key
                            },
                        ),
                    )
                } else {
                    ReedlineEvent::NoOp
                }
            },
        }
    }

    /// Escape with no modifier.
    fn escape(&mut self) -> (out: ReedlineEvent)
        ensures
            (Step { state: final(self)@, output: out@ }) == escape_step(old(self)@),
    {
        self.cache = Vec::new();
        let mut events: Vec<ReedlineEvent> = Vec::new();
        if self.mode == ViMode::Insert {
            self.mode = ViMode::Normal;
            events.push(ReedlineEvent::Left);
        }
        events.push(ReedlineEvent::Esc);
        events.push(ReedlineEvent::Repaint);
        proof {
            lemma_multiple_view(events);
            assert(event_views(events@) =~= escape_step(old(self)@).output->Multiple_0);
        }
        ReedlineEvent::Multiple(events)
    }

    /// Answers one input event: changes the state as the event asks, and
    /// returns the event that the line editor is to handle.
    pub fn parse_event(&mut self, event: ReedlineRawEvent) -> (out: ReedlineEvent)
        ensures
            final(self)@.wf(),
            (Step { state: final(self)@, output: out@ }) == step(old(self)@, event@),
    {
        proof {
            use_type_invariant(&*self);
        }
        match event.into_event() {
            Event::Key(key) => {
                let modifiers = key.modifiers;
                match key.code {
                    KeyCode::Char(c) => match self.mode {
                        ViMode::Normal => self.normal_char(modifiers, c),
                        ViMode::Insert => self.insert_char(modifiers, c),
                    },
                    code => {
                        if code == KeyCode::Esc && modifiers == KeyModifiers::NONE {
                            self.escape()
                        } else if code == KeyCode::Enter && modifiers == KeyModifiers::NONE {
                            self.mode = ViMode::Insert;
                            ReedlineEvent::Enter
                        } else {
                            let bound = match self.mode {
                                ViMode::Normal => self.normal_keybindings.find_binding(
                                    modifiers,
                                    code,
                                ),
                                ViMode::Insert => self.insert_keybindings.find_binding(
                                    modifiers,
                                    code,
                                ),
                            };
                            match bound {
                                Some(event) => event,
                                None => ReedlineEvent::NoOp,
                            }
                        }
                    },
                }
            },
            Event::Mouse => ReedlineEvent::Mouse,
            Event::Resize(width, height) => ReedlineEvent::Resize(width, height),
            Event::FocusGained => ReedlineEvent::NoOp,
            Event::FocusLost => ReedlineEvent::NoOp,
            Event::Paste(body) => edit(
                EditCommand::InsertString(normalize_newlines(body.as_str())),
            ),
        }
    }

    /// The mode, as the prompt is to show it.
    pub fn edit_mode(&self) -> (mode: PromptEditMode)
        ensures
            mode == match self@.mode {
                ViMode::Normal => PromptEditMode::Vi(PromptViMode::Normal),
                ViMode::Insert => PromptEditMode::Vi(PromptViMode::Insert),
            },
    {
        match self.mode {
            ViMode::Normal => PromptEditMode::Vi(PromptViMode::Normal),
            ViMode::Insert => PromptEditMode::Vi(PromptViMode::Insert),
        }
    }

    /// The mode that the interpreter is in.
    pub fn mode(&self) -> (mode: ViMode)
        ensures
            mode == self@.mode,
    {
        self.mode
    }

    /// The keys of the command that is being typed.
    pub fn pending_keys(&self) -> (keys: &[char])
        ensures
            keys@ == self@.cache,
    {
        self.cache.as_slice()
    }

    /// Whether no command is being typed.
    pub fn sequence_completed(&self) -> (completed: bool)
        ensures
            completed == self@.seq_completed(),
    {
        self.cache.is_empty()
    }

    /// The last search for a character, which `;` and `,` repeat.
    pub fn last_char_search(&self) -> (search: Option<ViCharSearch>)
        ensures
            search == self@.last_char_search,
    {
        self.last_char_search
    }
}

} // verus!
