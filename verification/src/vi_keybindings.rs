//! The keybindings that the two modes have unless others are given.

use crate::event::{
    edit, first_of_two, first_of_three, one, EditCommand, EditCommandView, ReedlineEvent,
    ReedlineEventView,
};
use crate::keybindings::Keybindings;
use crate::keys::{KeyCode, KeyCombination, KeyModifiers};
use crate::model::Bindings;
use vstd::prelude::*;

verus! {

/// `table` with the key combination bound to `event`.
pub open spec fn bind(
    table: Bindings,
    modifier: u8,
    key_code: KeyCode,
    event: ReedlineEventView,
) -> Bindings {
    table.insert(KeyCombination { modifier, key_code }, event)
}

/// Up, in an open menu or else in the line or the history.
pub open spec fn menu_up() -> ReedlineEventView {
    ReedlineEventView::UntilFound(seq![ReedlineEventView::MenuUp, ReedlineEventView::Up])
}

/// Down, in an open menu or else in the line or the history.
pub open spec fn menu_down() -> ReedlineEventView {
    ReedlineEventView::UntilFound(seq![ReedlineEventView::MenuDown, ReedlineEventView::Down])
}

/// Left, in an open menu or else in the line.
pub open spec fn menu_left() -> ReedlineEventView {
    ReedlineEventView::UntilFound(seq![ReedlineEventView::MenuLeft, ReedlineEventView::Left])
}

/// Right: accept the hint, or else move in an open menu or in the line.
pub open spec fn menu_right() -> ReedlineEventView {
    ReedlineEventView::UntilFound(
        seq![
            ReedlineEventView::HistoryHintComplete,
            ReedlineEventView::MenuRight,
            ReedlineEventView::Right,
        ],
    )
}

/// To the end of the line: accept the hint, or else move there.
pub open spec fn hint_or_line_end() -> ReedlineEventView {
    ReedlineEventView::UntilFound(
        seq![
            ReedlineEventView::HistoryHintComplete,
            one(EditCommandView::MoveToLineEnd { select: false }),
        ],
    )
}

/// One word right: accept a word of the hint, or else move past the word.
pub open spec fn hint_or_word_right() -> ReedlineEventView {
    ReedlineEventView::UntilFound(
        seq![
            ReedlineEventView::HistoryHintWordComplete,
            one(EditCommandView::MoveWordRight { select: false }),
        ],
    )
}

/// `table` with the control keys that both modes share.
pub open spec fn with_control_bindings(table: Bindings) -> Bindings {
    let table = bind(table, KeyModifiers::NONE, KeyCode::Esc, ReedlineEventView::Esc);
    let table = bind(table, KeyModifiers::CONTROL, KeyCode::Char('c'), ReedlineEventView::CtrlC);
    let table = bind(table, KeyModifiers::CONTROL, KeyCode::Char('d'), ReedlineEventView::CtrlD);
    let table = bind(
        table,
        KeyModifiers::CONTROL,
        KeyCode::Char('l'),
        ReedlineEventView::ClearScreen,
    );
    let table = bind(
        table,
        KeyModifiers::CONTROL,
        KeyCode::Char('r'),
        ReedlineEventView::SearchHistory,
    );
    bind(table, KeyModifiers::CONTROL, KeyCode::Char('o'), ReedlineEventView::OpenEditor)
}

/// `table` with the keys that move the cursor in both modes.
pub open spec fn with_navigation_bindings(table: Bindings) -> Bindings {
    let table = bind(table, KeyModifiers::NONE, KeyCode::Up, menu_up());
    let table = bind(table, KeyModifiers::NONE, KeyCode::Down, menu_down());
    let table = bind(table, KeyModifiers::NONE, KeyCode::Left, menu_left());
    let table = bind(table, KeyModifiers::NONE, KeyCode::Right, menu_right());
    let table = bind(
        table,
        KeyModifiers::CONTROL,
        KeyCode::Left,
        one(EditCommandView::MoveWordLeft { select: false }),
    );
    let table = bind(table, KeyModifiers::CONTROL, KeyCode::Right, hint_or_word_right());
    let table = bind(
        table,
        KeyModifiers::NONE,
        KeyCode::Home,
        one(EditCommandView::MoveToLineStart { select: false }),
    );
    let table = bind(
        table,
        KeyModifiers::CONTROL,
        KeyCode::Char('a'),
        one(EditCommandView::MoveToLineStart { select: false }),
    );
    let table = bind(table, KeyModifiers::NONE, KeyCode::End, hint_or_line_end());
    let table = bind(table, KeyModifiers::CONTROL, KeyCode::Char('e'), hint_or_line_end());
    let table = bind(
        table,
        KeyModifiers::CONTROL,
        KeyCode::Home,
        one(EditCommandView::MoveToStart { select: false }),
    );
    let table = bind(
        table,
        KeyModifiers::CONTROL,
        KeyCode::End,
        one(EditCommandView::MoveToEnd { select: false }),
    );
    let table = bind(table, KeyModifiers::CONTROL, KeyCode::Char('p'), menu_up());
    bind(table, KeyModifiers::CONTROL, KeyCode::Char('n'), menu_down())
}

/// `table` with the keys that delete text in Insert mode.
pub open spec fn with_edit_bindings(table: Bindings) -> Bindings {
    let table = bind(
        table,
        KeyModifiers::NONE,
        KeyCode::Backspace,
        one(EditCommandView::Backspace),
    );
    let table = bind(table, KeyModifiers::NONE, KeyCode::Delete, one(EditCommandView::Delete));
    let table = bind(
        table,
        KeyModifiers::CONTROL,
        KeyCode::Backspace,
        one(EditCommandView::BackspaceWord),
    );
    let table = bind(
        table,
        KeyModifiers::CONTROL,
        KeyCode::Delete,
        one(EditCommandView::DeleteWord),
    );
    let table = bind(
        table,
        KeyModifiers::CONTROL,
        KeyCode::Char('h'),
        one(EditCommandView::Backspace),
    );
    bind(table, KeyModifiers::CONTROL, KeyCode::Char('w'), one(EditCommandView::BackspaceWord))
}

/// The bindings of Normal mode: the shared control and navigation keys;
/// Backspace moves left, and Delete deletes.
pub open spec fn default_normal_bindings() -> Bindings {
    let table = with_navigation_bindings(with_control_bindings(Map::empty()));
    let table = bind(
        table,
        KeyModifiers::NONE,
        KeyCode::Backspace,
        one(EditCommandView::MoveLeft { select: false }),
    );
    bind(table, KeyModifiers::NONE, KeyCode::Delete, one(EditCommandView::Delete))
}

/// The bindings of Insert mode: the shared control and navigation keys, and
/// the keys that delete text.
pub open spec fn default_insert_bindings() -> Bindings {
    with_edit_bindings(with_navigation_bindings(with_control_bindings(Map::empty())))
}

fn up_event() -> (event: ReedlineEvent)
    ensures
        event@ == menu_up(),
{
    first_of_two(ReedlineEvent::MenuUp, ReedlineEvent::Up)
}

fn down_event() -> (event: ReedlineEvent)
    ensures
        event@ == menu_down(),
{
    first_of_two(ReedlineEvent::MenuDown, ReedlineEvent::Down)
}

fn line_end_event() -> (event: ReedlineEvent)
    ensures
        event@ == hint_or_line_end(),
{
    first_of_two(
        ReedlineEvent::HistoryHintComplete,
        edit(EditCommand::MoveToLineEnd { select: false }),
    )
}

fn add_control_bindings(table: &mut Keybindings)
    ensures
        final(table)@ == with_control_bindings(old(table)@),
{
    table.add_binding(KeyModifiers::NONE, KeyCode::Esc, ReedlineEvent::Esc);
    table.add_binding(KeyModifiers::CONTROL, KeyCode::Char('c'), ReedlineEvent::CtrlC);
    table.add_binding(KeyModifiers::CONTROL, KeyCode::Char('d'), ReedlineEvent::CtrlD);
    table.add_binding(KeyModifiers::CONTROL, KeyCode::Char('l'), ReedlineEvent::ClearScreen);
    table.add_binding(KeyModifiers::CONTROL, KeyCode::Char('r'), ReedlineEvent::SearchHistory);
    table.add_binding(KeyModifiers::CONTROL, KeyCode::Char('o'), ReedlineEvent::OpenEditor);
}

fn add_navigation_bindings(table: &mut Keybindings)
    ensures
        final(table)@ == with_navigation_bindings(old(table)@),
{
    table.add_binding(KeyModifiers::NONE, KeyCode::Up, up_event());
    table.add_binding(KeyModifiers::NONE, KeyCode::Down, down_event());
    table.add_binding(
        KeyModifiers::NONE,
        KeyCode::Left,
        first_of_two(ReedlineEvent::MenuLeft, ReedlineEvent::Left),
    );
    table.add_binding(
        KeyModifiers::NONE,
        KeyCode::Right,
        first_of_three(
            ReedlineEvent::HistoryHintComplete,
            ReedlineEvent::MenuRight,
            ReedlineEvent::Right,
        ),
    );
    table.add_binding(
        KeyModifiers::CONTROL,
        KeyCode::Left,
        edit(EditCommand::MoveWordLeft { select: false }),
    );
    table.add_binding(
        KeyModifiers::CONTROL,
        KeyCode::Right,
        first_of_two(
            ReedlineEvent::HistoryHintWordComplete,
            edit(EditCommand::MoveWordRight { select: false }),
        ),
    );
    table.add_binding(
        KeyModifiers::NONE,
        KeyCode::Home,
        edit(EditCommand::MoveToLineStart { select: false }),
    );
    table.add_binding(
        KeyModifiers::CONTROL,
        KeyCode::Char('a'),
        edit(EditCommand::MoveToLineStart { select: false }),
    );
    table.add_binding(KeyModifiers::NONE, KeyCode::End, line_end_event());
    table.add_binding(KeyModifiers::CONTROL, KeyCode::Char('e'), line_end_event());
    table.add_binding(
        KeyModifiers::CONTROL,
        KeyCode::Home,
        edit(EditCommand::MoveToStart { select: false }),
    );
    table.add_binding(
        KeyModifiers::CONTROL,
        KeyCode::End,
        edit(EditCommand::MoveToEnd { select: false }),
    );
    table.add_binding(KeyModifiers::CONTROL, KeyCode::Char('p'), up_event());
    table.add_binding(KeyModifiers::CONTROL, KeyCode::Char('n'), down_event());
}

fn add_edit_bindings(table: &mut Keybindings)
    ensures
        final(table)@ == with_edit_bindings(old(table)@),
{
    table.add_binding(KeyModifiers::NONE, KeyCode::Backspace, edit(EditCommand::Backspace));
    table.add_binding(KeyModifiers::NONE, KeyCode::Delete, edit(EditCommand::Delete));
    table.add_binding(KeyModifiers::CONTROL, KeyCode::Backspace, edit(EditCommand::BackspaceWord));
    table.add_binding(KeyModifiers::CONTROL, KeyCode::Delete, edit(EditCommand::DeleteWord));
    table.add_binding(KeyModifiers::CONTROL, KeyCode::Char('h'), edit(EditCommand::Backspace));
    table.add_binding(KeyModifiers::CONTROL, KeyCode::Char('w'), edit(EditCommand::BackspaceWord));
}

/// The table that Normal mode has unless another is given.
pub fn default_vi_normal_keybindings() -> (table: Keybindings)
    ensures
        table@ == default_normal_bindings(),
{
    let mut table = Keybindings::new();
    add_control_bindings(&mut table);
    add_navigation_bindings(&mut table);
    table.add_binding(
        KeyModifiers::NONE,
        KeyCode::Backspace,
        edit(EditCommand::MoveLeft { select: false }),
    );
    table.add_binding(KeyModifiers::NONE, KeyCode::Delete, edit(EditCommand::Delete));
    table
}

/// The table that Insert mode has unless another is given.
pub fn default_vi_insert_keybindings() -> (table: Keybindings)
    ensures
        table@ == default_insert_bindings(),
{
    let mut table = Keybindings::new();
    add_control_bindings(&mut table);
    add_navigation_bindings(&mut table);
    add_edit_bindings(&mut table);
    table
}

} // verus!
