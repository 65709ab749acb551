//! Operators, which act on the range of a motion, and the commands that
//! stand on their own.

use crate::event::{
    edit, event_views, one, EditCommand, EditCommandView, ReedlineEvent, ReedlineEventView,
};
use crate::motion::ParseResult;
use vstd::prelude::*;

verus! {

/// A command that acts on what a motion covers, or on whole lines when its
/// key is typed twice.
#[derive(Clone, Copy, Debug, PartialEq, Eq, Structural)]
pub enum Operator {
    /// `d`
    Delete,
    /// `c`: deletes, then goes on in Insert mode.
    Change,
    /// `y`
    Yank,
}

/// The operator that a key stands for.
pub open spec fn operator_of(key: char) -> Option<Operator> {
    if key == 'd' {
        Some(Operator::Delete)
    } else if key == 'c' {
        Some(Operator::Change)
    } else if key == 'y' {
        Some(Operator::Yank)
    } else {
        None
    }
}

/// The operator that a key stands for.
pub fn parse_operator(key: char) -> (operator: Option<Operator>)
    ensures
        operator == operator_of(key),
{
    if key == 'd' {
        Some(Operator::Delete)
    } else if key == 'c' {
        Some(Operator::Change)
    } else if key == 'y' {
        Some(Operator::Yank)
    } else {
        None
    }
}

impl Operator {
    /// What the operator does to the selection.
    pub open spec fn action(self) -> EditCommandView {
        match self {
            Operator::Delete => EditCommandView::CutSelection,
            Operator::Change => EditCommandView::CutSelection,
            Operator::Yank => EditCommandView::CopySelection,
        }
    }

    /// What the operator does to the selection.
    pub fn to_edit(&self) -> (command: EditCommand)
        ensures
            command@ == self.action(),
    {
        match self {
            Operator::Delete => EditCommand::CutSelection,
            Operator::Change => EditCommand::CutSelection,
            Operator::Yank => EditCommand::CopySelection,
        }
    }
}

/// A command that needs no motion.
#[derive(Clone, Copy, Debug, PartialEq, Eq, Structural)]
pub enum Action {
    /// `i`: insert at the cursor.
    EnterViInsert,
    /// `a`: insert after the cursor.
    EnterViAppend,
    /// `I`: insert before the first character of the line that is not blank.
    PrependToStart,
    /// `A`: insert at the end of the line.
    AppendToEnd,
    /// `o`: open a line below and insert there.
    OpenLineBelow,
    /// `O`: open a line above and insert there.
    OpenLineAbove,
    /// `s`: cut the character under the cursor and insert in its place.
    SubstituteChar,
    /// `S`: cut the line and insert in its place.
    RewriteCurrentLine,
    /// `C`: cut to the end of the line and insert there.
    ChangeToLineEnd,
    /// `x`
    DeleteChar,
    /// `D`
    DeleteToEnd,
    /// `p`
    PasteAfter,
    /// `P`
    PasteBefore,
    /// `u`
    Undo,
    /// `~`
    Switchcase,
    /// `r` and the character to put under the cursor.
    ReplaceChar(char),
}

/// The key that begins a replacement; the character to put follows it.
pub open spec fn is_replace_key(key: char) -> bool {
    key == 'r'
}

/// The command that a single key stands for.
pub open spec fn simple_action(key: char) -> Option<Action> {
    if key == 'i' {
        Some(Action::EnterViInsert)
    } else if key == 'a' {
        Some(Action::EnterViAppend)
    } else if key == 'I' {
        Some(Action::PrependToStart)
    } else if key == 'A' {
        Some(Action::AppendToEnd)
    } else if key == 'o' {
        Some(Action::OpenLineBelow)
    } else if key == 'O' {
        Some(Action::OpenLineAbove)
    } else if key == 's' {
        Some(Action::SubstituteChar)
    } else if key == 'S' {
        Some(Action::RewriteCurrentLine)
    } else if key == 'C' {
        Some(Action::ChangeToLineEnd)
    } else if key == 'x' {
        Some(Action::DeleteChar)
    } else if key == 'D' {
        Some(Action::DeleteToEnd)
    } else if key == 'p' {
        Some(Action::PasteAfter)
    } else if key == 'P' {
        Some(Action::PasteBefore)
    } else if key == 'u' {
        Some(Action::Undo)
    } else if key == '~' {
        Some(Action::Switchcase)
    } else {
        None
    }
}

/// What `keys` are when they begin with neither an operator nor a motion: a
/// single command key, or `r` and the one character that it puts.
pub open spec fn action_of(keys: Seq<char>) -> ParseResult<Action> {
    if keys.len() == 0 {
        ParseResult::Incomplete
    } else if let Some(action) = simple_action(keys[0]) {
        if keys.len() == 1 {
            ParseResult::Complete(action)
        } else {
            ParseResult::Invalid
        }
    } else if is_replace_key(keys[0]) {
        if keys.len() == 1 {
            ParseResult::Incomplete
        } else if keys.len() == 2 {
            ParseResult::Complete(Action::ReplaceChar(keys[1]))
        } else {
            ParseResult::Invalid
        }
    } else {
        ParseResult::Invalid
    }
}

fn simple_action_for(key: char) -> (action: Option<Action>)
    ensures
        action == simple_action(key),
{
    if key == 'i' {
        Some(Action::EnterViInsert)
    } else if key == 'a' {
        Some(Action::EnterViAppend)
    } else if key == 'I' {
        Some(Action::PrependToStart)
    } else if key == 'A' {
        Some(Action::AppendToEnd)
    } else if key == 'o' {
        Some(Action::OpenLineBelow)
    } else if key == 'O' {
        Some(Action::OpenLineAbove)
    } else if key == 's' {
        Some(Action::SubstituteChar)
    } else if key == 'S' {
        Some(Action::RewriteCurrentLine)
    } else if key == 'C' {
        Some(Action::ChangeToLineEnd)
    } else if key == 'x' {
        Some(Action::DeleteChar)
    } else if key == 'D' {
        Some(Action::DeleteToEnd)
    } else if key == 'p' {
        Some(Action::PasteAfter)
    } else if key == 'P' {
        Some(Action::PasteBefore)
    } else if key == 'u' {
        Some(Action::Undo)
    } else if key == '~' {
        Some(Action::Switchcase)
    } else {
        None
    }
}

/// Reads `input` from `start` on as a command that needs no motion.
pub(crate) fn parse_command(input: &[char], start: usize) -> (result: ParseResult<Action>)
    requires
        start <= input@.len(),
    ensures
        result == action_of(input@.skip(start as int)),
{
    let ghost keys = input@.skip(start as int);
    if start == input.len() {
        return ParseResult::Incomplete;
    }
    let key = input[start];
    assert(keys[0] == key);
    let left = input.len() - start;
    if let Some(action) = simple_action_for(key) {
        if left == 1 {
            ParseResult::Complete(action)
        } else {
            ParseResult::Invalid
        }
    } else if key == 'r' {
        if left == 1 {
            ParseResult::Incomplete
        } else if left == 2 {
            let put = input[start + 1];
            assert(keys[1] == put);
            ParseResult::Complete(Action::ReplaceChar(put))
        } else {
            ParseResult::Invalid
        }
    } else {
        ParseResult::Invalid
    }
}

impl Action {
    /// The command leaves the editor in Insert mode.
    pub open spec fn enters_insert_mode(self) -> bool {
        match self {
            Action::EnterViInsert
            | Action::EnterViAppend
            | Action::PrependToStart
            | Action::AppendToEnd
            | Action::OpenLineBelow
            | Action::OpenLineAbove
            | Action::SubstituteChar
            | Action::RewriteCurrentLine
            | Action::ChangeToLineEnd => true,
            _ => false,
        }
    }

    /// The events of the command, in order. A command that enters Insert mode
    /// places the cursor first; `i`, which has nowhere to go, asks for the
    /// prompt to be drawn again.
    pub open spec fn events(self) -> Seq<ReedlineEventView> {
        match self {
            Action::EnterViInsert => seq![ReedlineEventView::Repaint],
            Action::EnterViAppend => seq![one(EditCommandView::MoveRight { select: false })],
            Action::PrependToStart => seq![
                one(EditCommandView::MoveToLineNonBlankStart { select: false }),
            ],
            Action::AppendToEnd => seq![one(EditCommandView::MoveToLineEnd { select: false })],
            Action::OpenLineBelow => seq![
                one(EditCommandView::MoveToLineEnd { select: false }),
                one(EditCommandView::InsertNewline),
            ],
            Action::OpenLineAbove => seq![
                one(EditCommandView::MoveToLineStart { select: false }),
                one(EditCommandView::InsertNewline),
                one(EditCommandView::MoveLineUp { select: false }),
            ],
            Action::SubstituteChar => seq![one(EditCommandView::CutChar)],
            Action::RewriteCurrentLine => seq![one(EditCommandView::CutCurrentLine)],
            Action::ChangeToLineEnd => seq![one(EditCommandView::CutToLineEnd)],
            Action::DeleteChar => seq![one(EditCommandView::CutChar)],
            Action::DeleteToEnd => seq![one(EditCommandView::CutToLineEnd)],
            Action::PasteAfter => seq![one(EditCommandView::PasteCutBufferAfter)],
            Action::PasteBefore => seq![one(EditCommandView::PasteCutBufferBefore)],
            Action::Undo => seq![one(EditCommandView::Undo)],
            Action::Switchcase => seq![one(EditCommandView::SwitchcaseChar)],
            Action::ReplaceChar(c) => seq![one(EditCommandView::ReplaceChar(c))],
        }
    }

    /// Appends the events of the command to `out`.
    pub fn push_events(&self, out: &mut Vec<ReedlineEvent>)
        ensures
            event_views(final(out)@) == event_views(old(out)@) + self.events(),
    {
        let ghost before = event_views(out@);
        match self {
            Action::EnterViInsert => {
                out.push(ReedlineEvent::Repaint);
            },
            Action::EnterViAppend => {
                out.push(edit(EditCommand::MoveRight { select: false }));
            },
            Action::PrependToStart => {
                out.push(edit(EditCommand::MoveToLineNonBlankStart { select: false }));
            },
            Action::AppendToEnd => {
                out.push(edit(EditCommand::MoveToLineEnd { select: false }));
            },
            Action::OpenLineBelow => {
                out.push(edit(EditCommand::MoveToLineEnd { select: false }));
                out.push(edit(EditCommand::InsertNewline));
            },
            Action::OpenLineAbove => {
                out.push(edit(EditCommand::MoveToLineStart { select: false }));
                out.push(edit(EditCommand::InsertNewline));
                out.push(edit(EditCommand::MoveLineUp { select: false }));
            },
            Action::SubstituteChar => {
                out.push(edit(EditCommand::CutChar));
            },
            Action::RewriteCurrentLine => {
                out.push(edit(EditCommand::CutCurrentLine));
            },
            Action::ChangeToLineEnd => {
                out.push(edit(EditCommand::CutToLineEnd));
            },
            Action::DeleteChar => {
                out.push(edit(EditCommand::CutChar));
            },
            Action::DeleteToEnd => {
                out.push(edit(EditCommand::CutToLineEnd));
            },
            Action::PasteAfter => {
                out.push(edit(EditCommand::PasteCutBufferAfter));
            },
            Action::PasteBefore => {
                out.push(edit(EditCommand::PasteCutBufferBefore));
            },
            Action::Undo => {
                out.push(edit(EditCommand::Undo));
            },
            Action::Switchcase => {
                out.push(edit(EditCommand::SwitchcaseChar));
            },
            Action::ReplaceChar(c) => {
                out.push(edit(EditCommand::ReplaceChar(*c)));
            },
        }
        assert(event_views(out@) =~= before + self.events());
    }
}

} // verus!
