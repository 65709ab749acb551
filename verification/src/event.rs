//! What the interpreter hands to the line editor: edit commands and events.

use vstd::prelude::*;

verus! {

/// One primitive edit of the line buffer.
///
/// A move with `select` set extends the selection to where the cursor lands;
/// with `select` unset it drops the selection.
#[derive(Debug, PartialEq, Eq)]
pub enum EditCommand {
    /// Moves to the start of the buffer.
    MoveToStart { select: bool },
    /// Moves to the start of the current line.
    MoveToLineStart { select: bool },
    /// Moves to the first character of the current line that is not blank.
    MoveToLineNonBlankStart { select: bool },
    /// Moves to the end of the buffer.
    MoveToEnd { select: bool },
    /// Moves to the end of the current line.
    MoveToLineEnd { select: bool },
    /// Moves one line up.
    MoveLineUp { select: bool },
    /// Moves one line down.
    MoveLineDown { select: bool },
    /// Moves one character to the left.
    MoveLeft { select: bool },
    /// Moves one character to the right.
    MoveRight { select: bool },
    /// Moves to the start of the word on the left.
    MoveWordLeft { select: bool },
    /// Moves to the start of the blank-delimited word on the left.
    MoveBigWordLeft { select: bool },
    /// Moves past the word on the right.
    MoveWordRight { select: bool },
    /// Moves to the start of the next word.
    MoveWordRightStart { select: bool },
    /// Moves to the start of the next blank-delimited word.
    MoveBigWordRightStart { select: bool },
    /// Moves to the end of the word on the right.
    MoveWordRightEnd { select: bool },
    /// Moves to the end of the blank-delimited word on the right.
    MoveBigWordRightEnd { select: bool },
    /// Moves right onto the next `c`.
    MoveRightUntil { c: char, select: bool },
    /// Moves right to just before the next `c`.
    MoveRightBefore { c: char, select: bool },
    /// Moves left onto the previous `c`.
    MoveLeftUntil { c: char, select: bool },
    /// Moves left to just after the previous `c`.
    MoveLeftBefore { c: char, select: bool },
    /// Inserts a character at the cursor.
    InsertChar(char),
    /// Inserts a string at the cursor.
    InsertString(String),
    /// Replaces the character under the cursor.
    ReplaceChar(char),
    /// Inserts a line break at the cursor.
    InsertNewline,
    /// Deletes the character left of the cursor.
    Backspace,
    /// Deletes the character under the cursor.
    Delete,
    /// Cuts the character under the cursor.
    CutChar,
    /// Deletes the word left of the cursor.
    BackspaceWord,
    /// Deletes the word right of the cursor.
    DeleteWord,
    /// Cuts the current line.
    CutCurrentLine,
    /// Cuts from the cursor to the end of the line.
    CutToLineEnd,
    /// Cuts what is selected.
    CutSelection,
    /// Copies what is selected.
    CopySelection,
    /// Inserts the cut buffer before the cursor.
    PasteCutBufferBefore,
    /// Inserts the cut buffer after the cursor.
    PasteCutBufferAfter,
    /// Takes back the last edit.
    Undo,
    /// Switches the case of the character under the cursor.
    SwitchcaseChar,
}

/// The mathematical value of an [`EditCommand`].
pub ghost enum EditCommandView {
    MoveToStart { select: bool },
    MoveToLineStart { select: bool },
    MoveToLineNonBlankStart { select: bool },
    MoveToEnd { select: bool },
    MoveToLineEnd { select: bool },
    MoveLineUp { select: bool },
    MoveLineDown { select: bool },
    MoveLeft { select: bool },
    MoveRight { select: bool },
    MoveWordLeft { select: bool },
    MoveBigWordLeft { select: bool },
    MoveWordRight { select: bool },
    MoveWordRightStart { select: bool },
    MoveBigWordRightStart { select: bool },
    MoveWordRightEnd { select: bool },
    MoveBigWordRightEnd { select: bool },
    MoveRightUntil { c: char, select: bool },
    MoveRightBefore { c: char, select: bool },
    MoveLeftUntil { c: char, select: bool },
    MoveLeftBefore { c: char, select: bool },
    InsertChar(char),
    InsertString(Seq<char>),
    ReplaceChar(char),
    InsertNewline,
    Backspace,
    Delete,
    CutChar,
    BackspaceWord,
    DeleteWord,
    CutCurrentLine,
    CutToLineEnd,
    CutSelection,
    CopySelection,
    PasteCutBufferBefore,
    PasteCutBufferAfter,
    Undo,
    SwitchcaseChar,
}

impl View for EditCommand {
    type V = EditCommandView;

    open spec fn view(&self) -> EditCommandView {
        match self {
            EditCommand::MoveToStart { select } => EditCommandView::MoveToStart { select: *select },
            EditCommand::MoveToLineStart { select } => {
                EditCommandView::MoveToLineStart { select: *select }
            },
            EditCommand::MoveToLineNonBlankStart { select } => {
                EditCommandView::MoveToLineNonBlankStart { select: *select }
            },
            EditCommand::MoveToEnd { select } => EditCommandView::MoveToEnd { select: *select },
            EditCommand::MoveToLineEnd { select } => {
                EditCommandView::MoveToLineEnd { select: *select }
            },
            EditCommand::MoveLineUp { select } => EditCommandView::MoveLineUp { select: *select },
            EditCommand::MoveLineDown { select } => {
                EditCommandView::MoveLineDown { select: *select }
            },
            EditCommand::MoveLeft { select } => EditCommandView::MoveLeft { select: *select },
            EditCommand::MoveRight { select } => EditCommandView::MoveRight { select: *select },
            EditCommand::MoveWordLeft { select } => {
                EditCommandView::MoveWordLeft { select: *select }
            },
            EditCommand::MoveBigWordLeft { select } => {
                EditCommandView::MoveBigWordLeft { select: *select }
            },
            EditCommand::MoveWordRight { select } => {
                EditCommandView::MoveWordRight { select: *select }
            },
            EditCommand::MoveWordRightStart { select } => {
                EditCommandView::MoveWordRightStart { select: *select }
            },
            EditCommand::MoveBigWordRightStart { select } => {
                EditCommandView::MoveBigWordRightStart { select: *select }
            },
            EditCommand::MoveWordRightEnd { select } => {
                EditCommandView::MoveWordRightEnd { select: *select }
            },
            EditCommand::MoveBigWordRightEnd { select } => {
                EditCommandView::MoveBigWordRightEnd { select: *select }
            },
            EditCommand::MoveRightUntil { c, select } => EditCommandView::MoveRightUntil {
                c: *c,
                select: *select,
            },
            EditCommand::MoveRightBefore { c, select } => EditCommandView::MoveRightBefore {
                c: *c,
                select: *select,
            },
            EditCommand::MoveLeftUntil { c, select } => EditCommandView::MoveLeftUntil {
                c: *c,
                select: *select,
            },
            EditCommand::MoveLeftBefore { c, select } => EditCommandView::MoveLeftBefore {
                c: *c,
                select: *select,
            },
            EditCommand::InsertChar(c) => EditCommandView::InsertChar(*c),
            EditCommand::InsertString(text) => EditCommandView::InsertString(text@),
            EditCommand::ReplaceChar(c) => EditCommandView::ReplaceChar(*c),
            EditCommand::InsertNewline => EditCommandView::InsertNewline,
            EditCommand::Backspace => EditCommandView::Backspace,
            EditCommand::Delete => EditCommandView::Delete,
            EditCommand::CutChar => EditCommandView::CutChar,
            EditCommand::BackspaceWord => EditCommandView::BackspaceWord,
            EditCommand::DeleteWord => EditCommandView::DeleteWord,
            EditCommand::CutCurrentLine => EditCommandView::CutCurrentLine,
            EditCommand::CutToLineEnd => EditCommandView::CutToLineEnd,
            EditCommand::CutSelection => EditCommandView::CutSelection,
            EditCommand::CopySelection => EditCommandView::CopySelection,
            EditCommand::PasteCutBufferBefore => EditCommandView::PasteCutBufferBefore,
            EditCommand::PasteCutBufferAfter => EditCommandView::PasteCutBufferAfter,
            EditCommand::Undo => EditCommandView::Undo,
            EditCommand::SwitchcaseChar => EditCommandView::SwitchcaseChar,
        }
    }
}

impl Clone for EditCommand {
    fn clone(&self) -> (copy: EditCommand)
        ensures
            copy@ == self@,
    {
        match self {
            EditCommand::MoveToStart { select } => EditCommand::MoveToStart { select: *select },
            EditCommand::MoveToLineStart { select } => {
                EditCommand::MoveToLineStart { select: *select }
            },
            EditCommand::MoveToLineNonBlankStart { select } => {
                EditCommand::MoveToLineNonBlankStart { select: *select }
            },
            EditCommand::MoveToEnd { select } => EditCommand::MoveToEnd { select: *select },
            EditCommand::MoveToLineEnd { select } => EditCommand::MoveToLineEnd { select: *select },
            EditCommand::MoveLineUp { select } => EditCommand::MoveLineUp { select: *select },
            EditCommand::MoveLineDown { select } => EditCommand::MoveLineDown { select: *select },
            EditCommand::MoveLeft { select } => EditCommand::MoveLeft { select: *select },
            EditCommand::MoveRight { select } => EditCommand::MoveRight { select: *select },
            EditCommand::MoveWordLeft { select } => EditCommand::MoveWordLeft { select: *select },
            EditCommand::MoveBigWordLeft { select } => {
                EditCommand::MoveBigWordLeft { select: *select }
            },
            EditCommand::MoveWordRight { select } => EditCommand::MoveWordRight { select: *select },
            EditCommand::MoveWordRightStart { select } => {
                EditCommand::MoveWordRightStart { select: *select }
            },
            EditCommand::MoveBigWordRightStart { select } => {
                EditCommand::MoveBigWordRightStart { select: *select }
            },
            EditCommand::MoveWordRightEnd { select } => {
                EditCommand::MoveWordRightEnd { select: *select }
            },
            EditCommand::MoveBigWordRightEnd { select } => {
                EditCommand::MoveBigWordRightEnd { select: *select }
            },
            EditCommand::MoveRightUntil { c, select } => {
                EditCommand::MoveRightUntil { c: *c, select: *select }
            },
            EditCommand::MoveRightBefore { c, select } => {
                EditCommand::MoveRightBefore { c: *c, select: *select }
            },
            EditCommand::MoveLeftUntil { c, select } => {
                EditCommand::MoveLeftUntil { c: *c, select: *select }
            },
            EditCommand::MoveLeftBefore { c, select } => {
                EditCommand::MoveLeftBefore { c: *c, select: *select }
            },
            EditCommand::InsertChar(c) => EditCommand::InsertChar(*c),
            EditCommand::InsertString(text) => EditCommand::InsertString(text.clone()),
            EditCommand::ReplaceChar(c) => EditCommand::ReplaceChar(*c),
            EditCommand::InsertNewline => EditCommand::InsertNewline,
            EditCommand::Backspace => EditCommand::Backspace,
            EditCommand::Delete => EditCommand::Delete,
            EditCommand::CutChar => EditCommand::CutChar,
            EditCommand::BackspaceWord => EditCommand::BackspaceWord,
            EditCommand::DeleteWord => EditCommand::DeleteWord,
            EditCommand::CutCurrentLine => EditCommand::CutCurrentLine,
            EditCommand::CutToLineEnd => EditCommand::CutToLineEnd,
            EditCommand::CutSelection => EditCommand::CutSelection,
            EditCommand::CopySelection => EditCommand::CopySelection,
            EditCommand::PasteCutBufferBefore => EditCommand::PasteCutBufferBefore,
            EditCommand::PasteCutBufferAfter => EditCommand::PasteCutBufferAfter,
            EditCommand::Undo => EditCommand::Undo,
            EditCommand::SwitchcaseChar => EditCommand::SwitchcaseChar,
        }
    }
}

/// The values of the commands of a list, in order.
pub open spec fn edit_views(commands: Seq<EditCommand>) -> Seq<EditCommandView> {
    Seq::new(commands.len(), |i: int| commands[i]@)
}

/// Copies a list of edit commands.
pub fn clone_edits(commands: &Vec<EditCommand>) -> (copy: Vec<EditCommand>)
    ensures
        edit_views(copy@) == edit_views(commands@),
{
    let mut copy: Vec<EditCommand> = Vec::new();
    let mut i: usize = 0;
    while i < commands.len()
        invariant
            i <= commands.len(),
            copy@.len() == i,
            forall|j: int| 0 <= j < i ==> copy@[j]@ == commands@[j]@,
        decreases commands.len() - i,
    {
        copy.push(commands[i].clone());
        i += 1;
    }
    assert(edit_views(copy@) =~= edit_views(commands@));
    copy
}

/// What the line editor is asked to do in answer to one input event.
#[derive(Debug, PartialEq, Eq)]
pub enum ReedlineEvent {
    /// Nothing to do.
    NoOp,
    /// Accept the whole hint taken from the history.
    HistoryHintComplete,
    /// Accept the next word of the hint taken from the history.
    HistoryHintWordComplete,
    /// End of input was asked for.
    CtrlD,
    /// The line was abandoned.
    CtrlC,
    /// Clear the screen.
    ClearScreen,
    /// Submit the line.
    Enter,
    /// Escape was pressed.
    Esc,
    /// A pointer event arrived.
    Mouse,
    /// Draw the prompt and the line again.
    Repaint,
    /// Go up: in a menu, to the line above, or back in the history.
    Up,
    /// Go down: in a menu, to the line below, or forward in the history.
    Down,
    /// Move the cursor right.
    Right,
    /// Move the cursor left.
    Left,
    /// Search the history.
    SearchHistory,
    /// Edit the line in an outside editor.
    OpenEditor,
    /// Move up in the active menu.
    MenuUp,
    /// Move down in the active menu.
    MenuDown,
    /// Move left in the active menu.
    MenuLeft,
    /// Move right in the active menu.
    MenuRight,
    /// The terminal has a new size: columns, then rows.
    Resize(u16, u16),
    /// Run these edit commands, in order.
    Edit(Vec<EditCommand>),
    /// Handle these events, in order.
    Multiple(Vec<ReedlineEvent>),
    /// Try these events in order, and stop at the first that is handled.
    UntilFound(Vec<ReedlineEvent>),
}

/// The mathematical value of a [`ReedlineEvent`].
pub ghost enum ReedlineEventView {
    NoOp,
    HistoryHintComplete,
    HistoryHintWordComplete,
    CtrlD,
    CtrlC,
    ClearScreen,
    Enter,
    Esc,
    Mouse,
    Repaint,
    Up,
    Down,
    Right,
    Left,
    SearchHistory,
    OpenEditor,
    MenuUp,
    MenuDown,
    MenuLeft,
    MenuRight,
    Resize(u16, u16),
    Edit(Seq<EditCommandView>),
    Multiple(Seq<ReedlineEventView>),
    UntilFound(Seq<ReedlineEventView>),
}

impl View for ReedlineEvent {
    type V = ReedlineEventView;

    open spec fn view(&self) -> ReedlineEventView
        decreases self,
    {
        match self {
            ReedlineEvent::NoOp => ReedlineEventView::NoOp,
            ReedlineEvent::HistoryHintComplete => ReedlineEventView::HistoryHintComplete,
            ReedlineEvent::HistoryHintWordComplete => ReedlineEventView::HistoryHintWordComplete,
            ReedlineEvent::CtrlD => ReedlineEventView::CtrlD,
            ReedlineEvent::CtrlC => ReedlineEventView::CtrlC,
            ReedlineEvent::ClearScreen => ReedlineEventView::ClearScreen,
            ReedlineEvent::Enter => ReedlineEventView::Enter,
            ReedlineEvent::Esc => ReedlineEventView::Esc,
            ReedlineEvent::Mouse => ReedlineEventView::Mouse,
            ReedlineEvent::Repaint => ReedlineEventView::Repaint,
            ReedlineEvent::Up => ReedlineEventView::Up,
            ReedlineEvent::Down => ReedlineEventView::Down,
            ReedlineEvent::Right => ReedlineEventView::Right,
            ReedlineEvent::Left => ReedlineEventView::Left,
            ReedlineEvent::SearchHistory => ReedlineEventView::SearchHistory,
            ReedlineEvent::OpenEditor => ReedlineEventView::OpenEditor,
            ReedlineEvent::MenuUp => ReedlineEventView::MenuUp,
            ReedlineEvent::MenuDown => ReedlineEventView::MenuDown,
            ReedlineEvent::MenuLeft => ReedlineEventView::MenuLeft,
            ReedlineEvent::MenuRight => ReedlineEventView::MenuRight,
            ReedlineEvent::Resize(width, height) => ReedlineEventView::Resize(*width, *height),
            ReedlineEvent::Edit(commands) => ReedlineEventView::Edit(edit_views(commands@)),
            ReedlineEvent::Multiple(events) => ReedlineEventView::Multiple(
                Seq::new(
                    events@.len(),
                    |i: int|
                        if 0 <= i < events@.len() {
                            events@[i]@
                        } else {
                            ReedlineEventView::NoOp
                        },
                ),
            ),
            ReedlineEvent::UntilFound(events) => ReedlineEventView::UntilFound(
                Seq::new(
                    events@.len(),
                    |i: int|
                        if 0 <= i < events@.len() {
                            events@[i]@
                        } else {
                            ReedlineEventView::NoOp
                        },
                ),
            ),
        }
    }
}

/// The values of the events of a list, in order.
pub open spec fn event_views(events: Seq<ReedlineEvent>) -> Seq<ReedlineEventView> {
    Seq::new(events.len(), |i: int| events[i]@)
}

/// The value of a `Multiple` is the list of the values of its events.
pub proof fn lemma_multiple_view(events: Vec<ReedlineEvent>)
    ensures
        ReedlineEvent::Multiple(events)@ == ReedlineEventView::Multiple(event_views(events@)),
{
    reveal_with_fuel(<ReedlineEvent as View>::view, 2);
    assert(ReedlineEvent::Multiple(events)@->Multiple_0 =~= event_views(events@));
}

/// The value of an `UntilFound` is the list of the values of its events.
pub proof fn lemma_until_found_view(events: Vec<ReedlineEvent>)
    ensures
        ReedlineEvent::UntilFound(events)@ == ReedlineEventView::UntilFound(event_views(events@)),
{
    reveal_with_fuel(<ReedlineEvent as View>::view, 2);
    assert(ReedlineEvent::UntilFound(events)@->UntilFound_0 =~= event_views(events@));
}

impl Clone for ReedlineEvent {
    fn clone(&self) -> (copy: ReedlineEvent)
        ensures
            copy@ == self@,
        decreases self,
    {
        match self {
            ReedlineEvent::NoOp => ReedlineEvent::NoOp,
            ReedlineEvent::HistoryHintComplete => ReedlineEvent::HistoryHintComplete,
            ReedlineEvent::HistoryHintWordComplete => ReedlineEvent::HistoryHintWordComplete,
            ReedlineEvent::CtrlD => ReedlineEvent::CtrlD,
            ReedlineEvent::CtrlC => ReedlineEvent::CtrlC,
            ReedlineEvent::ClearScreen => ReedlineEvent::ClearScreen,
            ReedlineEvent::Enter => ReedlineEvent::Enter,
            ReedlineEvent::Esc => ReedlineEvent::Esc,
            ReedlineEvent::Mouse => ReedlineEvent::Mouse,
            ReedlineEvent::Repaint => ReedlineEvent::Repaint,
            ReedlineEvent::Up => ReedlineEvent::Up,
            ReedlineEvent::Down => ReedlineEvent::Down,
            ReedlineEvent::Right => ReedlineEvent::Right,
            ReedlineEvent::Left => ReedlineEvent::Left,
            ReedlineEvent::SearchHistory => ReedlineEvent::SearchHistory,
            ReedlineEvent::OpenEditor => ReedlineEvent::OpenEditor,
            ReedlineEvent::MenuUp => ReedlineEvent::MenuUp,
            ReedlineEvent::MenuDown => ReedlineEvent::MenuDown,
            ReedlineEvent::MenuLeft => ReedlineEvent::MenuLeft,
            ReedlineEvent::MenuRight => ReedlineEvent::MenuRight,
            ReedlineEvent::Resize(width, height) => ReedlineEvent::Resize(*width, *height),
            ReedlineEvent::Edit(commands) => ReedlineEvent::Edit(clone_edits(commands)),
            ReedlineEvent::Multiple(events) => {
                let mut copy: Vec<ReedlineEvent> = Vec::new();
                let mut i: usize = 0;
                while i < events.len()
                    invariant
                        i <= events.len(),
                        *self is Multiple,
                        self->Multiple_0 == *events,
                        copy@.len() == i,
                        forall|j: int| 0 <= j < i ==> copy@[j]@ == events@[j]@,
                    decreases events.len() - i,
                {
                    copy.push(events[i].clone());
                    i += 1;
                }
                proof {
                    lemma_multiple_view(copy);
                    lemma_multiple_view(*events);
                    assert(event_views(copy@) =~= event_views(events@));
                }
                ReedlineEvent::Multiple(copy)
            },
            ReedlineEvent::UntilFound(events) => {
                let mut copy: Vec<ReedlineEvent> = Vec::new();
                let mut i: usize = 0;
                while i < events.len()
                    invariant
                        i <= events.len(),
                        *self is UntilFound,
                        self->UntilFound_0 == *events,
                        copy@.len() == i,
                        forall|j: int| 0 <= j < i ==> copy@[j]@ == events@[j]@,
                    decreases events.len() - i,
                {
                    copy.push(events[i].clone());
                    i += 1;
                }
                proof {
                    lemma_until_found_view(copy);
                    lemma_until_found_view(*events);
                    assert(event_views(copy@) =~= event_views(events@));
                }
                ReedlineEvent::UntilFound(copy)
            },
        }
    }
}

/// The event that runs the one edit command `command`.
pub open spec fn one(command: EditCommandView) -> ReedlineEventView {
    ReedlineEventView::Edit(seq![command])
}

/// The event that runs one edit command.
pub fn edit(command: EditCommand) -> (event: ReedlineEvent)
    ensures
        event@ == one(command@),
{
    let ghost value = command@;
    let mut commands: Vec<EditCommand> = Vec::new();
    commands.push(command);
    let event = ReedlineEvent::Edit(commands);
    assert(event@->Edit_0 =~= seq![value]);
    event
}

/// The event that tries `first`, and `second` if `first` was not handled.
pub fn first_of_two(first: ReedlineEvent, second: ReedlineEvent) -> (event: ReedlineEvent)
    ensures
        event@ == ReedlineEventView::UntilFound(seq![first@, second@]),
{
    let ghost values = seq![first@, second@];
    let mut events: Vec<ReedlineEvent> = Vec::new();
    events.push(first);
    events.push(second);
    proof {
        lemma_until_found_view(events);
        assert(event_views(events@) =~= values);
    }
    ReedlineEvent::UntilFound(events)
}

/// The event that tries `first`, then `second`, then `third`, and stops at
/// the first that is handled.
pub fn first_of_three(first: ReedlineEvent, second: ReedlineEvent, third: ReedlineEvent) -> (event:
    ReedlineEvent)
    ensures
        event@ == ReedlineEventView::UntilFound(seq![first@, second@, third@]),
{
    let ghost values = seq![first@, second@, third@];
    let mut events: Vec<ReedlineEvent> = Vec::new();
    events.push(first);
    events.push(second);
    events.push(third);
    proof {
        lemma_until_found_view(events);
        assert(event_views(events@) =~= values);
    }
    ReedlineEvent::UntilFound(events)
}

} // verus!
