//! Motions: the keys that move the cursor, alone or as the range of an
//! operator, and the memory of the last search for a character.

use crate::event::{
    edit, first_of_three, first_of_two, one, EditCommand, EditCommandView, ReedlineEvent,
    ReedlineEventView,
};
use vstd::prelude::*;

verus! {

/// How far a key sequence has come towards a command.
#[derive(Debug, PartialEq, Eq)]
pub enum ParseResult<T> {
    /// No more keys can make the sequence a command.
    Invalid,
    /// The sequence begins a command and more keys are awaited.
    Incomplete,
    /// The sequence is exactly this command.
    Complete(T),
}

/// Which way a search for a character runs.
#[derive(Clone, Copy, Debug, PartialEq, Eq, Structural)]
pub enum Direction {
    Forward,
    Backward,
}

/// A search for a character within the line: `f`, `F`, `t` or `T` and the
/// character that follows it.
#[derive(Clone, Copy, Debug, PartialEq, Eq, Structural)]
pub struct ViCharSearch {
    pub direction: Direction,
    pub target: char,
    /// Whether the cursor lands on the character (`f`, `F`) or next to it
    /// (`t`, `T`).
    pub inclusive: bool,
}

impl ViCharSearch {
    /// The same search the other way.
    pub open spec fn reversed(self) -> ViCharSearch {
        ViCharSearch {
            direction: match self.direction {
                Direction::Forward => Direction::Backward,
                Direction::Backward => Direction::Forward,
            },
            target: self.target,
            inclusive: self.inclusive,
        }
    }

    /// The edit command that moves the cursor as the search says.
    pub open spec fn movement(self, select: bool) -> EditCommandView {
        match (self.direction, self.inclusive) {
            (Direction::Forward, true) => EditCommandView::MoveRightUntil {
                c: self.target,
                select,
            },
            (Direction::Forward, false) => EditCommandView::MoveRightBefore {
                c: self.target,
                select,
            },
            (Direction::Backward, true) => EditCommandView::MoveLeftUntil {
                c: self.target,
                select,
            },
            (Direction::Backward, false) => EditCommandView::MoveLeftBefore {
                c: self.target,
                select,
            },
        }
    }

    /// The same search the other way, as `,` asks for.
    pub fn reverse(&self) -> (other: ViCharSearch)
        ensures
            other == self.reversed(),
    {
        ViCharSearch {
            direction: match self.direction {
                Direction::Forward => Direction::Backward,
                Direction::Backward => Direction::Forward,
            },
            target: self.target,
            inclusive: self.inclusive,
        }
    }

    /// The edit command that moves the cursor as the search says.
    pub fn to_move(&self, select: bool) -> (command: EditCommand)
        ensures
            command@ == self.movement(select),
    {
        match self.direction {
            Direction::Forward => {
                if self.inclusive {
                    EditCommand::MoveRightUntil { c: self.target, select }
                } else {
                    EditCommand::MoveRightBefore { c: self.target, select }
                }
            },
            Direction::Backward => {
                if self.inclusive {
                    EditCommand::MoveLeftUntil { c: self.target, select }
                } else {
                    EditCommand::MoveLeftBefore { c: self.target, select }
                }
            },
        }
    }
}

/// A cursor motion.
#[derive(Clone, Copy, Debug, PartialEq, Eq, Structural)]
pub enum Motion {
    /// `h`
    Left,
    /// `l`
    Right,
    /// `k`
    Up,
    /// `j`
    Down,
    /// `w`
    NextWord,
    /// `W`
    NextBigWord,
    /// `e`
    NextWordEnd,
    /// `E`
    NextBigWordEnd,
    /// `b`
    PreviousWord,
    /// `B`
    PreviousBigWord,
    /// `0`
    Start,
    /// `^`
    NonBlankStart,
    /// `$`
    End,
    /// `f`, `F`, `t` or `T`, and the character looked for.
    Find(ViCharSearch),
    /// `;`: the last search again.
    ReplayCharSearch,
    /// `,`: the last search again, the other way.
    ReverseCharSearch,
}

/// The motion that a single key stands for.
pub open spec fn simple_motion(key: char) -> Option<Motion> {
    if key == 'h' {
        Some(Motion::Left)
    } else if key == 'l' {
        Some(Motion::Right)
    } else if key == 'k' {
        Some(Motion::Up)
    } else if key == 'j' {
        Some(Motion::Down)
    } else if key == 'w' {
        Some(Motion::NextWord)
    } else if key == 'W' {
        Some(Motion::NextBigWord)
    } else if key == 'e' {
        Some(Motion::NextWordEnd)
    } else if key == 'E' {
        Some(Motion::NextBigWordEnd)
    } else if key == 'b' {
        Some(Motion::PreviousWord)
    } else if key == 'B' {
        Some(Motion::PreviousBigWord)
    } else if key == '0' {
        Some(Motion::Start)
    } else if key == '^' {
        Some(Motion::NonBlankStart)
    } else if key == '$' {
        Some(Motion::End)
    } else if key == ';' {
        Some(Motion::ReplayCharSearch)
    } else if key == ',' {
        Some(Motion::ReverseCharSearch)
    } else {
        None
    }
}

/// The search that a key begins: its direction, and whether it is inclusive.
pub open spec fn search_key(key: char) -> Option<(Direction, bool)> {
    if key == 'f' {
        Some((Direction::Forward, true))
    } else if key == 't' {
        Some((Direction::Forward, false))
    } else if key == 'F' {
        Some((Direction::Backward, true))
    } else if key == 'T' {
        Some((Direction::Backward, false))
    } else {
        None
    }
}

/// The key begins a motion.
pub open spec fn is_motion_key(key: char) -> bool {
    simple_motion(key) is Some || search_key(key) is Some
}

/// What `keys` are when a motion is awaited: a single motion key, or a search
/// key and the one character that it looks for.
pub open spec fn motion_of(keys: Seq<char>) -> ParseResult<Motion> {
    if keys.len() == 0 {
        ParseResult::Incomplete
    } else if let Some(motion) = simple_motion(keys[0]) {
        if keys.len() == 1 {
            ParseResult::Complete(motion)
        } else {
            ParseResult::Invalid
        }
    } else if let Some((direction, inclusive)) = search_key(keys[0]) {
        if keys.len() == 1 {
            ParseResult::Incomplete
        } else if keys.len() == 2 {
            ParseResult::Complete(
                Motion::Find(ViCharSearch { direction, target: keys[1], inclusive }),
            )
        } else {
            ParseResult::Invalid
        }
    } else {
        ParseResult::Invalid
    }
}

fn simple_motion_for(key: char) -> (motion: Option<Motion>)
    ensures
        motion == simple_motion(key),
{
    if key == 'h' {
        Some(Motion::Left)
    } else if key == 'l' {
        Some(Motion::Right)
    } else if key == 'k' {
        Some(Motion::Up)
    } else if key == 'j' {
        Some(Motion::Down)
    } else if key == 'w' {
        Some(Motion::NextWord)
    } else if key == 'W' {
        Some(Motion::NextBigWord)
    } else if key == 'e' {
        Some(Motion::NextWordEnd)
    } else if key == 'E' {
        Some(Motion::NextBigWordEnd)
    } else if key == 'b' {
        Some(Motion::PreviousWord)
    } else if key == 'B' {
        Some(Motion::PreviousBigWord)
    } else if key == '0' {
        Some(Motion::Start)
    } else if key == '^' {
        Some(Motion::NonBlankStart)
    } else if key == '$' {
        Some(Motion::End)
    } else if key == ';' {
        Some(Motion::ReplayCharSearch)
    } else if key == ',' {
        Some(Motion::ReverseCharSearch)
    } else {
        None
    }
}

fn search_key_for(key: char) -> (search: Option<(Direction, bool)>)
    ensures
        search == search_key(key),
{
    if key == 'f' {
        Some((Direction::Forward, true))
    } else if key == 't' {
        Some((Direction::Forward, false))
    } else if key == 'F' {
        Some((Direction::Backward, true))
    } else if key == 'T' {
        Some((Direction::Backward, false))
    } else {
        None
    }
}

/// Reads `input` from `start` on as a motion.
pub(crate) fn parse_motion(input: &[char], start: usize) -> (result: ParseResult<Motion>)
    requires
        start <= input@.len(),
    ensures
        result == motion_of(input@.skip(start as int)),
{
    let ghost keys = input@.skip(start as int);
    if start == input.len() {
        return ParseResult::Incomplete;
    }
    let key = input[start];
    assert(keys[0] == key);
    let left = input.len() - start;
    if let Some(motion) = simple_motion_for(key) {
        if left == 1 {
            ParseResult::Complete(motion)
        } else {
            ParseResult::Invalid
        }
    } else if let Some((direction, inclusive)) = search_key_for(key) {
        if left == 1 {
            ParseResult::Incomplete
        } else if left == 2 {
            let target = input[start + 1];
            assert(keys[1] == target);
            ParseResult::Complete(Motion::Find(ViCharSearch { direction, target, inclusive }))
        } else {
            ParseResult::Invalid
        }
    } else {
        ParseResult::Invalid
    }
}

impl Motion {
    /// What the motion leaves in the memory of the last search, which held
    /// `memory` before: a search takes its place, any other motion keeps it.
    pub open spec fn remembered(self, memory: Option<ViCharSearch>) -> Option<ViCharSearch> {
        match self {
            Motion::Find(search) => Some(search),
            _ => memory,
        }
    }

    /// The edit command that carries the cursor as the motion says, extending
    /// the selection if `select` is set. The two repeat motions go by
    /// `memory`, the last search, and come to nothing while there is none.
    pub open spec fn movement(self, select: bool, memory: Option<ViCharSearch>) -> Option<
        EditCommandView,
    > {
        match self {
            Motion::Left => Some(EditCommandView::MoveLeft { select }),
            Motion::Right => Some(EditCommandView::MoveRight { select }),
            Motion::Up => Some(EditCommandView::MoveLineUp { select }),
            Motion::Down => Some(EditCommandView::MoveLineDown { select }),
            Motion::NextWord => Some(EditCommandView::MoveWordRightStart { select }),
            Motion::NextBigWord => Some(EditCommandView::MoveBigWordRightStart { select }),
            Motion::NextWordEnd => Some(EditCommandView::MoveWordRightEnd { select }),
            Motion::NextBigWordEnd => Some(EditCommandView::MoveBigWordRightEnd { select }),
            Motion::PreviousWord => Some(EditCommandView::MoveWordLeft { select }),
            Motion::PreviousBigWord => Some(EditCommandView::MoveBigWordLeft { select }),
            Motion::Start => Some(EditCommandView::MoveToLineStart { select }),
            Motion::NonBlankStart => Some(EditCommandView::MoveToLineNonBlankStart { select }),
            Motion::End => Some(EditCommandView::MoveToLineEnd { select }),
            Motion::Find(search) => Some(search.movement(select)),
            Motion::ReplayCharSearch => match memory {
                Some(search) => Some(search.movement(select)),
                None => None,
            },
            Motion::ReverseCharSearch => match memory {
                Some(search) => Some(search.reversed().movement(select)),
                None => None,
            },
        }
    }

    /// The event of the motion typed on its own. The four arrow-like motions
    /// give way to an open menu and to the history; every other motion is its
    /// edit command, without selection.
    pub open spec fn event(self, memory: Option<ViCharSearch>) -> Option<ReedlineEventView> {
        match self {
            Motion::Left => Some(
                ReedlineEventView::UntilFound(
                    seq![ReedlineEventView::MenuLeft, ReedlineEventView::Left],
                ),
            ),
            Motion::Right => Some(
                ReedlineEventView::UntilFound(
                    seq![
                        ReedlineEventView::HistoryHintComplete,
                        ReedlineEventView::MenuRight,
                        ReedlineEventView::Right,
                    ],
                ),
            ),
            Motion::Up => Some(
                ReedlineEventView::UntilFound(
                    seq![ReedlineEventView::MenuUp, ReedlineEventView::Up],
                ),
            ),
            Motion::Down => Some(
                ReedlineEventView::UntilFound(
                    seq![ReedlineEventView::MenuDown, ReedlineEventView::Down],
                ),
            ),
            _ => match self.movement(false, memory) {
                Some(command) => Some(one(command)),
                None => None,
            },
        }
    }

    /// The edit command that carries the cursor as the motion says.
    pub fn to_move(&self, select: bool, memory: Option<ViCharSearch>) -> (command: Option<
        EditCommand,
    >)
        ensures
            command is Some <==> self.movement(select, memory) is Some,
            command matches Some(c) ==> Some(c@) == self.movement(select, memory),
    {
        match self {
            Motion::Left => Some(EditCommand::MoveLeft { select }),
            Motion::Right => Some(EditCommand::MoveRight { select }),
            Motion::Up => Some(EditCommand::MoveLineUp { select }),
            Motion::Down => Some(EditCommand::MoveLineDown { select }),
            Motion::NextWord => Some(EditCommand::MoveWordRightStart { select }),
            Motion::NextBigWord => Some(EditCommand::MoveBigWordRightStart { select }),
            Motion::NextWordEnd => Some(EditCommand::MoveWordRightEnd { select }),
            Motion::NextBigWordEnd => Some(EditCommand::MoveBigWordRightEnd { select }),
            Motion::PreviousWord => Some(EditCommand::MoveWordLeft { select }),
            Motion::PreviousBigWord => Some(EditCommand::MoveBigWordLeft { select }),
            Motion::Start => Some(EditCommand::MoveToLineStart { select }),
            Motion::NonBlankStart => Some(EditCommand::MoveToLineNonBlankStart { select }),
            Motion::End => Some(EditCommand::MoveToLineEnd { select }),
            Motion::Find(search) => Some(search.to_move(select)),
            Motion::ReplayCharSearch => match memory {
                Some(search) => Some(search.to_move(select)),
                None => None,
            },
            Motion::ReverseCharSearch => match memory {
                Some(search) => Some(search.reverse().to_move(select)),
                None => None,
            },
        }
    }

    /// The event of the motion typed on its own.
    pub fn to_reedline(&self, memory: Option<ViCharSearch>) -> (event: Option<ReedlineEvent>)
        ensures
            event is Some <==> self.event(memory) is Some,
            event matches Some(e) ==> Some(e@) == self.event(memory),
    {
        match self {
            Motion::Left => Some(first_of_two(ReedlineEvent::MenuLeft, ReedlineEvent::Left)),
            Motion::Right => Some(
                first_of_three(
                    ReedlineEvent::HistoryHintComplete,
                    ReedlineEvent::MenuRight,
                    ReedlineEvent::Right,
                ),
            ),
            Motion::Up => Some(first_of_two(ReedlineEvent::MenuUp, ReedlineEvent::Up)),
            Motion::Down => Some(first_of_two(ReedlineEvent::MenuDown, ReedlineEvent::Down)),
            _ => match self.to_move(false, memory) {
                Some(command) => Some(edit(command)),
                None => None,
            },
        }
    }
}

} // verus!
