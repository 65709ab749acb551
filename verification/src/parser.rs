//! The grammar of Normal mode: what a sequence of keys is, and the events
//! that a whole command stands for.
//!
//! A command is an optional count, then one of: an operator with its range
//! (an optional count of its own and a motion, or the operator's key again
//! for whole lines), a motion, or a command that needs no motion.

use crate::command::{action_of, operator_of, parse_command, parse_operator, Action, Operator};
use crate::event::{
    edit, event_views, lemma_multiple_view, one, EditCommand, EditCommandView, ReedlineEvent,
    ReedlineEventView,
};
use crate::motion::{is_motion_key, motion_of, parse_motion, Motion, ParseResult, ViCharSearch};
use vstd::prelude::*;

verus! {

/// The key is a decimal digit.
pub open spec fn is_digit(key: char) -> bool {
    '0' <= key && key <= '9'
}

/// The number that a digit stands for.
pub open spec fn digit_value(key: char) -> nat {
    (key as int - '0' as int) as nat
}

/// How many digits `keys` begin with.
pub open spec fn digits_run(keys: Seq<char>) -> nat
    decreases keys.len(),
{
    if keys.len() > 0 && is_digit(keys[0]) {
        1 + digits_run(keys.drop_first())
    } else {
        0
    }
}

/// How many keys at the front of `keys` make up a count: all the digits that
/// `keys` begin with, unless the first is `0`, which is a motion and no count.
pub open spec fn count_len(keys: Seq<char>) -> nat {
    if keys.len() > 0 && keys[0] == '0' {
        0
    } else {
        digits_run(keys)
    }
}

/// The number that a string of digits spells in base ten.
pub open spec fn decimal(digits: Seq<char>) -> nat
    decreases digits.len(),
{
    if digits.len() == 0 {
        0
    } else {
        decimal(digits.drop_last()) * 10 + digit_value(digits.last())
    }
}

/// A number as a count holds it: numbers beyond `u32::MAX` count as
/// `u32::MAX`.
pub open spec fn saturated(n: nat) -> u32 {
    if n > u32::MAX {
        u32::MAX
    } else {
        n as u32
    }
}

/// The count that `keys` begin with, if they begin with one.
pub open spec fn count_of(keys: Seq<char>) -> Option<u32> {
    if count_len(keys) == 0 {
        None
    } else {
        Some(saturated(decimal(keys.take(count_len(keys) as int))))
    }
}

/// What a command does, and to what.
#[derive(Clone, Copy, Debug, PartialEq, Eq, Structural)]
pub enum Verb {
    /// A motion on its own moves the cursor.
    Move(Motion),
    /// An operator and the motion that gives its range, with the motion's own
    /// count.
    Operate { operator: Operator, motion_count: Option<u32>, motion: Motion },
    /// An operator typed twice acts on whole lines.
    OperateLines(Operator),
    /// A command that needs no motion.
    Act(Action),
}

/// A whole command, as it was typed.
#[derive(Clone, Copy, Debug, PartialEq, Eq, Structural)]
pub struct ParsedCommand {
    /// The count in front of the command.
    pub count: Option<u32>,
    pub verb: Verb,
}

/// What `keys` are after an operator: the operator's own key again, or an
/// optional count and a motion.
pub open spec fn operand_of(operator: Operator, key: char, keys: Seq<char>) -> ParseResult<Verb> {
    let motion_count = count_of(keys);
    let rest = keys.skip(count_len(keys) as int);
    if rest.len() == 0 {
        ParseResult::Incomplete
    } else if motion_count is None && rest[0] == key {
        if rest.len() == 1 {
            ParseResult::Complete(Verb::OperateLines(operator))
        } else {
            ParseResult::Invalid
        }
    } else {
        match motion_of(rest) {
            ParseResult::Complete(motion) => ParseResult::Complete(
                Verb::Operate { operator, motion_count, motion },
            ),
            ParseResult::Incomplete => ParseResult::Incomplete,
            ParseResult::Invalid => ParseResult::Invalid,
        }
    }
}

/// What `keys` are where a command may begin, its count apart.
pub open spec fn verb_of(keys: Seq<char>) -> ParseResult<Verb> {
    if keys.len() == 0 {
        ParseResult::Incomplete
    } else if let Some(operator) = operator_of(keys[0]) {
        operand_of(operator, keys[0], keys.skip(1))
    } else if is_motion_key(keys[0]) {
        match motion_of(keys) {
            ParseResult::Complete(motion) => ParseResult::Complete(Verb::Move(motion)),
            ParseResult::Incomplete => ParseResult::Incomplete,
            ParseResult::Invalid => ParseResult::Invalid,
        }
    } else {
        match action_of(keys) {
            ParseResult::Complete(action) => ParseResult::Complete(Verb::Act(action)),
            ParseResult::Incomplete => ParseResult::Incomplete,
            ParseResult::Invalid => ParseResult::Invalid,
        }
    }
}

/// What the key sequence `keys` is: a whole command, the beginning of one, or
/// neither.
pub open spec fn classify(keys: Seq<char>) -> ParseResult<ParsedCommand> {
    match verb_of(keys.skip(count_len(keys) as int)) {
        ParseResult::Complete(verb) => ParseResult::Complete(
            ParsedCommand { count: count_of(keys), verb },
        ),
        ParseResult::Incomplete => ParseResult::Incomplete,
        ParseResult::Invalid => ParseResult::Invalid,
    }
}

/// A run of `n` digits that ends at the end of `keys` or before a key that is
/// no digit is all the digits that `keys` begin with.
pub proof fn lemma_digits_run(keys: Seq<char>, n: nat)
    requires
        n <= keys.len(),
        forall|j: int| 0 <= j < n ==> is_digit(#[trigger] keys[j]),
        n == keys.len() || !is_digit(keys[n as int]),
    ensures
        digits_run(keys) == n,
    decreases n,
{
    if n > 0 {
        let rest = keys.drop_first();
        assert forall|j: int| 0 <= j < n - 1 implies is_digit(#[trigger] rest[j]) by {
            assert(rest[j] == keys[j + 1]);
        }
        lemma_digits_run(rest, (n - 1) as nat);
    }
}

/// The digits that `keys` begin with end at the end of `keys` or before a key
/// that is no digit.
pub proof fn lemma_digits_run_end(keys: Seq<char>)
    ensures
        digits_run(keys) <= keys.len(),
        digits_run(keys) == keys.len() || !is_digit(keys[digits_run(keys) as int]),
    decreases keys.len(),
{
    if keys.len() > 0 && is_digit(keys[0]) {
        lemma_digits_run_end(keys.drop_first());
        let inner = digits_run(keys.drop_first());
        if inner < keys.drop_first().len() {
            assert(keys.drop_first()[inner as int] == keys[inner as int + 1]);
        }
    }
}

/// Reads the count that `input` holds at `start`, and says where it ends.
fn parse_number(input: &[char], start: usize) -> (result: (Option<u32>, usize))
    requires
        start <= input@.len(),
    ensures
        result.0 == count_of(input@.skip(start as int)),
        result.1 == start + count_len(input@.skip(start as int)),
        result.1 <= input@.len(),
{
    let ghost keys = input@.skip(start as int);
    if start == input.len() {
        return (None, start);
    }
    assert(keys[0] == input@[start as int]);
    if input[start] == '0' {
        return (None, start);
    }
    let mut at: usize = start;
    let mut value: u32 = 0;
    while at < input.len()
        invariant
            start <= at <= input@.len(),
            keys == input@.skip(start as int),
            forall|j: int| 0 <= j < at - start ==> is_digit(#[trigger] keys[j]),
            value == saturated(decimal(keys.take(at - start))),
        ensures
            start <= at <= input@.len(),
            forall|j: int| 0 <= j < at - start ==> is_digit(#[trigger] keys[j]),
            at == input@.len() || !is_digit(keys[at - start]),
            value == saturated(decimal(keys.take(at - start))),
        decreases input@.len() - at,
    {
        let key = input[at];
        assert(keys[at - start] == key);
        if !('0' <= key && key <= '9') {
            break ;
        }
        let digit: u64 = (key as u32 - '0' as u32) as u64;
        let wide: u64 = value as u64 * 10 + digit;
        proof {
            let longer = keys.take(at - start + 1);
            assert(longer.drop_last() =~= keys.take(at - start));
            assert(longer.last() == key);
            assert(digit == digit_value(key));
        }
        value =
        if wide > 0xffff_ffff {
            0xffff_ffff
        } else {
            wide as u32
        };
        at += 1;
    }
    proof {
        lemma_digits_run(keys, (at - start) as nat);
    }
    if at == start {
        (None, start)
    } else {
        (Some(value), at)
    }
}

/// Reads `input` from `start` on as what follows the operator typed as `key`.
fn parse_operand(operator: Operator, key: char, input: &[char], start: usize) -> (result:
    ParseResult<Verb>)
    requires
        start <= input@.len(),
    ensures
        result == operand_of(operator, key, input@.skip(start as int)),
{
    let ghost keys = input@.skip(start as int);
    let (motion_count, at) = parse_number(input, start);
    let ghost rest = keys.skip(count_len(keys) as int);
    assert(rest =~= input@.skip(at as int));
    if at == input.len() {
        return ParseResult::Incomplete;
    }
    assert(rest[0] == input@[at as int]);
    if motion_count.is_none() && input[at] == key {
        if input.len() - at == 1 {
            ParseResult::Complete(Verb::OperateLines(operator))
        } else {
            ParseResult::Invalid
        }
    } else {
        match parse_motion(input, at) {
            ParseResult::Complete(motion) => ParseResult::Complete(
                Verb::Operate { operator, motion_count, motion },
            ),
            ParseResult::Incomplete => ParseResult::Incomplete,
            ParseResult::Invalid => ParseResult::Invalid,
        }
    }
}

/// Says what the key sequence `input` is: a whole command, the beginning of
/// one, or neither. The whole sequence is read each time.
pub fn parse(input: &[char]) -> (result: ParseResult<ParsedCommand>)
    ensures
        result == classify(input@),
{
    let (count, at) = parse_number(input, 0);
    assert(input@.skip(0) =~= input@);
    let ghost keys = input@.skip(at as int);
    if at == input.len() {
        return ParseResult::Incomplete;
    }
    let key = input[at];
    assert(keys[0] == key);
    let verb = if let Some(operator) = parse_operator(key) {
        assert(keys.skip(1) =~= input@.skip(at + 1));
        parse_operand(operator, key, input, at + 1)
    } else {
        match parse_motion(input, at) {
            ParseResult::Complete(motion) => ParseResult::Complete(Verb::Move(motion)),
            ParseResult::Incomplete => ParseResult::Incomplete,
            ParseResult::Invalid => {
                match parse_command(input, at) {
                    ParseResult::Complete(action) => ParseResult::Complete(Verb::Act(action)),
                    ParseResult::Incomplete => ParseResult::Incomplete,
                    ParseResult::Invalid => ParseResult::Invalid,
                }
            },
        }
    };
    match verb {
        ParseResult::Complete(verb) => ParseResult::Complete(ParsedCommand { count, verb }),
        ParseResult::Incomplete => ParseResult::Incomplete,
        ParseResult::Invalid => ParseResult::Invalid,
    }
}

/// `unit`, `times` times over.
pub open spec fn repeated<T>(unit: Seq<T>, times: nat) -> Seq<T>
    decreases times,
{
    if times == 0 {
        Seq::empty()
    } else {
        repeated(unit, (times - 1) as nat) + unit
    }
}

/// The count that was typed, or one where none was.
pub open spec fn or_one(count: Option<u32>) -> nat {
    match count {
        Some(n) => n as nat,
        None => 1,
    }
}

impl ParsedCommand {
    /// How many times the command is to be done: the count in front, times
    /// the count of the motion.
    pub open spec fn times(self) -> nat {
        match self.verb {
            Verb::Operate { motion_count, .. } => or_one(self.count) * or_one(motion_count),
            _ => or_one(self.count),
        }
    }

    /// The command leaves the editor in Insert mode.
    pub open spec fn enters_insert_mode(self) -> bool {
        match self.verb {
            Verb::Move(_) => false,
            Verb::Operate { operator, .. } => operator == Operator::Change,
            Verb::OperateLines(operator) => operator == Operator::Change,
            Verb::Act(action) => action.enters_insert_mode(),
        }
    }

    /// What the command leaves in the memory of the last search, which held
    /// `memory` before.
    pub open spec fn remembered(self, memory: Option<ViCharSearch>) -> Option<ViCharSearch> {
        match self.verb {
            Verb::Move(motion) => motion.remembered(memory),
            Verb::Operate { motion, .. } => motion.remembered(memory),
            _ => memory,
        }
    }

    /// The events of the command, in order, where `memory` is the last
    /// search.
    ///
    /// A motion is its event, as many times as the count says. An operator
    /// selects along its motion as many times as the counts say, then acts on
    /// the selection; typed twice, it selects that many lines from the start
    /// of the current one. A repeat of the last search with nothing
    /// remembered comes to no event at all, under an operator too.
    pub open spec fn events(self, memory: Option<ViCharSearch>) -> Seq<ReedlineEventView> {
        match self.verb {
            Verb::Move(motion) => match motion.event(memory) {
                Some(event) => repeated(seq![event], self.times()),
                None => Seq::empty(),
            },
            Verb::Operate { operator, motion, .. } => match motion.movement(true, memory) {
                Some(command) => repeated(seq![one(command)], self.times()).push(
                    one(operator.action()),
                ),
                None => Seq::empty(),
            },
            Verb::OperateLines(operator) => {
                let start = seq![one(EditCommandView::MoveToLineStart { select: false })];
                let down = seq![one(EditCommandView::MoveLineDown { select: true })];
                (start + repeated(down, self.times())).push(one(operator.action()))
            },
            Verb::Act(action) => repeated(action.events(), self.times()),
        }
    }

    /// The one event that the command is handed out as: its events in order,
    /// or the no-op where it has none.
    pub open spec fn event(self, memory: Option<ViCharSearch>) -> ReedlineEventView {
        if self.events(memory).len() == 0 {
            ReedlineEventView::NoOp
        } else {
            ReedlineEventView::Multiple(self.events(memory))
        }
    }

    /// How many times the command is to be done.
    pub fn total_count(&self) -> (times: u64)
        ensures
            times == self.times(),
    {
        let count: u64 = match self.count {
            Some(n) => n as u64,
            None => 1,
        };
        match self.verb {
            Verb::Operate { motion_count, .. } => {
                let inner: u64 = match motion_count {
                    Some(n) => n as u64,
                    None => 1,
                };
                assert(count * inner <= 0xffff_ffff * 0xffff_ffff) by (nonlinear_arith)
                    requires
                        count <= 0xffff_ffff,
                        inner <= 0xffff_ffff,
                ;
                count * inner
            },
            _ => count,
        }
    }

    /// Whether the command leaves the editor in Insert mode.
    pub fn is_insert_entry(&self) -> (enters: bool)
        ensures
            enters == self.enters_insert_mode(),
    {
        match self.verb {
            Verb::Move(_) => false,
            Verb::Operate { operator, .. } => operator == Operator::Change,
            Verb::OperateLines(operator) => operator == Operator::Change,
            Verb::Act(action) => match action {
                Action::EnterViInsert
                | Action::EnterViAppend
                | Action::PrependToStart
                | Action::AppendToEnd
                | Action::OpenLineBelow
                | Action::OpenLineAbove
                | Action::SubstituteChar
                | Action::RewriteCurrentLine
                | Action::ChangeToLineEnd => true,
                _ => false,
            },
        }
    }

    /// Lowers the command to the event that the line editor is to handle, and
    /// records in `memory` the search that the command made, if it made one.
    pub fn to_reedline_event(&self, memory: &mut Option<ViCharSearch>) -> (event: ReedlineEvent)
        ensures
            event@ == self.event(*old(memory)),
            *final(memory) == self.remembered(*old(memory)),
    {
        let before = *memory;
        let times = self.total_count();
        let mut out: Vec<ReedlineEvent> = Vec::new();
        assert(event_views(out@) =~= Seq::<ReedlineEventView>::empty());
        match self.verb {
            Verb::Move(motion) => {
                if let Some(unit) = motion.to_reedline(before) {
                    push_repeated(&mut out, &unit, times);
                }
                if let Motion::Find(search) = motion {
                    *memory = Some(search);
                }
            },
            Verb::Operate { operator, motion, .. } => {
                if let Some(command) = motion.to_move(true, before) {
                    let unit = edit(command);
                    push_repeated(&mut out, &unit, times);
                    let ghost selected = event_views(out@);
                    out.push(edit(operator.to_edit()));
                    assert(event_views(out@) =~= selected.push(one(operator.action())));
                }
                if let Motion::Find(search) = motion {
                    *memory = Some(search);
                }
            },
            Verb::OperateLines(operator) => {
                out.push(edit(EditCommand::MoveToLineStart { select: false }));
                assert(event_views(out@) =~= seq![
                    one(EditCommandView::MoveToLineStart { select: false }),
                ]);
                let unit = edit(EditCommand::MoveLineDown { select: true });
                push_repeated(&mut out, &unit, times);
                let ghost selected = event_views(out@);
                out.push(edit(operator.to_edit()));
                assert(event_views(out@) =~= selected.push(one(operator.action())));
            },
            Verb::Act(action) => {
                let mut done: u64 = 0;
                while done < times
                    invariant
                        done <= times,
                        event_views(out@) == repeated(action.events(), done as nat),
                    decreases times - done,
                {
                    action.push_events(&mut out);
                    done += 1;
                }
            },
        }
        assert(event_views(out@) =~= self.events(before));
        if out.len() == 0 {
            ReedlineEvent::NoOp
        } else {
            proof {
                lemma_multiple_view(out);
            }
            ReedlineEvent::Multiple(out)
        }
    }
}

/// Appends `times` copies of `event` to `out`.
fn push_repeated(out: &mut Vec<ReedlineEvent>, event: &ReedlineEvent, times: u64)
    ensures
        event_views(final(out)@) == event_views(old(out)@) + repeated(seq![event@], times as nat),
{
    let ghost before = event_views(out@);
    let mut done: u64 = 0;
    assert(before + repeated(seq![event@], 0) =~= before);
    while done < times
        invariant
            done <= times,
            event_views(out@) == before + repeated(seq![event@], done as nat),
        decreases times - done,
    {
        let ghost so_far = event_views(out@);
        out.push(event.clone());
        done += 1;
        assert(event_views(out@) =~= so_far.push(event@));
        assert(so_far.push(event@) =~= before + (repeated(seq![event@], (done - 1) as nat)
            + seq![event@]));
    }
}

} // verus!
