//! How a command is written in keys, and that the grammar reads back exactly
//! what was written.

use crate::command::{action_of, operator_of, Action, Operator};
use crate::motion::{is_motion_key, motion_of, Direction, Motion, ParseResult};
use crate::parser::{
    classify, count_len, count_of, decimal, digit_value, digits_run, is_digit, lemma_digits_run,
    lemma_digits_run_end, operand_of, verb_of, ParsedCommand, Verb,
};
use vstd::prelude::*;

verus! {

/// The character of a digit.
pub open spec fn digit_key(digit: nat) -> char
    recommends
        digit < 10,
{
    ('0' as int + digit) as char
}

/// A number written in base ten, without leading zeros.
pub open spec fn digits_of(n: nat) -> Seq<char>
    decreases n,
{
    if n < 10 {
        seq![digit_key(n)]
    } else {
        digits_of(n / 10).push(digit_key(n % 10))
    }
}

/// A count as it is typed: nothing where there is none.
pub open spec fn count_keys(count: Option<u32>) -> Seq<char> {
    match count {
        Some(n) => digits_of(n as nat),
        None => Seq::empty(),
    }
}

/// The key of an operator.
pub open spec fn operator_key(operator: Operator) -> char {
    match operator {
        Operator::Delete => 'd',
        Operator::Change => 'c',
        Operator::Yank => 'y',
    }
}

/// The keys of a motion.
pub open spec fn motion_keys(motion: Motion) -> Seq<char> {
    match motion {
        Motion::Left => seq!['h'],
        Motion::Right => seq!['l'],
        Motion::Up => seq!['k'],
        Motion::Down => seq!['j'],
        Motion::NextWord => seq!['w'],
        Motion::NextBigWord => seq!['W'],
        Motion::NextWordEnd => seq!['e'],
        Motion::NextBigWordEnd => seq!['E'],
        Motion::PreviousWord => seq!['b'],
        Motion::PreviousBigWord => seq!['B'],
        Motion::Start => seq!['0'],
        Motion::NonBlankStart => seq!['^'],
        Motion::End => seq!['$'],
        Motion::Find(search) => seq![
            match (search.direction, search.inclusive) {
                (Direction::Forward, true) => 'f',
                (Direction::Forward, false) => 't',
                (Direction::Backward, true) => 'F',
                (Direction::Backward, false) => 'T',
            },
            search.target,
        ],
        Motion::ReplayCharSearch => seq![';'],
        Motion::ReverseCharSearch => seq![','],
    }
}

/// The keys of a command that needs no motion.
pub open spec fn action_keys(action: Action) -> Seq<char> {
    match action {
        Action::EnterViInsert => seq!['i'],
        Action::EnterViAppend => seq!['a'],
        Action::PrependToStart => seq!['I'],
        Action::AppendToEnd => seq!['A'],
        Action::OpenLineBelow => seq!['o'],
        Action::OpenLineAbove => seq!['O'],
        Action::SubstituteChar => seq!['s'],
        Action::RewriteCurrentLine => seq!['S'],
        Action::ChangeToLineEnd => seq!['C'],
        Action::DeleteChar => seq!['x'],
        Action::DeleteToEnd => seq!['D'],
        Action::PasteAfter => seq!['p'],
        Action::PasteBefore => seq!['P'],
        Action::Undo => seq!['u'],
        Action::Switchcase => seq!['~'],
        Action::ReplaceChar(c) => seq!['r', c],
    }
}

/// The keys of a command, its count apart.
pub open spec fn verb_keys(verb: Verb) -> Seq<char> {
    match verb {
        Verb::Move(motion) => motion_keys(motion),
        Verb::Operate { operator, motion_count, motion } => seq![operator_key(operator)]
            + count_keys(motion_count) + motion_keys(motion),
        Verb::OperateLines(operator) => seq![operator_key(operator), operator_key(operator)],
        Verb::Act(action) => action_keys(action),
    }
}

/// The keys of a command: its count, then the rest.
pub open spec fn spelling(command: ParsedCommand) -> Seq<char> {
    count_keys(command.count) + verb_keys(command.verb)
}

/// The count, if there is one, is not zero, and the motion after it is not
/// `0`, which typed after digits would be one more digit.
pub open spec fn count_fits(count: Option<u32>, motion: Motion) -> bool {
    count matches Some(n) ==> n >= 1 && motion != Motion::Start
}

/// The command is one that can be typed: no count is zero, and `0` does not
/// stand where it would read as a digit of a count.
pub open spec fn typable(command: ParsedCommand) -> bool {
    &&& command.count matches Some(n) ==> n >= 1
    &&& match command.verb {
        Verb::Move(motion) => count_fits(command.count, motion),
        Verb::Operate { motion_count, motion, .. } => count_fits(motion_count, motion),
        _ => true,
    }
}

/// No count of the command has reached the greatest number that a count
/// holds, at which greater numbers are held as well.
pub open spec fn counts_exact(command: ParsedCommand) -> bool {
    &&& command.count != Some(u32::MAX)
    &&& command.verb matches Verb::Operate { motion_count, .. } ==> motion_count != Some(u32::MAX)
}

/// The keys are digits, at least one, and the first is not `0`.
pub open spec fn is_count(digits: Seq<char>) -> bool {
    &&& digits.len() > 0
    &&& digits[0] != '0'
    &&& forall|i: int| 0 <= i < digits.len() ==> is_digit(#[trigger] digits[i])
}

/// A number that is not zero is written as a count, and the count reads as
/// the number.
proof fn lemma_digits_of(n: nat)
    requires
        n >= 1,
    ensures
        is_count(digits_of(n)),
        decimal(digits_of(n)) == n,
    decreases n,
{
    if n < 10 {
        let digits = seq![digit_key(n)];
        assert(digits.drop_last() =~= Seq::<char>::empty());
        assert(decimal(digits.drop_last()) == 0);
        assert(digit_value(digits.last()) == n);
    } else {
        lemma_digits_of(n / 10);
        let front = digits_of(n / 10);
        let digits = front.push(digit_key(n % 10));
        assert(digits.drop_last() =~= front);
        assert(digit_value(digits.last()) == n % 10);
        assert(digits[0] == front[0]);
        assert forall|i: int| 0 <= i < digits.len() implies is_digit(#[trigger] digits[i]) by {
            if i < front.len() {
                assert(digits[i] == front[i]);
            }
        }
    }
}

/// A count reads as a number that is not zero, and the number is written as
/// the same count again.
proof fn lemma_decimal(digits: Seq<char>)
    requires
        is_count(digits),
    ensures
        decimal(digits) >= 1,
        digits_of(decimal(digits)) == digits,
    decreases digits.len(),
{
    let front = digits.drop_last();
    let last = digits.last();
    assert(is_digit(last));
    if front.len() == 0 {
        assert(last == digits[0]);
        assert(decimal(front) == 0);
        assert(digits_of(decimal(digits)) =~= digits);
    } else {
        assert(front[0] == digits[0]);
        assert forall|i: int| 0 <= i < front.len() implies is_digit(#[trigger] front[i]) by {
            assert(front[i] == digits[i]);
        }
        lemma_decimal(front);
        let n = decimal(digits);
        assert(n == decimal(front) * 10 + digit_value(last));
        assert(n / 10 == decimal(front) && n % 10 == digit_value(last)) by (nonlinear_arith)
            requires
                n == decimal(front) * 10 + digit_value(last),
                digit_value(last) < 10,
        ;
        assert(digits_of(n) =~= digits);
    }
}

/// Among the keys that `keys` begin with as digits, each is a digit.
proof fn lemma_run_is_digits(keys: Seq<char>, i: int)
    requires
        0 <= i < digits_run(keys),
    ensures
        i < keys.len(),
        is_digit(keys[i]),
    decreases keys.len(),
{
    if i > 0 {
        lemma_run_is_digits(keys.drop_first(), i - 1);
        assert(keys.drop_first()[i - 1] == keys[i]);
    }
}

/// A count in front of keys that do not begin with a digit is read as the
/// count, and the keys follow it.
proof fn lemma_count_then(count: Option<u32>, rest: Seq<char>)
    requires
        count matches Some(n) ==> n >= 1,
        rest.len() == 0 || !is_digit(rest[0]) || (count is None && rest[0] == '0'),
    ensures
        count_len(count_keys(count) + rest) == count_keys(count).len(),
        count_of(count_keys(count) + rest) == count,
        (count_keys(count) + rest).skip(count_keys(count).len() as int) == rest,
{
    let digits = count_keys(count);
    let keys = digits + rest;
    assert(keys.skip(digits.len() as int) =~= rest);
    match count {
        Some(n) => {
            lemma_digits_of(n as nat);
            assert(keys[0] == digits[0]);
            assert forall|j: int| 0 <= j < digits.len() implies is_digit(#[trigger] keys[j]) by {
                assert(keys[j] == digits[j]);
            }
            if rest.len() > 0 {
                assert(keys[digits.len() as int] == rest[0]);
            }
            lemma_digits_run(keys, digits.len());
            assert(keys.take(digits.len() as int) =~= digits);
        },
        None => {
            assert(keys =~= rest);
            if rest.len() > 0 && rest[0] != '0' {
                lemma_digits_run(rest, 0);
            }
        },
    }
}

/// What is written is read back: the keys of a command that can be typed are
/// that very command to the grammar.
pub proof fn law_spelling_is_read_back(command: ParsedCommand)
    requires
        typable(command),
    ensures
        classify(spelling(command)) == ParseResult::Complete(command),
{
    let rest = verb_keys(command.verb);
    match command.verb {
        Verb::Operate { operator, motion_count, motion } => {
            let operand = count_keys(motion_count) + motion_keys(motion);
            assert(rest =~= seq![operator_key(operator)] + operand);
            assert(rest[0] == operator_key(operator));
            assert(rest.skip(1) =~= operand);
            assert(motion_keys(motion)[0] == motion_keys(motion)[0]);
            lemma_count_then(motion_count, motion_keys(motion));
        },
        Verb::OperateLines(operator) => {
            let operand = seq![operator_key(operator)];
            assert(rest.skip(1) =~= operand);
            assert(operand.skip(0) =~= operand);
            lemma_digits_run(operand, 0);
        },
        _ => {},
    }
    assert(rest.len() > 0);
    assert(!is_digit(rest[0]) || (command.count is None && rest[0] == '0'));
    lemma_count_then(command.count, rest);
}

/// What a count that was read says of the keys: the count is not zero, it
/// is written as the keys that were read as it, unless it reached the
/// greatest number that a count holds, and what follows it does not begin
/// with a digit, but for a `0` where there is no count.
proof fn lemma_count_written(keys: Seq<char>)
    ensures
        count_len(keys) <= keys.len(),
        count_of(keys) matches Some(n) ==> n >= 1,
        count_of(keys) is None <==> count_len(keys) == 0,
        count_of(keys) != Some(u32::MAX) ==> count_keys(count_of(keys)) == keys.take(
            count_len(keys) as int,
        ),
        count_len(keys) < keys.len() ==> {
            let next = keys[count_len(keys) as int];
            !is_digit(next) || (count_of(keys) is None && next == '0')
        },
{
    let n = count_len(keys);
    lemma_digits_run_end(keys);
    let digits = keys.take(n as int);
    if n > 0 {
        assert forall|i: int| 0 <= i < digits.len() implies is_digit(#[trigger] digits[i]) by {
            lemma_run_is_digits(keys, i);
        }
        assert(digits[0] == keys[0]);
        lemma_decimal(digits);
    } else {
        assert(digits =~= Seq::<char>::empty());
    }
}

/// Keys that are a motion are the keys of that motion.
proof fn lemma_motion_written(keys: Seq<char>, motion: Motion)
    requires
        motion_of(keys) == ParseResult::Complete(motion),
    ensures
        motion_keys(motion) == keys,
{
    assert(motion_keys(motion) =~= keys);
}

/// Keys that are a command without motion are the keys of that command.
proof fn lemma_action_written(keys: Seq<char>, action: Action)
    requires
        action_of(keys) == ParseResult::Complete(action),
    ensures
        action_keys(action) == keys,
{
    assert(action_keys(action) =~= keys);
}

/// Keys that are read after an operator are what is written after it.
proof fn lemma_operand_written(operator: Operator, keys: Seq<char>, verb: Verb)
    requires
        operand_of(operator, operator_key(operator), keys) == ParseResult::Complete(verb),
    ensures
        verb matches Verb::Operate { motion_count, motion, .. } ==> count_fits(
            motion_count,
            motion,
        ),
        !(verb is Move) && !(verb is Act),
        !(verb matches Verb::Operate { motion_count, .. } && motion_count == Some(u32::MAX))
            ==> verb_keys(verb) == seq![operator_key(operator)] + keys,
{
    let n = count_len(keys);
    let rest = keys.skip(n as int);
    lemma_count_written(keys);
    assert(keys =~= keys.take(n as int) + rest);
    assert(rest[0] == keys[n as int]);
    match verb {
        Verb::Operate { motion_count, motion, .. } => {
            lemma_motion_written(rest, motion);
            if motion_count != Some(u32::MAX) {
                assert(verb_keys(verb) =~= seq![operator_key(operator)] + keys);
            }
        },
        Verb::OperateLines(_) => {
            assert(keys.take(0) =~= Seq::<char>::empty());
            assert(verb_keys(verb) =~= seq![operator_key(operator)] + keys);
        },
        _ => {},
    }
}

/// Keys that are a command, its count apart, are the keys of that command.
proof fn lemma_verb_written(keys: Seq<char>, verb: Verb)
    requires
        verb_of(keys) == ParseResult::Complete(verb),
    ensures
        keys.len() > 0,
        verb matches Verb::Operate { motion_count, motion, .. } ==> count_fits(
            motion_count,
            motion,
        ),
        keys[0] == '0' ==> verb == Verb::Move(Motion::Start),
        !(verb matches Verb::Operate { motion_count, .. } && motion_count == Some(u32::MAX))
            ==> verb_keys(verb) == keys,
{
    if let Some(operator) = operator_of(keys[0]) {
        assert(keys[0] == operator_key(operator));
        assert(keys =~= seq![keys[0]] + keys.skip(1));
        lemma_operand_written(operator, keys.skip(1), verb);
    } else if is_motion_key(keys[0]) {
        lemma_motion_written(keys, verb->Move_0);
    } else {
        lemma_action_written(keys, verb->Act_0);
    }
}

/// Only what is written is read: keys that are a command to the grammar are
/// the keys of that command, and it is one that can be typed. (A count that
/// reached the greatest number that a count holds may have been written with
/// more digits.)
pub proof fn law_only_spellings_are_read(keys: Seq<char>, command: ParsedCommand)
    requires
        classify(keys) == ParseResult::Complete(command),
    ensures
        typable(command),
        counts_exact(command) ==> spelling(command) == keys,
{
    let n = count_len(keys);
    let rest = keys.skip(n as int);
    lemma_count_written(keys);
    lemma_verb_written(rest, command.verb);
    assert(keys =~= keys.take(n as int) + rest);
    assert(rest[0] == keys[n as int]);
}

} // verus!
