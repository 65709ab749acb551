//! What holds of the grammar and of the interpreter whatever is typed.

use crate::command::{action_of, operator_of, Operator};
use crate::event::{one, EditCommandView, ReedlineEventView};
use crate::keys::{ascii_lower, EventView, KeyCode, KeyEvent, KeyEventKind, KeyModifiers};
use crate::model::{feeds_grammar, normal_lookup, step, typed_key, Step, ViMode, ViView};
use crate::motion::{is_motion_key, motion_of, Direction, Motion, ParseResult, ViCharSearch};
use crate::parser::{
    classify, count_len, count_of, digits_run, is_digit, lemma_digits_run_end, operand_of, or_one,
    repeated, verb_of, ParsedCommand, Verb,
};
use crate::vi_keybindings::bind;
use vstd::prelude::*;

verus! {

/// A key after the digits that `keys` begin with does not add to them.
proof fn lemma_digits_run_push(keys: Seq<char>, key: char)
    requires
        digits_run(keys) < keys.len(),
    ensures
        digits_run(keys.push(key)) == digits_run(keys),
    decreases keys.len(),
{
    if is_digit(keys[0]) {
        assert(keys.push(key).drop_first() =~= keys.drop_first().push(key));
        lemma_digits_run_push(keys.drop_first(), key);
    }
}

/// After keys that are all digits, a digit adds to them and any other key
/// ends them.
proof fn lemma_digits_run_grow(keys: Seq<char>, key: char)
    requires
        digits_run(keys) == keys.len(),
    ensures
        digits_run(keys.push(key)) == if is_digit(key) {
            keys.len() + 1
        } else {
            keys.len()
        },
    decreases keys.len(),
{
    let longer = keys.push(key);
    if keys.len() > 0 {
        assert(longer[0] == keys[0]);
        assert(is_digit(keys[0]));
        assert(longer.drop_first() =~= keys.drop_first().push(key));
        lemma_digits_run_grow(keys.drop_first(), key);
    } else {
        assert(longer[0] == key);
        assert(longer.drop_first() =~= Seq::<char>::empty());
        assert(digits_run(Seq::<char>::empty()) == 0);
    }
}

/// Where more than a count has been typed, one more key leaves the count as
/// it is and adds to what follows it.
proof fn lemma_push_after_count(keys: Seq<char>, key: char)
    requires
        count_len(keys) < keys.len(),
    ensures
        count_len(keys.push(key)) == count_len(keys),
        count_of(keys.push(key)) == count_of(keys),
        keys.push(key).skip(count_len(keys) as int) == keys.skip(count_len(keys) as int).push(key),
{
    let longer = keys.push(key);
    assert(longer[0] == keys[0]);
    if keys[0] != '0' {
        lemma_digits_run_push(keys, key);
    }
    let n = count_len(keys) as int;
    assert(longer.take(n) =~= keys.take(n));
    assert(longer.skip(n) =~= keys.skip(n).push(key));
}

/// Where nothing but a count has been typed, if that, a key that cannot add
/// to the count leaves it as it is and stands alone after it.
proof fn lemma_push_ends_count(keys: Seq<char>, key: char)
    requires
        count_len(keys) == keys.len(),
        !is_digit(key),
    ensures
        count_len(keys.push(key)) == keys.len(),
        count_of(keys.push(key)) == count_of(keys),
        keys.push(key).skip(keys.len() as int) == seq![key],
{
    let longer = keys.push(key);
    if keys.len() > 0 {
        assert(longer[0] == keys[0]);
    }
    lemma_digits_run_grow(keys, key);
    let n = keys.len() as int;
    assert(longer.take(n) =~= keys);
    assert(keys.take(n) =~= keys);
    assert(longer.skip(n) =~= seq![key]);
}

/// A motion that is whole or impossible stays impossible when a key is added.
proof fn lemma_motion_closed(keys: Seq<char>, key: char)
    requires
        keys.len() > 0,
        !(motion_of(keys) is Incomplete),
    ensures
        motion_of(keys.push(key)) is Invalid,
{
    assert(keys.push(key)[0] == keys[0]);
}

/// A command that needs no motion, once whole or impossible, stays
/// impossible when a key is added.
proof fn lemma_action_closed(keys: Seq<char>, key: char)
    requires
        keys.len() > 0,
        !(action_of(keys) is Incomplete),
    ensures
        action_of(keys.push(key)) is Invalid,
{
    assert(keys.push(key)[0] == keys[0]);
}

/// What follows an operator, once whole or impossible, stays impossible when
/// a key is added.
proof fn lemma_operand_closed(operator: Operator, first: char, keys: Seq<char>, key: char)
    requires
        !(operand_of(operator, first, keys) is Incomplete),
    ensures
        operand_of(operator, first, keys.push(key)) is Invalid,
{
    lemma_digits_run_end(keys);
    let n = count_len(keys);
    let rest = keys.skip(n as int);
    assert(rest.len() > 0);
    lemma_push_after_count(keys, key);
    assert(rest.push(key)[0] == rest[0]);
    if !(count_of(keys) is None && rest[0] == first) {
        lemma_motion_closed(rest, key);
    }
}

/// A command, its count apart, that is whole or impossible stays impossible
/// when a key is added.
proof fn lemma_verb_closed(keys: Seq<char>, key: char)
    requires
        !(verb_of(keys) is Incomplete),
    ensures
        verb_of(keys.push(key)) is Invalid,
{
    let longer = keys.push(key);
    assert(longer[0] == keys[0]);
    if let Some(operator) = operator_of(keys[0]) {
        assert(longer.skip(1) =~= keys.skip(1).push(key));
        lemma_operand_closed(operator, keys[0], keys.skip(1), key);
    } else if is_motion_key(keys[0]) {
        lemma_motion_closed(keys, key);
    } else {
        lemma_action_closed(keys, key);
    }
}

/// Once a key sequence is a whole command, or can no longer become one, no
/// further key makes it a command: every longer sequence is invalid. So a
/// whole command is never the beginning of another, and an invalid sequence
/// is one that can never be extended into a command.
pub proof fn law_no_command_extends(keys: Seq<char>, key: char)
    requires
        !(classify(keys) is Incomplete),
    ensures
        classify(keys.push(key)) is Invalid,
{
    lemma_digits_run_end(keys);
    lemma_push_after_count(keys, key);
    lemma_verb_closed(keys.skip(count_len(keys) as int), key);
}

/// A key sequence that is the beginning of a command can always become a
/// command: typing `h` completes it.
pub proof fn law_beginning_can_complete(keys: Seq<char>)
    requires
        classify(keys) is Incomplete,
    ensures
        classify(keys.push('h')) is Complete,
{
    lemma_digits_run_end(keys);
    let n = count_len(keys);
    let rest = keys.skip(n as int);
    if rest.len() == 0 {
        lemma_push_ends_count(keys, 'h');
    } else {
        lemma_push_after_count(keys, 'h');
        let longer = rest.push('h');
        assert(longer[0] == rest[0]);
        if let Some(operator) = operator_of(rest[0]) {
            let operand = rest.skip(1);
            assert(longer.skip(1) =~= operand.push('h'));
            lemma_digits_run_end(operand);
            let m = count_len(operand);
            let tail = operand.skip(m as int);
            if tail.len() == 0 {
                lemma_push_ends_count(operand, 'h');
            } else {
                lemma_push_after_count(operand, 'h');
                assert(tail.push('h')[0] == tail[0]);
                assert(tail.push('h')[1] == 'h');
            }
        } else {
            assert(longer[1] == 'h');
        }
    }
}

/// The press of a character key with no modifier held.
pub open spec fn press(c: char) -> EventView {
    EventView::Key(
        KeyEvent {
            code: KeyCode::Char(c),
            modifiers: KeyModifiers::NONE,
            kind: KeyEventKind::Press,
        },
    )
}

/// The state after the characters of `chars` were typed one after the other
/// with no modifier held.
pub open spec fn typed(s: ViView, chars: Seq<char>) -> ViView
    decreases chars.len(),
{
    if chars.len() == 0 {
        s
    } else {
        step(typed(s, chars.drop_last()), press(chars.last())).state
    }
}

/// What the last character of `chars` was answered with, the characters
/// having been typed one after the other with no modifier held.
pub open spec fn last_output(s: ViView, chars: Seq<char>) -> ReedlineEventView
    recommends
        chars.len() > 0,
{
    step(typed(s, chars.drop_last()), press(chars.last())).output
}

/// Every step leaves a well-formed state well formed: while a command is
/// being typed, the cache holds the beginning of a command.
pub proof fn law_step_keeps_well_formed(s: ViView, event: EventView)
    requires
        s.wf(),
    ensures
        step(s, event).state.wf(),
{
}

/// A character typed in Normal mode with no modifier, while no command is
/// being typed and the character has no binding of its own: if it begins a
/// command that needs more keys, it is all the cache holds and nothing is
/// handed out; if it begins none, the cache stays empty and nothing is handed
/// out. (A character that is a whole command by itself is carried out.)
pub proof fn law_first_key(s: ViView, c: char)
    requires
        s.wf(),
        s.mode == ViMode::Normal,
        s.seq_completed(),
        !s.normal_keybindings.contains_key(normal_lookup(KeyModifiers::NONE, c)),
        !(classify(seq![ascii_lower(c)]) is Complete),
    ensures
        step(s, press(c)).output == ReedlineEventView::NoOp,
        classify(seq![ascii_lower(c)]) is Incomplete ==> step(s, press(c)).state.cache
            == seq![ascii_lower(c)],
        classify(seq![ascii_lower(c)]) is Invalid ==> step(s, press(c)).state.cache
            == Seq::<char>::empty(),
{
    assert(s.cache.push(ascii_lower(c)) =~= seq![ascii_lower(c)]);
}

/// Escape with no modifier always empties the cache and leaves the editor in
/// Normal mode. From Insert mode it hands out move-left, the escape and a
/// repaint, in that order; from Normal mode the escape and a repaint.
pub proof fn law_escape(s: ViView, kind: KeyEventKind)
    ensures
        ({
            let after = step(
                s,
                EventView::Key(
                    KeyEvent { code: KeyCode::Esc, modifiers: KeyModifiers::NONE, kind },
                ),
            );
            &&& after.state.cache == Seq::<char>::empty()
            &&& after.state.seq_completed()
            &&& after.state.mode == ViMode::Normal
            &&& s.mode == ViMode::Insert ==> after.output == ReedlineEventView::Multiple(
                seq![ReedlineEventView::Left, ReedlineEventView::Esc, ReedlineEventView::Repaint],
            )
            &&& s.mode == ViMode::Normal ==> after.output == ReedlineEventView::Multiple(
                seq![ReedlineEventView::Esc, ReedlineEventView::Repaint],
            )
        }),
{
}

/// Enter with no modifier always leaves the editor in Insert mode and hands
/// out exactly the request to submit the line, whatever the mode was.
pub proof fn law_enter(s: ViView, kind: KeyEventKind)
    ensures
        ({
            let after = step(
                s,
                EventView::Key(
                    KeyEvent { code: KeyCode::Enter, modifiers: KeyModifiers::NONE, kind },
                ),
            );
            &&& after.state.mode == ViMode::Insert
            &&& after.output == ReedlineEventView::Enter
        }),
{
}

/// The search that `f` and the character `target` make.
pub open spec fn find_forward(target: char) -> ViCharSearch {
    ViCharSearch { direction: Direction::Forward, target, inclusive: true }
}

/// `f` and a character, typed in Normal mode while no command is being typed
/// and `f` has no binding of its own, are a whole command after the two
/// keys: it hands out one move onto the character, to the right, and is
/// remembered as the last search.
pub proof fn law_find(s: ViView, target: char)
    requires
        s.wf(),
        s.mode == ViMode::Normal,
        s.seq_completed(),
        !s.normal_keybindings.contains_key(normal_lookup(KeyModifiers::NONE, 'f')),
    ensures
        step(s, press('f')).output == ReedlineEventView::NoOp,
        step(s, press('f')).state.cache == seq!['f'],
        ({
            let after = step(step(s, press('f')).state, press(target));
            &&& after.output == ReedlineEventView::Multiple(
                seq![
                    one(
                        EditCommandView::MoveRightUntil { c: ascii_lower(target), select: false },
                    ),
                ],
            )
            &&& after.state.last_char_search == Some(find_forward(ascii_lower(target)))
            &&& after.state.cache == Seq::<char>::empty()
            &&& after.state.mode == ViMode::Normal
        }),
{
    let first = seq!['f'];
    assert(s.cache.push('f') =~= first);
    assert(first.skip(0) =~= first);
    reveal_with_fuel(digits_run, 2);
    assert(classify(first) is Incomplete);
    let both = first.push(ascii_lower(target));
    assert(both.skip(0) =~= both);
    assert(both[0] == 'f');
    let command = ParsedCommand {
        count: None,
        verb: Verb::Move(Motion::Find(find_forward(ascii_lower(target)))),
    };
    assert(classify(both) == ParseResult::Complete(command));
    reveal_with_fuel(repeated, 2);
    let event = one(EditCommandView::MoveRightUntil { c: ascii_lower(target), select: false });
    assert(command.events(s.last_char_search) =~= seq![event]);
}

/// `;` typed in Normal mode, while no command is being typed and `;` has no
/// binding of its own, hands out the move of the remembered search again and
/// leaves the memory as it is; with nothing remembered it hands out nothing.
pub proof fn law_repeat_search(s: ViView)
    requires
        s.wf(),
        s.mode == ViMode::Normal,
        s.seq_completed(),
        !s.normal_keybindings.contains_key(normal_lookup(KeyModifiers::NONE, ';')),
    ensures
        step(s, press(';')).state == s,
        step(s, press(';')).output == match s.last_char_search {
            Some(search) => ReedlineEventView::Multiple(seq![one(search.movement(false))]),
            None => ReedlineEventView::NoOp,
        },
{
    let keys = seq![';'];
    assert(s.cache.push(';') =~= keys);
    assert(keys.skip(0) =~= keys);
    reveal_with_fuel(digits_run, 2);
    let command = ParsedCommand { count: None, verb: Verb::Move(Motion::ReplayCharSearch) };
    assert(classify(keys) == ParseResult::Complete(command));
    reveal_with_fuel(repeated, 2);
    match s.last_char_search {
        Some(search) => {
            assert(command.events(s.last_char_search) =~= seq![one(search.movement(false))]);
        },
        None => {},
    }
    assert(step(s, press(';')).state.cache =~= s.cache);
}

/// A character with a binding of its own, typed in Normal mode while no
/// command is being typed, hands out exactly what it is bound to, and the
/// grammar is not asked: the state stays as it is.
pub proof fn law_binding_wins(s: ViView, modifiers: u8, c: char, kind: KeyEventKind)
    requires
        s.mode == ViMode::Normal,
        s.seq_completed(),
        s.normal_keybindings.contains_key(normal_lookup(modifiers, c)),
    ensures
        step(s, EventView::Key(KeyEvent { code: KeyCode::Char(c), modifiers, kind })) == (Step {
            state: s,
            output: s.normal_keybindings[normal_lookup(modifiers, c)],
        }),
{
}

/// A key combination of a character that was bound in the Normal table, the
/// character being no upper-case letter, hands out what it was bound to when
/// it is pressed in Normal mode while no command is being typed.
pub proof fn law_bound_key_is_handed_out(
    s: ViView,
    modifiers: u8,
    c: char,
    event: ReedlineEventView,
    kind: KeyEventKind,
)
    requires
        s.mode == ViMode::Normal,
        s.seq_completed(),
        ascii_lower(c) == c,
    ensures
        ({
            let bound = ViView {
                normal_keybindings: bind(s.normal_keybindings, modifiers, KeyCode::Char(c), event),
                ..s
            };
            step(bound, EventView::Key(KeyEvent { code: KeyCode::Char(c), modifiers, kind })) == (
            Step { state: bound, output: event })
        }),
{
}

/// Under an operator the count in front and the count of the motion
/// multiply: the cursor is carried along the motion that many times,
/// selecting, and then the operator acts once.
pub proof fn law_counts_multiply(command: ParsedCommand, memory: Option<ViCharSearch>)
    requires
        command.verb is Operate,
        command.verb->motion.movement(true, memory) is Some,
    ensures
        command.times() == or_one(command.count) * or_one(command.verb->motion_count),
        command.events(memory) == repeated(
            seq![one(command.verb->motion.movement(true, memory)->0)],
            command.times(),
        ).push(one(command.verb->operator.action())),
        command.event(memory) == ReedlineEventView::Multiple(command.events(memory)),
{
}

/// An operator typed twice acts on as many lines as the count in front says.
pub proof fn law_lines_counted(command: ParsedCommand, memory: Option<ViCharSearch>)
    requires
        command.verb is OperateLines,
    ensures
        command.times() == or_one(command.count),
        command.events(memory) == ({
            let start = seq![one(EditCommandView::MoveToLineStart { select: false })];
            let down = seq![one(EditCommandView::MoveLineDown { select: true })];
            (start + repeated(down, command.times())).push(
                one(command.verb->OperateLines_0.action()),
            )
        }),
{
}

/// A key that the grammar takes and that makes the keys typed so far
/// impossible to complete empties the cache and hands out nothing.
pub proof fn law_invalid_key_resets(s: ViView, modifiers: u8, c: char, kind: KeyEventKind)
    requires
        s.mode == ViMode::Normal,
        feeds_grammar(s, modifiers, c),
        classify(s.cache.push(typed_key(modifiers, c))) is Invalid,
    ensures
        step(s, EventView::Key(KeyEvent { code: KeyCode::Char(c), modifiers, kind })) == (Step {
            state: s.idle(),
            output: ReedlineEventView::NoOp,
        }),
{
}

/// However many characters follow that begin no command and have no binding
/// of their own, each is answered with nothing and the cache stays empty.
pub proof fn law_invalid_keys_change_nothing(s: ViView, chars: Seq<char>)
    requires
        s.wf(),
        s.mode == ViMode::Normal,
        s.seq_completed(),
        forall|i: int|
            0 <= i < chars.len() ==> !s.normal_keybindings.contains_key(
                normal_lookup(KeyModifiers::NONE, #[trigger] chars[i]),
            ),
        forall|i: int|
            0 <= i < chars.len() ==> classify(seq![ascii_lower(#[trigger] chars[i])]) is Invalid,
    ensures
        typed(s, chars) == s,
        chars.len() > 0 ==> last_output(s, chars) == ReedlineEventView::NoOp,
    decreases chars.len(),
{
    if chars.len() > 0 {
        let front = chars.drop_last();
        assert forall|i: int| 0 <= i < front.len() implies !s.normal_keybindings.contains_key(
            normal_lookup(KeyModifiers::NONE, #[trigger] front[i]),
        ) by {
            assert(front[i] == chars[i]);
        }
        assert forall|i: int| 0 <= i < front.len() implies classify(
            seq![ascii_lower(#[trigger] front[i])],
        ) is Invalid by {
            assert(front[i] == chars[i]);
        }
        law_invalid_keys_change_nothing(s, front);
        let c = chars.last();
        assert(c == chars[chars.len() - 1]);
        assert(s.cache.push(ascii_lower(c)) =~= seq![ascii_lower(c)]);
        assert(s.idle() == s) by {
            assert(s.cache =~= Seq::<char>::empty());
        }
    }
}

/// Keys that can never become a command end with an empty cache and nothing
/// handed out, however many more such keys follow: the key that makes what
/// was typed impossible to complete resets the interpreter, and every
/// character after it that begins no command and has no binding of its own
/// leaves it so.
pub proof fn law_invalid_sequence_ends_idle(s: ViView, c: char, more: Seq<char>)
    requires
        s.mode == ViMode::Normal,
        feeds_grammar(s, KeyModifiers::NONE, c),
        classify(s.cache.push(ascii_lower(c))) is Invalid,
        forall|i: int|
            0 <= i < more.len() ==> !s.normal_keybindings.contains_key(
                normal_lookup(KeyModifiers::NONE, #[trigger] more[i]),
            ),
        forall|i: int|
            0 <= i < more.len() ==> classify(seq![ascii_lower(#[trigger] more[i])]) is Invalid,
    ensures
        step(s, press(c)).output == ReedlineEventView::NoOp,
        typed(step(s, press(c)).state, more) == s.idle(),
        more.len() > 0 ==> last_output(step(s, press(c)).state, more) == ReedlineEventView::NoOp,
{
    law_invalid_key_resets(s, KeyModifiers::NONE, c, KeyEventKind::Press);
    law_invalid_keys_change_nothing(s.idle(), more);
}

} // verus!
