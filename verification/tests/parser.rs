use vi_mode::{
    parse, Action, Direction, EditCommand, Motion, Operator, ParseResult, ParsedCommand,
    ReedlineEvent, Verb, ViCharSearch,
};

fn classify(keys: &str) -> ParseResult<ParsedCommand> {
    let keys: Vec<char> = keys.chars().collect();
    parse(&keys)
}

fn complete(count: Option<u32>, verb: Verb) -> ParseResult<ParsedCommand> {
    ParseResult::Complete(ParsedCommand { count, verb })
}

fn edit(command: EditCommand) -> ReedlineEvent {
    ReedlineEvent::Edit(vec![command])
}

#[test]
fn nothing_typed_is_incomplete() {
    assert_eq!(classify(""), ParseResult::Incomplete);
}

#[test]
fn counts_alone_are_incomplete() {
    assert_eq!(classify("2"), ParseResult::Incomplete);
    assert_eq!(classify("20"), ParseResult::Incomplete);
    assert_eq!(classify("2d"), ParseResult::Incomplete);
    assert_eq!(classify("2d3"), ParseResult::Incomplete);
    assert_eq!(classify("d10"), ParseResult::Incomplete);
}

#[test]
fn zero_is_a_motion_and_no_count() {
    assert_eq!(classify("0"), complete(None, Verb::Move(Motion::Start)));
    assert_eq!(classify("0w"), ParseResult::Invalid);
    assert_eq!(
        classify("d0"),
        complete(
            None,
            Verb::Operate { operator: Operator::Delete, motion_count: None, motion: Motion::Start }
        )
    );
    assert_eq!(classify("10w"), complete(Some(10), Verb::Move(Motion::NextWord)));
}

#[test]
fn single_key_motions() {
    let cases = [
        ('h', Motion::Left),
        ('l', Motion::Right),
        ('k', Motion::Up),
        ('j', Motion::Down),
        ('w', Motion::NextWord),
        ('W', Motion::NextBigWord),
        ('e', Motion::NextWordEnd),
        ('E', Motion::NextBigWordEnd),
        ('b', Motion::PreviousWord),
        ('B', Motion::PreviousBigWord),
        ('^', Motion::NonBlankStart),
        ('$', Motion::End),
        (';', Motion::ReplayCharSearch),
        (',', Motion::ReverseCharSearch),
    ];
    for (key, motion) in cases {
        assert_eq!(classify(&key.to_string()), complete(None, Verb::Move(motion)));
    }
}

#[test]
fn searches_need_their_target() {
    let cases = [
        ('f', Direction::Forward, true),
        ('t', Direction::Forward, false),
        ('F', Direction::Backward, true),
        ('T', Direction::Backward, false),
    ];
    for (key, direction, inclusive) in cases {
        assert_eq!(classify(&key.to_string()), ParseResult::Incomplete);
        assert_eq!(
            classify(&format!("{}9", key)),
            complete(
                None,
                Verb::Move(Motion::Find(ViCharSearch { direction, target: '9', inclusive }))
            )
        );
        assert_eq!(classify(&format!("{}ab", key)), ParseResult::Invalid);
    }
}

#[test]
fn commands_without_motion() {
    let cases = [
        ('i', Action::EnterViInsert),
        ('a', Action::EnterViAppend),
        ('I', Action::PrependToStart),
        ('A', Action::AppendToEnd),
        ('o', Action::OpenLineBelow),
        ('O', Action::OpenLineAbove),
        ('s', Action::SubstituteChar),
        ('S', Action::RewriteCurrentLine),
        ('C', Action::ChangeToLineEnd),
        ('x', Action::DeleteChar),
        ('D', Action::DeleteToEnd),
        ('p', Action::PasteAfter),
        ('P', Action::PasteBefore),
        ('u', Action::Undo),
        ('~', Action::Switchcase),
    ];
    for (key, action) in cases {
        assert_eq!(classify(&key.to_string()), complete(None, Verb::Act(action)));
        assert_eq!(classify(&format!("{}x", key)), ParseResult::Invalid);
    }
    assert_eq!(classify("r"), ParseResult::Incomplete);
    assert_eq!(classify("rd"), complete(None, Verb::Act(Action::ReplaceChar('d'))));
    assert_eq!(classify("3rd"), complete(Some(3), Verb::Act(Action::ReplaceChar('d'))));
}

#[test]
fn operators_take_a_motion_or_themselves() {
    assert_eq!(classify("d"), ParseResult::Incomplete);
    assert_eq!(classify("dd"), complete(None, Verb::OperateLines(Operator::Delete)));
    assert_eq!(classify("cc"), complete(None, Verb::OperateLines(Operator::Change)));
    assert_eq!(classify("yy"), complete(None, Verb::OperateLines(Operator::Yank)));
    assert_eq!(classify("3dd"), complete(Some(3), Verb::OperateLines(Operator::Delete)));
    assert_eq!(classify("dc"), ParseResult::Invalid);
    assert_eq!(classify("d2d"), ParseResult::Invalid);
    assert_eq!(classify("di"), ParseResult::Invalid);
    assert_eq!(classify("ddd"), ParseResult::Invalid);
    assert_eq!(classify("dt"), ParseResult::Incomplete);
    assert_eq!(
        classify("2d3w"),
        complete(
            Some(2),
            Verb::Operate {
                operator: Operator::Delete,
                motion_count: Some(3),
                motion: Motion::NextWord
            }
        )
    );
    assert_eq!(
        classify("yTq"),
        complete(
            None,
            Verb::Operate {
                operator: Operator::Yank,
                motion_count: None,
                motion: Motion::Find(ViCharSearch {
                    direction: Direction::Backward,
                    target: 'q',
                    inclusive: false
                })
            }
        )
    );
}

#[test]
fn what_begins_no_command_is_invalid() {
    for keys in ["q", "z", "!", " ", "2q", "dq", "hh", "é"] {
        assert_eq!(classify(keys), ParseResult::Invalid, "{}", keys);
    }
}

#[test]
fn counts_saturate() {
    assert_eq!(classify("4294967295x"), complete(Some(u32::MAX), Verb::Act(Action::DeleteChar)));
    assert_eq!(classify("4294967296x"), complete(Some(u32::MAX), Verb::Act(Action::DeleteChar)));
    assert_eq!(
        classify("99999999999999999999999999x"),
        complete(Some(u32::MAX), Verb::Act(Action::DeleteChar))
    );
    assert_eq!(classify("4294967294x"), complete(Some(4294967294), Verb::Act(Action::DeleteChar)));
}

#[test]
fn total_count_is_the_product() {
    let command = ParsedCommand {
        count: Some(2),
        verb: Verb::Operate {
            operator: Operator::Delete,
            motion_count: Some(3),
            motion: Motion::NextWord,
        },
    };
    assert_eq!(command.total_count(), 6);
    let command = ParsedCommand { count: Some(3), verb: Verb::OperateLines(Operator::Delete) };
    assert_eq!(command.total_count(), 3);
    let command = ParsedCommand { count: None, verb: Verb::Move(Motion::Left) };
    assert_eq!(command.total_count(), 1);
    let command = ParsedCommand {
        count: Some(u32::MAX),
        verb: Verb::Operate {
            operator: Operator::Yank,
            motion_count: Some(u32::MAX),
            motion: Motion::Left,
        },
    };
    assert_eq!(command.total_count(), 18446744065119617025);
}

#[test]
fn insert_entry() {
    let enters = |keys: &str| match classify(keys) {
        ParseResult::Complete(command) => command.is_insert_entry(),
        other => panic!("{:?}", other),
    };
    for keys in ["i", "a", "I", "A", "o", "O", "s", "S", "C", "cw", "cc", "2c3l"] {
        assert!(enters(keys), "{}", keys);
    }
    for keys in ["x", "D", "p", "P", "u", "~", "rx", "dw", "dd", "yy", "yw", "w", "fx", ";"] {
        assert!(!enters(keys), "{}", keys);
    }
}

#[test]
fn lowering_selects_under_an_operator() {
    let command = ParsedCommand {
        count: None,
        verb: Verb::Operate {
            operator: Operator::Yank,
            motion_count: Some(2),
            motion: Motion::Left,
        },
    };
    let mut memory = None;
    assert_eq!(
        command.to_reedline_event(&mut memory),
        ReedlineEvent::Multiple(vec![
            edit(EditCommand::MoveLeft { select: true }),
            edit(EditCommand::MoveLeft { select: true }),
            edit(EditCommand::CopySelection),
        ])
    );
    assert_eq!(memory, None);
}

#[test]
fn lowering_reads_and_writes_the_memory() {
    let search = ViCharSearch { direction: Direction::Backward, target: '.', inclusive: false };
    let mut memory = Some(search);
    let reverse = ParsedCommand { count: Some(2), verb: Verb::Move(Motion::ReverseCharSearch) };
    assert_eq!(
        reverse.to_reedline_event(&mut memory),
        ReedlineEvent::Multiple(vec![
            edit(EditCommand::MoveRightBefore { c: '.', select: false }),
            edit(EditCommand::MoveRightBefore { c: '.', select: false }),
        ])
    );
    assert_eq!(memory, Some(search));
    assert_eq!(
        search.reverse(),
        ViCharSearch { direction: Direction::Forward, target: '.', inclusive: false }
    );
    assert_eq!(search.to_move(true), EditCommand::MoveLeftBefore { c: '.', select: true });

    let find = ParsedCommand {
        count: None,
        verb: Verb::Operate {
            operator: Operator::Change,
            motion_count: None,
            motion: Motion::Find(ViCharSearch {
                direction: Direction::Backward,
                target: 'k',
                inclusive: true,
            }),
        },
    };
    assert_eq!(
        find.to_reedline_event(&mut memory),
        ReedlineEvent::Multiple(vec![
            edit(EditCommand::MoveLeftUntil { c: 'k', select: true }),
            edit(EditCommand::CutSelection),
        ])
    );
    assert_eq!(
        memory,
        Some(ViCharSearch { direction: Direction::Backward, target: 'k', inclusive: true })
    );
}

#[test]
fn lowering_of_every_motion_under_delete() {
    let cases = [
        (Motion::Left, EditCommand::MoveLeft { select: true }),
        (Motion::Right, EditCommand::MoveRight { select: true }),
        (Motion::Up, EditCommand::MoveLineUp { select: true }),
        (Motion::Down, EditCommand::MoveLineDown { select: true }),
        (Motion::NextWord, EditCommand::MoveWordRightStart { select: true }),
        (Motion::NextBigWord, EditCommand::MoveBigWordRightStart { select: true }),
        (Motion::NextWordEnd, EditCommand::MoveWordRightEnd { select: true }),
        (Motion::NextBigWordEnd, EditCommand::MoveBigWordRightEnd { select: true }),
        (Motion::PreviousWord, EditCommand::MoveWordLeft { select: true }),
        (Motion::PreviousBigWord, EditCommand::MoveBigWordLeft { select: true }),
        (Motion::Start, EditCommand::MoveToLineStart { select: true }),
        (Motion::NonBlankStart, EditCommand::MoveToLineNonBlankStart { select: true }),
        (Motion::End, EditCommand::MoveToLineEnd { select: true }),
    ];
    for (motion, command) in cases {
        let parsed = ParsedCommand {
            count: None,
            verb: Verb::Operate { operator: Operator::Delete, motion_count: None, motion },
        };
        let mut memory = None;
        assert_eq!(
            parsed.to_reedline_event(&mut memory),
            ReedlineEvent::Multiple(vec![edit(command), edit(EditCommand::CutSelection)])
        );
    }
}
