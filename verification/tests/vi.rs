use vi_mode::{
    default_vi_insert_keybindings, default_vi_normal_keybindings, Direction, EditCommand, Event,
    KeyCode, KeyEvent, KeyModifiers, Keybindings, PromptEditMode, PromptViMode, ReedlineEvent,
    ReedlineRawEvent, Vi, ViCharSearch, ViMode,
};

fn key(code: KeyCode, modifiers: u8) -> ReedlineRawEvent {
    ReedlineRawEvent::convert_from(Event::Key(KeyEvent::new(code, modifiers))).unwrap()
}

fn press(c: char) -> ReedlineRawEvent {
    key(KeyCode::Char(c), KeyModifiers::NONE)
}

fn normal() -> Vi {
    Vi::with_mode(
        default_vi_insert_keybindings(),
        default_vi_normal_keybindings(),
        ViMode::Normal,
    )
}

fn type_keys(vi: &mut Vi, keys: &str) -> Vec<ReedlineEvent> {
    let mut out = Vec::new();
    for c in keys.chars() {
        out.push(vi.parse_event(press(c)));
    }
    out
}

fn edit(command: EditCommand) -> ReedlineEvent {
    ReedlineEvent::Edit(vec![command])
}

#[test]
fn esc_leads_to_normal_mode_test() {
    let mut vi = Vi::default();
    let esc = ReedlineRawEvent::convert_from(Event::Key(KeyEvent::new(
        KeyCode::Esc,
        KeyModifiers::NONE,
    )))
    .unwrap();
    let result = vi.parse_event(esc);

    assert_eq!(
        result,
        ReedlineEvent::Multiple(vec![
            ReedlineEvent::Left,
            ReedlineEvent::Esc,
            ReedlineEvent::Repaint
        ])
    );
    assert!(matches!(vi.mode(), ViMode::Normal));
}

#[test]
fn keybinding_without_modifier_test() {
    let mut keybindings = default_vi_normal_keybindings();
    keybindings.add_binding(
        KeyModifiers::NONE,
        KeyCode::Char('e'),
        ReedlineEvent::ClearScreen,
    );

    let mut vi = Vi::with_mode(default_vi_insert_keybindings(), keybindings, ViMode::Normal);

    let esc = ReedlineRawEvent::convert_from(Event::Key(KeyEvent::new(
        KeyCode::Char('e'),
        KeyModifiers::NONE,
    )))
    .unwrap();
    let result = vi.parse_event(esc);

    assert_eq!(result, ReedlineEvent::ClearScreen);
}

#[test]
fn keybinding_with_shift_modifier_test() {
    let mut keybindings = default_vi_normal_keybindings();
    keybindings.add_binding(
        KeyModifiers::SHIFT,
        KeyCode::Char('$'),
        ReedlineEvent::CtrlD,
    );

    let mut vi = Vi::with_mode(default_vi_insert_keybindings(), keybindings, ViMode::Normal);

    let esc = ReedlineRawEvent::convert_from(Event::Key(KeyEvent::new(
        KeyCode::Char('$'),
        KeyModifiers::SHIFT,
    )))
    .unwrap();
    let result = vi.parse_event(esc);

    assert_eq!(result, ReedlineEvent::CtrlD);
}

#[test]
fn non_register_modifier_test() {
    let keybindings = default_vi_normal_keybindings();
    let mut vi = Vi::with_mode(default_vi_insert_keybindings(), keybindings, ViMode::Normal);

    let esc = ReedlineRawEvent::convert_from(Event::Key(KeyEvent::new(
        KeyCode::Char('q'),
        KeyModifiers::NONE,
    )))
    .unwrap();
    let result = vi.parse_event(esc);

    assert_eq!(result, ReedlineEvent::NoOp);
}

#[test]
fn find_custom_keybinding_test() {
    let mut keybindings = default_vi_normal_keybindings();
    keybindings.add_binding(
        KeyModifiers::SHIFT,
        KeyCode::Char('B'),
        ReedlineEvent::Edit(vec![EditCommand::MoveBigWordLeft { select: false }]),
    );
    let mut vi = Vi::with_mode(default_vi_insert_keybindings(), keybindings, ViMode::Normal);

    let _ = vi.parse_event(
        ReedlineRawEvent::convert_from(Event::Key(KeyEvent::new(
            KeyCode::Char('f'),
            KeyModifiers::NONE,
        )))
        .unwrap(),
    );
    let res = vi.parse_event(
        ReedlineRawEvent::convert_from(Event::Key(KeyEvent::new(
            KeyCode::Char('B'),
            KeyModifiers::SHIFT,
        )))
        .unwrap(),
    );

    assert_eq!(
        res,
        ReedlineEvent::Multiple(vec![ReedlineEvent::Edit(vec![
            EditCommand::MoveRightUntil {
                c: 'B',
                select: false
            }
        ])])
    );
}

#[test]
fn default_begins_in_insert_mode() {
    let vi = Vi::default();
    assert_eq!(vi.mode(), ViMode::Insert);
    assert_eq!(vi.edit_mode(), PromptEditMode::Vi(PromptViMode::Insert));
    assert!(vi.sequence_completed());
    assert!(vi.pending_keys().is_empty());
    assert_eq!(vi.last_char_search(), None);
}

#[test]
fn new_takes_the_given_tables() {
    let mut insert = Keybindings::new();
    insert.add_binding(KeyModifiers::NONE, KeyCode::Char('z'), ReedlineEvent::CtrlC);
    let mut normal = Keybindings::new();
    normal.add_binding(KeyModifiers::NONE, KeyCode::Tab, ReedlineEvent::ClearScreen);
    let mut vi = Vi::new(insert, normal);
    assert_eq!(vi.mode(), ViMode::Insert);
    assert_eq!(vi.parse_event(press('z')), ReedlineEvent::CtrlC);
    // Tab is bound in the Normal table only.
    assert_eq!(vi.parse_event(key(KeyCode::Tab, KeyModifiers::NONE)), ReedlineEvent::NoOp);
    vi.parse_event(key(KeyCode::Esc, KeyModifiers::NONE));
    assert_eq!(
        vi.parse_event(key(KeyCode::Tab, KeyModifiers::NONE)),
        ReedlineEvent::ClearScreen
    );
    // The defaults are not there: control-c is unbound.
    assert_eq!(
        vi.parse_event(key(KeyCode::Char('c'), KeyModifiers::CONTROL)),
        ReedlineEvent::NoOp
    );
}

#[test]
fn edit_mode_follows_the_mode() {
    let mut vi = normal();
    assert_eq!(vi.edit_mode(), PromptEditMode::Vi(PromptViMode::Normal));
    type_keys(&mut vi, "i");
    assert_eq!(vi.edit_mode(), PromptEditMode::Vi(PromptViMode::Insert));
}

#[test]
fn first_key_of_a_longer_command_is_cached() {
    let mut vi = normal();
    assert_eq!(vi.parse_event(press('d')), ReedlineEvent::NoOp);
    assert_eq!(vi.pending_keys(), &['d']);
    assert!(!vi.sequence_completed());
}

#[test]
fn first_key_that_begins_nothing_leaves_the_cache_empty() {
    let mut vi = normal();
    assert_eq!(vi.parse_event(press('q')), ReedlineEvent::NoOp);
    assert!(vi.pending_keys().is_empty());
    assert!(vi.sequence_completed());
}

#[test]
fn upper_case_without_shift_is_read_in_lower_case() {
    let mut vi = normal();
    assert_eq!(vi.parse_event(press('D')), ReedlineEvent::NoOp);
    assert_eq!(vi.pending_keys(), &['d']);
}

#[test]
fn shift_restores_the_upper_case() {
    let mut vi = normal();
    let out = vi.parse_event(key(KeyCode::Char('w'), KeyModifiers::SHIFT));
    assert_eq!(
        out,
        ReedlineEvent::Multiple(vec![edit(EditCommand::MoveBigWordRightStart { select: false })])
    );
}

#[test]
fn escape_in_normal_mode_hands_out_escape_and_repaint() {
    let mut vi = normal();
    type_keys(&mut vi, "2d");
    assert_eq!(vi.pending_keys(), &['2', 'd']);
    let out = vi.parse_event(key(KeyCode::Esc, KeyModifiers::NONE));
    assert_eq!(
        out,
        ReedlineEvent::Multiple(vec![ReedlineEvent::Esc, ReedlineEvent::Repaint])
    );
    assert_eq!(vi.mode(), ViMode::Normal);
    assert!(vi.pending_keys().is_empty());
    assert!(vi.sequence_completed());
}

#[test]
fn escape_with_a_modifier_is_looked_up() {
    let mut vi = Vi::default();
    let out = vi.parse_event(key(KeyCode::Esc, KeyModifiers::SHIFT));
    assert_eq!(out, ReedlineEvent::NoOp);
    assert_eq!(vi.mode(), ViMode::Insert);
}

#[test]
fn enter_submits_and_enters_insert_mode() {
    let mut vi = normal();
    assert_eq!(
        vi.parse_event(key(KeyCode::Enter, KeyModifiers::NONE)),
        ReedlineEvent::Enter
    );
    assert_eq!(vi.mode(), ViMode::Insert);
    assert_eq!(
        vi.parse_event(key(KeyCode::Enter, KeyModifiers::NONE)),
        ReedlineEvent::Enter
    );
    assert_eq!(vi.mode(), ViMode::Insert);
}

#[test]
fn find_then_repeat() {
    let mut vi = normal();
    assert_eq!(vi.parse_event(press(';')), ReedlineEvent::NoOp);
    assert_eq!(vi.last_char_search(), None);

    let found = ReedlineEvent::Multiple(vec![edit(EditCommand::MoveRightUntil {
        c: 'x',
        select: false,
    })]);
    assert_eq!(vi.parse_event(press('f')), ReedlineEvent::NoOp);
    assert_eq!(vi.parse_event(press('x')), found);
    let search = ViCharSearch { direction: Direction::Forward, target: 'x', inclusive: true };
    assert_eq!(vi.last_char_search(), Some(search));
    assert!(vi.pending_keys().is_empty());

    assert_eq!(vi.parse_event(press(';')), found);
    assert_eq!(vi.last_char_search(), Some(search));
    assert_eq!(
        vi.parse_event(press(',')),
        ReedlineEvent::Multiple(vec![edit(EditCommand::MoveLeftUntil { c: 'x', select: false })])
    );
    assert_eq!(vi.last_char_search(), Some(search));
}

#[test]
fn till_backwards_is_remembered() {
    let mut vi = normal();
    let out = type_keys(&mut vi, "Ta");
    assert_eq!(out[0], ReedlineEvent::NoOp);
    // `T` came without shift, so it is read as `t`.
    assert_eq!(
        out[1],
        ReedlineEvent::Multiple(vec![edit(EditCommand::MoveRightBefore { c: 'a', select: false })])
    );
    vi.parse_event(key(KeyCode::Char('t'), KeyModifiers::SHIFT));
    let out = vi.parse_event(press('b'));
    assert_eq!(
        out,
        ReedlineEvent::Multiple(vec![edit(EditCommand::MoveLeftBefore { c: 'b', select: false })])
    );
    assert_eq!(
        vi.last_char_search(),
        Some(ViCharSearch { direction: Direction::Backward, target: 'b', inclusive: false })
    );
}

#[test]
fn pending_sequence_is_not_preempted_by_a_binding() {
    let mut bindings = default_vi_normal_keybindings();
    bindings.add_binding(KeyModifiers::NONE, KeyCode::Char('w'), ReedlineEvent::ClearScreen);
    let mut vi = Vi::with_mode(default_vi_insert_keybindings(), bindings, ViMode::Normal);
    assert_eq!(vi.parse_event(press('w')), ReedlineEvent::ClearScreen);
    assert!(vi.pending_keys().is_empty());
    let out = type_keys(&mut vi, "dw");
    assert_eq!(
        out[1],
        ReedlineEvent::Multiple(vec![
            edit(EditCommand::MoveWordRightStart { select: true }),
            edit(EditCommand::CutSelection),
        ])
    );
}

#[test]
fn counted_delete() {
    let mut vi = normal();
    let out = type_keys(&mut vi, "2d3w");
    assert_eq!(&out[..3], &[ReedlineEvent::NoOp, ReedlineEvent::NoOp, ReedlineEvent::NoOp]);
    let mut expected = Vec::new();
    for _ in 0..6 {
        expected.push(edit(EditCommand::MoveWordRightStart { select: true }));
    }
    expected.push(edit(EditCommand::CutSelection));
    assert_eq!(out[3], ReedlineEvent::Multiple(expected));
    assert!(vi.pending_keys().is_empty());
    assert_eq!(vi.mode(), ViMode::Normal);
}

#[test]
fn counted_line_delete() {
    let mut vi = normal();
    let out = type_keys(&mut vi, "3dd");
    assert_eq!(
        out[2],
        ReedlineEvent::Multiple(vec![
            edit(EditCommand::MoveToLineStart { select: false }),
            edit(EditCommand::MoveLineDown { select: true }),
            edit(EditCommand::MoveLineDown { select: true }),
            edit(EditCommand::MoveLineDown { select: true }),
            edit(EditCommand::CutSelection),
        ])
    );
}

#[test]
fn change_enters_insert_mode() {
    let mut vi = normal();
    let out = type_keys(&mut vi, "c$");
    assert_eq!(
        out[1],
        ReedlineEvent::Multiple(vec![
            edit(EditCommand::MoveToLineEnd { select: true }),
            edit(EditCommand::CutSelection),
        ])
    );
    assert_eq!(vi.mode(), ViMode::Insert);
}

#[test]
fn yank_copies_and_stays_in_normal_mode() {
    let mut vi = normal();
    let out = type_keys(&mut vi, "yy");
    assert_eq!(
        out[1],
        ReedlineEvent::Multiple(vec![
            edit(EditCommand::MoveToLineStart { select: false }),
            edit(EditCommand::MoveLineDown { select: true }),
            edit(EditCommand::CopySelection),
        ])
    );
    assert_eq!(vi.mode(), ViMode::Normal);
}

#[test]
fn operator_with_repeat_and_no_memory_is_a_no_op() {
    let mut vi = normal();
    let out = type_keys(&mut vi, "d;");
    assert_eq!(out[1], ReedlineEvent::NoOp);
    assert!(vi.pending_keys().is_empty());
}

#[test]
fn operator_with_find_selects_and_remembers() {
    let mut vi = normal();
    let out = type_keys(&mut vi, "dfz");
    assert_eq!(
        out[2],
        ReedlineEvent::Multiple(vec![
            edit(EditCommand::MoveRightUntil { c: 'z', select: true }),
            edit(EditCommand::CutSelection),
        ])
    );
    assert_eq!(
        vi.last_char_search(),
        Some(ViCharSearch { direction: Direction::Forward, target: 'z', inclusive: true })
    );
}

#[test]
fn invalid_sequences_end_idle() {
    let mut vi = normal();
    let out = type_keys(&mut vi, "dq");
    assert_eq!(out, vec![ReedlineEvent::NoOp, ReedlineEvent::NoOp]);
    assert!(vi.pending_keys().is_empty());
    assert!(vi.sequence_completed());
    for c in "qzvn!q".chars() {
        assert_eq!(vi.parse_event(press(c)), ReedlineEvent::NoOp);
        assert!(vi.pending_keys().is_empty());
        assert!(vi.sequence_completed());
    }
    // The interpreter takes commands again.
    let out = type_keys(&mut vi, "x");
    assert_eq!(out[0], ReedlineEvent::Multiple(vec![edit(EditCommand::CutChar)]));
}

#[test]
fn different_operator_after_operator_is_invalid() {
    let mut vi = normal();
    let out = type_keys(&mut vi, "dc");
    assert_eq!(out[1], ReedlineEvent::NoOp);
    assert!(vi.pending_keys().is_empty());
    assert_eq!(vi.mode(), ViMode::Normal);
}

#[test]
fn mode_entry_commands() {
    let cases: Vec<(char, u8, Vec<ReedlineEvent>)> = vec![
        ('i', KeyModifiers::NONE, vec![ReedlineEvent::Repaint]),
        ('a', KeyModifiers::NONE, vec![edit(EditCommand::MoveRight { select: false })]),
        (
            'i',
            KeyModifiers::SHIFT,
            vec![edit(EditCommand::MoveToLineNonBlankStart { select: false })],
        ),
        ('a', KeyModifiers::SHIFT, vec![edit(EditCommand::MoveToLineEnd { select: false })]),
        (
            'o',
            KeyModifiers::NONE,
            vec![
                edit(EditCommand::MoveToLineEnd { select: false }),
                edit(EditCommand::InsertNewline),
            ],
        ),
        (
            'o',
            KeyModifiers::SHIFT,
            vec![
                edit(EditCommand::MoveToLineStart { select: false }),
                edit(EditCommand::InsertNewline),
                edit(EditCommand::MoveLineUp { select: false }),
            ],
        ),
        ('s', KeyModifiers::NONE, vec![edit(EditCommand::CutChar)]),
        ('s', KeyModifiers::SHIFT, vec![edit(EditCommand::CutCurrentLine)]),
        ('c', KeyModifiers::SHIFT, vec![edit(EditCommand::CutToLineEnd)]),
    ];
    for (c, modifiers, events) in cases {
        let mut vi = normal();
        let out = vi.parse_event(key(KeyCode::Char(c), modifiers));
        assert_eq!(out, ReedlineEvent::Multiple(events));
        assert_eq!(vi.mode(), ViMode::Insert);
        assert!(vi.pending_keys().is_empty());
    }
}

#[test]
fn plain_commands_stay_in_normal_mode() {
    let cases: Vec<(&str, Vec<ReedlineEvent>)> = vec![
        ("x", vec![edit(EditCommand::CutChar)]),
        ("p", vec![edit(EditCommand::PasteCutBufferAfter)]),
        ("u", vec![edit(EditCommand::Undo)]),
        ("~", vec![edit(EditCommand::SwitchcaseChar)]),
        ("rk", vec![edit(EditCommand::ReplaceChar('k'))]),
        ("2x", vec![edit(EditCommand::CutChar), edit(EditCommand::CutChar)]),
        (
            "h",
            vec![ReedlineEvent::UntilFound(vec![ReedlineEvent::MenuLeft, ReedlineEvent::Left])],
        ),
        (
            "l",
            vec![ReedlineEvent::UntilFound(vec![
                ReedlineEvent::HistoryHintComplete,
                ReedlineEvent::MenuRight,
                ReedlineEvent::Right,
            ])],
        ),
        (
            "2j",
            vec![
                ReedlineEvent::UntilFound(vec![ReedlineEvent::MenuDown, ReedlineEvent::Down]),
                ReedlineEvent::UntilFound(vec![ReedlineEvent::MenuDown, ReedlineEvent::Down]),
            ],
        ),
        (
            "k",
            vec![ReedlineEvent::UntilFound(vec![ReedlineEvent::MenuUp, ReedlineEvent::Up])],
        ),
        ("0", vec![edit(EditCommand::MoveToLineStart { select: false })]),
        ("^", vec![edit(EditCommand::MoveToLineNonBlankStart { select: false })]),
        ("e", vec![edit(EditCommand::MoveWordRightEnd { select: false })]),
        ("b", vec![edit(EditCommand::MoveWordLeft { select: false })]),
    ];
    for (keys, events) in cases {
        let mut vi = normal();
        let out = type_keys(&mut vi, keys);
        assert_eq!(out[out.len() - 1], ReedlineEvent::Multiple(events), "{}", keys);
        assert_eq!(vi.mode(), ViMode::Normal);
        assert!(vi.pending_keys().is_empty());
        assert!(vi.sequence_completed());
    }
}

#[test]
fn insert_mode_inserts_characters() {
    let mut vi = Vi::default();
    assert_eq!(vi.parse_event(press('a')), edit(EditCommand::InsertChar('a')));
    assert_eq!(vi.parse_event(press('A')), edit(EditCommand::InsertChar('A')));
    assert_eq!(
        vi.parse_event(key(KeyCode::Char('a'), KeyModifiers::SHIFT)),
        edit(EditCommand::InsertChar('A'))
    );
    assert_eq!(
        vi.parse_event(key(KeyCode::Char('A'), KeyModifiers::SHIFT)),
        edit(EditCommand::InsertChar('A'))
    );
    assert_eq!(
        vi.parse_event(key(KeyCode::Char('Q'), KeyModifiers::CONTROL | KeyModifiers::ALT)),
        edit(EditCommand::InsertChar('q'))
    );
    assert_eq!(
        vi.parse_event(key(
            KeyCode::Char('q'),
            KeyModifiers::CONTROL | KeyModifiers::ALT | KeyModifiers::SHIFT
        )),
        edit(EditCommand::InsertChar('q'))
    );
    assert_eq!(
        vi.parse_event(key(KeyCode::Char('q'), KeyModifiers::ALT)),
        ReedlineEvent::NoOp
    );
    assert_eq!(
        vi.parse_event(key(KeyCode::Char('q'), KeyModifiers::CONTROL)),
        ReedlineEvent::NoOp
    );
    assert_eq!(vi.mode(), ViMode::Insert);
}

#[test]
fn insert_mode_binding_wins_over_text() {
    let mut vi = Vi::default();
    // With a modifier the lookup is in lower case.
    assert_eq!(
        vi.parse_event(key(KeyCode::Char('C'), KeyModifiers::CONTROL)),
        ReedlineEvent::CtrlC
    );
    assert_eq!(
        vi.parse_event(key(KeyCode::Backspace, KeyModifiers::NONE)),
        edit(EditCommand::Backspace)
    );
}

#[test]
fn other_keys_go_by_the_table_of_the_mode() {
    let mut vi = normal();
    assert_eq!(
        vi.parse_event(key(KeyCode::Backspace, KeyModifiers::NONE)),
        edit(EditCommand::MoveLeft { select: false })
    );
    assert_eq!(
        vi.parse_event(key(KeyCode::F(5), KeyModifiers::NONE)),
        ReedlineEvent::NoOp
    );
    assert_eq!(
        vi.parse_event(key(KeyCode::Up, KeyModifiers::NONE)),
        ReedlineEvent::UntilFound(vec![ReedlineEvent::MenuUp, ReedlineEvent::Up])
    );
}

#[test]
fn events_that_are_no_keys() {
    let mut vi = Vi::default();
    let raw = |event| ReedlineRawEvent::convert_from(event).unwrap();
    assert_eq!(vi.parse_event(raw(Event::Mouse)), ReedlineEvent::Mouse);
    assert_eq!(vi.parse_event(raw(Event::Resize(80, 24))), ReedlineEvent::Resize(80, 24));
    assert_eq!(vi.parse_event(raw(Event::FocusGained)), ReedlineEvent::NoOp);
    assert_eq!(vi.parse_event(raw(Event::FocusLost)), ReedlineEvent::NoOp);
    assert_eq!(
        vi.parse_event(raw(Event::Paste("a\r\nb\rc\nd".to_string()))),
        edit(EditCommand::InsertString("a\nb\nc\nd".to_string()))
    );
    assert_eq!(vi.mode(), ViMode::Insert);
}

#[test]
fn enter_keeps_what_was_typed_until_escape() {
    let mut vi = normal();
    type_keys(&mut vi, "d");
    vi.parse_event(key(KeyCode::Enter, KeyModifiers::NONE));
    assert_eq!(vi.mode(), ViMode::Insert);
    assert_eq!(vi.pending_keys(), &['d']);
    vi.parse_event(key(KeyCode::Esc, KeyModifiers::NONE));
    assert!(vi.pending_keys().is_empty());
    assert!(vi.sequence_completed());
}

#[test]
fn bindings_can_be_added_at_any_time() {
    let mut vi = normal();
    vi.add_binding(
        ViMode::Normal,
        KeyModifiers::SHIFT,
        KeyCode::Char('$'),
        ReedlineEvent::CtrlD,
    );
    assert_eq!(
        vi.parse_event(key(KeyCode::Char('$'), KeyModifiers::SHIFT)),
        ReedlineEvent::CtrlD
    );
    assert!(vi.pending_keys().is_empty());
    // The Insert table is another table.
    vi.parse_event(press('i'));
    assert_eq!(
        vi.parse_event(key(KeyCode::Char('$'), KeyModifiers::SHIFT)),
        edit(EditCommand::InsertChar('$'))
    );
    vi.add_binding(ViMode::Insert, KeyModifiers::NONE, KeyCode::Tab, ReedlineEvent::Repaint);
    assert_eq!(vi.parse_event(key(KeyCode::Tab, KeyModifiers::NONE)), ReedlineEvent::Repaint);
    // Binding again overrides.
    vi.add_binding(ViMode::Insert, KeyModifiers::NONE, KeyCode::Tab, ReedlineEvent::ClearScreen);
    assert_eq!(vi.parse_event(key(KeyCode::Tab, KeyModifiers::NONE)), ReedlineEvent::ClearScreen);
    assert_eq!(vi.mode(), ViMode::Insert);
}

#[test]
fn adding_a_binding_keeps_what_is_being_typed() {
    let mut vi = normal();
    type_keys(&mut vi, "2d");
    vi.add_binding(ViMode::Normal, KeyModifiers::NONE, KeyCode::Char('w'), ReedlineEvent::CtrlC);
    assert_eq!(vi.pending_keys(), &['2', 'd']);
    let out = vi.parse_event(press('w'));
    assert_eq!(
        out,
        ReedlineEvent::Multiple(vec![
            edit(EditCommand::MoveWordRightStart { select: true }),
            edit(EditCommand::MoveWordRightStart { select: true }),
            edit(EditCommand::CutSelection),
        ])
    );
    assert_eq!(vi.parse_event(press('w')), ReedlineEvent::CtrlC);
}

#[test]
fn upper_case_binding_is_never_reached_in_normal_mode() {
    let mut vi = normal();
    vi.add_binding(ViMode::Normal, KeyModifiers::SHIFT, KeyCode::Char('B'), ReedlineEvent::CtrlC);
    let out = vi.parse_event(key(KeyCode::Char('B'), KeyModifiers::SHIFT));
    assert_eq!(
        out,
        ReedlineEvent::Multiple(vec![edit(EditCommand::MoveBigWordLeft { select: false })])
    );
}
