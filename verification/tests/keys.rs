use vi_mode::keys::{to_ascii_lowercase, to_ascii_uppercase, CONTROL_ALT, CONTROL_ALT_SHIFT};
use vi_mode::{
    normalize_newlines, EditCommand, Event, KeyCode, KeyEvent, KeyEventKind, KeyModifiers,
    ReedlineEvent, ReedlineRawEvent,
};

#[test]
fn modifier_bits() {
    assert_eq!(KeyModifiers::NONE, 0);
    assert_eq!(KeyModifiers::SHIFT, 1);
    assert_eq!(KeyModifiers::CONTROL, 2);
    assert_eq!(KeyModifiers::ALT, 4);
    assert_eq!(KeyModifiers::SUPER, 8);
    assert_eq!(KeyModifiers::HYPER, 16);
    assert_eq!(KeyModifiers::META, 32);
    assert_eq!(KeyModifiers::CONTROL | KeyModifiers::ALT, CONTROL_ALT);
    assert_eq!(KeyModifiers::CONTROL | KeyModifiers::ALT | KeyModifiers::SHIFT, CONTROL_ALT_SHIFT);
}

#[test]
fn lower_case() {
    assert_eq!(to_ascii_lowercase('A'), 'a');
    assert_eq!(to_ascii_lowercase('Z'), 'z');
    assert_eq!(to_ascii_lowercase('m'), 'm');
    assert_eq!(to_ascii_lowercase('@'), '@');
    assert_eq!(to_ascii_lowercase('['), '[');
    assert_eq!(to_ascii_lowercase('$'), '$');
    assert_eq!(to_ascii_lowercase('É'), 'É');
    for c in '\0'..='\u{ff}' {
        assert_eq!(to_ascii_lowercase(c), c.to_ascii_lowercase());
    }
}

#[test]
fn upper_case() {
    assert_eq!(to_ascii_uppercase('a'), 'A');
    assert_eq!(to_ascii_uppercase('z'), 'Z');
    assert_eq!(to_ascii_uppercase('M'), 'M');
    assert_eq!(to_ascii_uppercase('`'), '`');
    assert_eq!(to_ascii_uppercase('{'), '{');
    assert_eq!(to_ascii_uppercase('é'), 'é');
    for c in '\0'..='\u{ff}' {
        assert_eq!(to_ascii_uppercase(c), c.to_ascii_uppercase());
    }
}

#[test]
fn new_key_event_is_a_press() {
    let event = KeyEvent::new(KeyCode::Char('x'), KeyModifiers::ALT);
    assert_eq!(
        event,
        KeyEvent {
            code: KeyCode::Char('x'),
            modifiers: KeyModifiers::ALT,
            kind: KeyEventKind::Press
        }
    );
}

#[test]
fn releases_are_turned_away() {
    let release = KeyEvent {
        code: KeyCode::Char('x'),
        modifiers: KeyModifiers::NONE,
        kind: KeyEventKind::Release,
    };
    assert_eq!(ReedlineRawEvent::convert_from(Event::Key(release)), None);
    let repeat = KeyEvent { kind: KeyEventKind::Repeat, ..release };
    assert_eq!(
        ReedlineRawEvent::convert_from(Event::Key(repeat)).unwrap().into_event(),
        Event::Key(repeat)
    );
    let press = KeyEvent { kind: KeyEventKind::Press, ..release };
    assert_eq!(
        ReedlineRawEvent::convert_from(Event::Key(press)).unwrap().into_event(),
        Event::Key(press)
    );
    assert_eq!(
        ReedlineRawEvent::convert_from(Event::Paste("x".to_string())).unwrap().into_event(),
        Event::Paste("x".to_string())
    );
    assert_eq!(
        ReedlineRawEvent::convert_from(Event::Resize(1, 2)).unwrap().into_event(),
        Event::Resize(1, 2)
    );
    assert_eq!(ReedlineRawEvent::convert_from(Event::Mouse).unwrap().into_event(), Event::Mouse);
}

#[test]
fn clones_are_equal() {
    let event = Event::Paste("some text".to_string());
    assert_eq!(event.clone(), event);
    let command = EditCommand::InsertString("more".to_string());
    assert_eq!(command.clone(), command);
    let nested = ReedlineEvent::UntilFound(vec![
        ReedlineEvent::Multiple(vec![ReedlineEvent::Edit(vec![command]), ReedlineEvent::Esc]),
        ReedlineEvent::Resize(9, 7),
    ]);
    assert_eq!(nested.clone(), nested);
}

#[test]
fn line_breaks_are_made_plain() {
    assert_eq!(normalize_newlines(""), "");
    assert_eq!(normalize_newlines("plain"), "plain");
    assert_eq!(normalize_newlines("a\nb"), "a\nb");
    assert_eq!(normalize_newlines("a\r\nb"), "a\nb");
    assert_eq!(normalize_newlines("a\rb"), "a\nb");
    assert_eq!(normalize_newlines("\r"), "\n");
    assert_eq!(normalize_newlines("\r\n"), "\n");
    assert_eq!(normalize_newlines("\n\r"), "\n\n");
    assert_eq!(normalize_newlines("\r\r\n"), "\n\n");
    assert_eq!(normalize_newlines("\r\n\r\n"), "\n\n");
    assert_eq!(normalize_newlines("\r\n\n"), "\n\n");
    assert_eq!(normalize_newlines("é\r\nü\r"), "é\nü\n");
}

#[test]
fn line_breaks_as_two_replacements() {
    let texts = [
        "", "a", "\r", "\n", "\r\n", "\n\r", "\r\r", "\r\r\n", "\r\n\r", "x\r\ny\rz\n",
        "\r\n\n\r\r\n",
    ];
    for text in texts {
        assert_eq!(normalize_newlines(text), text.replace("\r\n", "\n").replace('\r', "\n"));
    }
}
