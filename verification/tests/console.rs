use dbgcmd::Console;

#[test]
fn test_default_state() {
    let console = Console::new();

    assert!(!console.shown());
    assert_eq!(console.entry(), "");
    assert!(console.history().is_empty());
}

#[test]
fn show_hide_toggle() {
    let mut console = Console::new();

    console.show();
    assert!(console.shown());

    console.conceal();
    assert!(!console.shown());

    console.toggle_shown();
    assert!(console.shown());

    console.toggle_shown();
    assert!(!console.shown());
}

#[test]
fn history_grows() {
    let mut console = Console::new();

    console.set_entry("1".into());
    console.confirm(|s: &str| s.parse::<String>()).unwrap();
    assert_eq!(console.history(), vec!["1".to_string()]);

    console.set_entry("2".into());
    console.confirm(|s: &str| s.parse::<String>()).unwrap();
    assert_eq!(console.history(), vec!["2".to_string(), "1".to_string()]);

    console.set_entry("3".into());
    console.confirm(|s: &str| s.parse::<String>()).unwrap();
    assert_eq!(
        console.history(),
        vec!["3".to_string(), "2".to_string(), "1".to_string()]
    );

    console.set_entry("3".into());
    console.confirm(|s: &str| s.parse::<String>()).unwrap();
    assert_eq!(
        console.history(),
        vec![
            "3".to_string(),
            "3".to_string(),
            "2".to_string(),
            "1".to_string()
        ]
    );
    assert_eq!(
        console.history_deduped(),
        vec!["3".to_string(), "2".to_string(), "1".to_string()]
    );
}

#[test]
fn cursor_movement() {
    let mut console = Console::new();

    {
        console.set_entry("1".into());
        console.confirm(|s: &str| s.parse::<String>()).unwrap();

        console.set_entry("2".into());
        console.confirm(|s: &str| s.parse::<String>()).unwrap();

        console.set_entry("3".into());
        console.confirm(|s: &str| s.parse::<String>()).unwrap();
    }

    assert_eq!(console.entry(), "");

    console.up();
    assert_eq!(console.entry(), "3");

    console.up();
    assert_eq!(console.entry(), "2");

    console.down();
    assert_eq!(console.entry(), "3");

    console.down();
    console.down();
    console.down();
    console.down();
    assert_eq!(console.entry(), "");

    console.up();
    console.up();
    console.up();
    console.up();
    assert_eq!(console.entry(), "1");
}

#[test]
fn deduped_cursor_movement() {
    let mut console = Console::new();

    {
        console.set_entry("1".into());
        console.confirm(|s: &str| s.parse::<String>()).unwrap();

        console.set_entry("2".into());
        console.confirm(|s: &str| s.parse::<String>()).unwrap();
        console.set_entry("2".into());
        console.confirm(|s: &str| s.parse::<String>()).unwrap();
        console.set_entry("2".into());
        console.confirm(|s: &str| s.parse::<String>()).unwrap();

        console.set_entry("3".into());
        console.confirm(|s: &str| s.parse::<String>()).unwrap();
    }

    assert_eq!(console.entry(), "");

    console.up_deduped();
    assert_eq!(console.entry(), "3");

    console.up_deduped();
    assert_eq!(console.entry(), "2");

    console.up_deduped();
    assert_eq!(console.entry(), "1");

    console.down_deduped();
    assert_eq!(console.entry(), "2");

    console.down_deduped();
    assert_eq!(console.entry(), "3");
}

#[test]
fn character_entry() {
    let mut console = Console::new();

    assert_eq!(console.entry(), "");
    console.backspace();
    assert_eq!(console.entry(), "");

    console.receive_char('a');
    console.receive_char('b');
    console.receive_char('c');
    assert_eq!(console.entry(), "abc");

    console.receive_char_if('d', char::is_alphabetic);
    assert_eq!(console.entry(), "abcd");

    console.receive_char_if('0', char::is_alphabetic);
    assert_eq!(console.entry(), "abcd");

    console.backspace();
    console.backspace();
    assert_eq!(console.entry(), "ab");
}

#[test]
fn confirm() {
    let mut console = Console::new();
    console.set_entry("100".into());

    assert_eq!(console.confirm(|s: &str| s.parse::<usize>()), Ok(100));
    assert_eq!(console.entry(), "");

    console.set_entry("1a0".into());
    assert_eq!(
        console.confirm(|s: &str| s.parse::<usize>()),
        "1a0".parse::<usize>()
    );
    assert_eq!(console.entry(), "");
}

#[test]
fn can_edit_history_items() {
    let mut console = Console::new();
    console.set_entry("100".into());
    assert_eq!(console.confirm(|s: &str| s.parse::<usize>()).unwrap(), 100);

    console.up();
    console.receive_char('0');
    assert_eq!(console.confirm(|s: &str| s.parse::<usize>()).unwrap(), 1000);

    console.up();
    console.backspace();
    console.backspace();
    assert_eq!(console.confirm(|s: &str| s.parse::<usize>()).unwrap(), 10);
}
