use dbgcmd::Console;

#[test]
fn scenario_confirm_three() {
    let mut console = Console::new();
    console.set_entry("first".into());
    console.confirm(|s: &str| s.parse::<String>()).unwrap();
    console.set_entry("second".into());
    console.confirm(|s: &str| s.parse::<String>()).unwrap();
    console.set_entry("third".into());
    console.confirm(|s: &str| s.parse::<String>()).unwrap();

    assert_eq!(
        console.history(),
        vec!["third".to_string(), "second".to_string(), "first".to_string()]
    );

    assert!(console.up());
    assert_eq!(console.entry(), "third");
    assert!(console.up());
    assert_eq!(console.entry(), "second");
    assert!(console.up());
    assert_eq!(console.entry(), "first");

    assert!(!console.up());
    assert_eq!(console.entry(), "first");

    assert!(console.down());
    assert!(console.down());
    assert!(console.down());
    assert_eq!(console.entry(), "");
    assert!(!console.down());
}

#[test]
fn scenario_fork_while_browsing() {
    let mut console = Console::new();
    console.set_entry("100".into());
    console.confirm(|s: &str| s.parse::<usize>()).unwrap();
    assert_eq!(console.history(), vec!["100".to_string()]);

    assert!(console.up());
    assert_eq!(console.entry(), "100");

    console.receive_char('0');
    assert_eq!(console.entry(), "1000");

    assert_eq!(console.confirm(|s: &str| s.parse::<usize>()), Ok(1000));
    assert_eq!(
        console.history(),
        vec!["1000".to_string(), "100".to_string()]
    );
}

#[test]
fn received_text_concatenates() {
    let mut console = Console::new();
    console.receive_text("ab");
    console.receive_text("");
    console.receive_text("cde");
    console.receive_char('f');
    assert_eq!(console.entry(), "abcdef");

    console.backspace();
    assert_eq!(console.entry(), "abcde");
}

#[test]
fn receive_text_if_filters() {
    let mut console = Console::new();
    let accepted = console.receive_text_if("ok", |t: &str| t.len() <= 2);
    assert!(accepted);
    let rejected = console.receive_text_if("long", |t: &str| t.len() <= 2);
    assert!(!rejected);
    assert_eq!(console.entry(), "ok");
}

#[test]
fn confirm_grows_history_even_on_failure() {
    let mut console = Console::new();
    console.set_entry("not a number".into());
    assert!(console.confirm(|s: &str| s.parse::<usize>()).is_err());
    assert_eq!(console.history_len(), 1);

    console.set_entry("7".into());
    assert_eq!(console.confirm(|s: &str| s.parse::<usize>()), Ok(7));
    assert_eq!(console.history_len(), 2);
}

#[test]
fn confirm_commits_live_buffer_not_displayed_text() {
    let mut console = Console::new();
    console.set_entry("one".into());
    console.confirm(|s: &str| s.parse::<String>()).unwrap();

    assert!(console.up());
    assert_eq!(console.entry(), "one");

    // The displayed history entry is parsed, but the (empty) live buffer is
    // what gets committed.
    assert_eq!(
        console.confirm(|s: &str| s.parse::<String>()),
        Ok("one".to_string())
    );
    assert_eq!(console.history(), vec!["".to_string(), "one".to_string()]);
}

#[test]
fn navigation_clamps_at_both_ends() {
    let mut console = Console::new();
    console.set_entry("old".into());
    console.confirm(|s: &str| s.parse::<String>()).unwrap();
    console.set_entry("new".into());
    console.confirm(|s: &str| s.parse::<String>()).unwrap();

    for _ in 0..5 {
        console.up();
    }
    assert_eq!(console.entry(), "old");
    assert!(!console.up());
    assert_eq!(console.entry(), "old");

    for _ in 0..5 {
        console.down();
    }
    assert_eq!(console.entry(), "");
    assert!(!console.down());
    assert_eq!(console.entry(), "");
}

#[test]
fn up_on_empty_history_does_not_move() {
    let mut console = Console::new();
    console.receive_char('x');
    assert!(!console.up());
    assert_eq!(console.entry(), "x");
    assert!(!console.up_deduped());
    assert_eq!(console.entry(), "x");
    assert!(!console.down());
    assert!(!console.down_deduped());
}

#[test]
fn deduped_round_trip_returns_to_start() {
    let mut console = Console::new();
    for text in ["a", "b", "b", "c"] {
        console.set_entry(text.to_string());
        console.confirm(|s: &str| s.parse::<String>()).unwrap();
    }

    for _ in 0..3 {
        console.up_deduped();
    }
    assert_eq!(console.entry(), "a");
    for _ in 0..3 {
        console.down_deduped();
    }
    assert_eq!(console.entry(), "");

    // Overshooting clamps at both ends and still returns to the start.
    for _ in 0..7 {
        console.up_deduped();
    }
    for _ in 0..7 {
        console.down_deduped();
    }
    assert_eq!(console.entry(), "");
}

#[test]
fn history_deduped_has_no_adjacent_repeats() {
    let mut console = Console::new();
    for text in ["a", "b", "b", "b", "a", "a", "c"] {
        console.set_entry(text.to_string());
        console.confirm(|s: &str| s.parse::<String>()).unwrap();
    }

    let collapsed = console.history_deduped();
    assert_eq!(
        collapsed,
        vec![
            "c".to_string(),
            "a".to_string(),
            "b".to_string(),
            "a".to_string()
        ]
    );
    for pair in collapsed.windows(2) {
        assert_ne!(pair[0], pair[1]);
    }
    assert_eq!(console.history_len(), 7);
}

#[test]
fn clear_keeps_browsed_entry_visible() {
    let mut console = Console::new();
    console.set_entry("kept".into());
    console.confirm(|s: &str| s.parse::<String>()).unwrap();
    console.set_entry("under".into());

    assert!(console.up());
    assert_eq!(console.entry(), "kept");

    console.clear();
    assert_eq!(console.entry(), "kept");

    assert!(console.down());
    assert_eq!(console.entry(), "");
}

#[test]
fn clear_history_leaves_live_mode() {
    let mut console = Console::new();
    console.set_entry("gone".into());
    console.confirm(|s: &str| s.parse::<String>()).unwrap();
    assert!(console.up());

    console.clear_history();
    assert_eq!(console.history_len(), 0);
    assert_eq!(console.entry(), "");
    assert!(!console.up());
}

#[test]
fn set_entry_discards_browsed_text() {
    let mut console = Console::new();
    console.set_entry("stored".into());
    console.confirm(|s: &str| s.parse::<String>()).unwrap();
    assert!(console.up());

    console.set_entry("fresh".into());
    assert_eq!(console.entry(), "fresh");

    assert!(console.up());
    assert_eq!(console.entry(), "stored");
}

#[test]
fn backspace_forks_browsed_entry() {
    let mut console = Console::new();
    console.set_entry("abc".into());
    console.confirm(|s: &str| s.parse::<String>()).unwrap();

    assert!(console.up());
    console.backspace();
    assert_eq!(console.entry(), "ab");

    console.confirm(|s: &str| s.parse::<String>()).unwrap();
    assert_eq!(console.history(), vec!["ab".to_string(), "abc".to_string()]);
}

#[test]
fn enabled_console_reports_enabled() {
    let console = Console::new();
    assert!(console.enabled());
}

#[test]
fn default_matches_new() {
    let from_default = Console::default();
    assert_eq!(from_default.entry(), "");
    assert_eq!(from_default.history_len(), 0);
    assert!(!from_default.shown());
}
