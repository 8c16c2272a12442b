use dbgcmd::disabled::Console;

#[test]
fn console_is_zst() {
    assert_eq!(std::mem::size_of::<Console>(), 0);
}

#[test]
fn methods_do_nothing() {
    let mut console = Console::new();
    console.set_entry("command".into());
    assert_eq!(console.entry(), "");

    console.receive_char('a');
    console.backspace();
    console.clear();
    console.clear_history();
    assert!(!console.up());
    assert!(!console.down());
    assert!(!console.up_deduped());
    assert!(!console.down_deduped());
    console.show();
    console.conceal();
    console.toggle_shown();

    assert_eq!(console.receive_char_if('a', |_| true), false);

    assert_eq!(console.confirm(|s: &str| s.parse::<String>()), "".parse());

    assert_eq!(console.history_len(), 0);
    assert!(console.history().is_empty());
    assert!(console.history_deduped().is_empty());
}

#[test]
fn disabled_reports_disabled() {
    let mut console = Console::new();
    assert!(!console.enabled());
    assert!(!console.shown());
    console.show();
    assert!(!console.shown());
    console.receive_char('x');
    assert_eq!(console.confirm(|s: &str| s.parse::<usize>()), "".parse());
}
