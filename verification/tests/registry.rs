use always_on_top::{Command, CommandError, CommandRegistry, WindowState};

#[test]
fn bootstrap_registers_the_command() {
    let reg = CommandRegistry::bootstrap();
    let name = String::from("set_always_on_top");
    assert_eq!(reg.lookup(&name), Some(Command::SetAlwaysOnTop));
}

#[test]
fn bootstrap_knows_no_other_name() {
    let reg = CommandRegistry::bootstrap();
    assert_eq!(reg.lookup(&String::from("quit")), None);
    assert_eq!(reg.lookup(&String::from("")), None);
    assert_eq!(reg.lookup(&String::from("set_always_on_top ")), None);
}

#[test]
fn empty_registry_finds_nothing() {
    let reg = CommandRegistry::new();
    assert_eq!(reg.lookup(&String::from("set_always_on_top")), None);
}

#[test]
fn registered_name_is_found() {
    let mut reg = CommandRegistry::new();
    reg.register(String::from("pin_window"), Command::SetAlwaysOnTop);
    assert_eq!(
        reg.lookup(&String::from("pin_window")),
        Some(Command::SetAlwaysOnTop)
    );
    assert_eq!(reg.lookup(&String::from("unpin_window")), None);
}

#[test]
fn dispatch_runs_the_handler() {
    let reg = CommandRegistry::bootstrap();
    let mut w = WindowState::new();
    let r = reg.dispatch(&String::from("set_always_on_top"), &mut w, true);
    assert_eq!(r, Some(Ok(())));
    assert!(w.always_on_top);

    let r = reg.dispatch(&String::from("set_always_on_top"), &mut w, false);
    assert_eq!(r, Some(Ok(())));
    assert!(!w.always_on_top);
}

#[test]
fn dispatch_unknown_name_touches_nothing() {
    let reg = CommandRegistry::bootstrap();
    let mut w = WindowState::new();
    let r = reg.dispatch(&String::from("quit"), &mut w, true);
    assert_eq!(r, None);
    assert_eq!(w, WindowState::new());
}

#[test]
fn dispatch_on_destroyed_window_is_recoverable() {
    let reg = CommandRegistry::bootstrap();
    let mut w = WindowState {
        live: false,
        always_on_top: false,
    };
    let r = reg.dispatch(&String::from("set_always_on_top"), &mut w, true);
    assert_eq!(r, Some(Err(CommandError::InvalidWindow)));
    assert!(!w.always_on_top);
}
