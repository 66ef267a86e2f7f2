use output_vt100::console::Console;
use output_vt100::mode::DISABLE_NEWLINE_AUTO_RETURN;
use output_vt100::mode::ENABLE_VIRTUAL_TERMINAL_PROCESSING;
use output_vt100::protocol::Event;
use output_vt100::protocol::Failure;

#[test]
fn new_console_refuses_nothing() {
    let console = Console::new(0x0003);
    assert_eq!(
        console,
        Console { attached: true, readable: true, writable: true, mode: 0x0003 }
    );
}

#[test]
fn cleared_terminal_flag_and_set_newline_flag() {
    let initial: u32 = 0x0003 | DISABLE_NEWLINE_AUTO_RETURN;
    assert_eq!(initial & ENABLE_VIRTUAL_TERMINAL_PROCESSING, 0);
    let mut console = Console::new(initial);
    assert_eq!(console.try_init(), Ok(()));
    assert_eq!(console.mode, 0x0007);
    assert_eq!(
        console.mode & ENABLE_VIRTUAL_TERMINAL_PROCESSING,
        ENABLE_VIRTUAL_TERMINAL_PROCESSING
    );
    assert_eq!(console.mode & DISABLE_NEWLINE_AUTO_RETURN, 0);
    let others = !(ENABLE_VIRTUAL_TERMINAL_PROCESSING | DISABLE_NEWLINE_AUTO_RETURN);
    assert_eq!(console.mode & others, initial & others);
    assert!(console.attached && console.readable && console.writable);
}

#[test]
fn second_activation_changes_nothing() {
    for mode in [0u32, 0x0008, 0x000b, 0x0004, 0xffff_ffff] {
        let mut console = Console::new(mode);
        assert_eq!(console.try_init(), Ok(()));
        let after_first = console;
        assert_eq!(console.try_init(), Ok(()));
        assert_eq!(console, after_first);
    }
}

#[test]
fn second_failure_is_the_first_failure() {
    let mut console = Console { attached: true, readable: false, writable: true, mode: 9 };
    assert_eq!(console.activate(), Err(Failure::QueryFailed));
    let after_first = console;
    assert_eq!(console.activate(), Err(Failure::QueryFailed));
    assert_eq!(console, after_first);
}

#[test]
fn detached_console_is_unavailable() {
    let before = Console { attached: false, readable: true, writable: true, mode: 0x0008 };
    let mut console = before;
    assert_eq!(console.activate(), Err(Failure::Unavailable));
    assert_eq!(console, before);
    assert_eq!(console.try_init(), Err(()));
    assert_eq!(console, before);
}

#[test]
fn unreadable_console_fails_the_query() {
    let before = Console { attached: true, readable: false, writable: true, mode: 0x0008 };
    let mut console = before;
    assert_eq!(console.activate(), Err(Failure::QueryFailed));
    assert_eq!(console, before);
    assert_eq!(console.try_init(), Err(()));
    assert_eq!(console, before);
}

#[test]
fn unwritable_console_fails_the_update() {
    let before = Console { attached: true, readable: true, writable: false, mode: 0x0008 };
    let mut console = before;
    assert_eq!(console.activate(), Err(Failure::UpdateFailed));
    assert_eq!(console, before);
    assert_eq!(console.try_init(), Err(()));
    assert_eq!(console, before);
}

#[test]
fn earliest_refusal_wins() {
    let mut console = Console { attached: false, readable: false, writable: false, mode: 1 };
    assert_eq!(console.activate(), Err(Failure::Unavailable));
    let mut console = Console { attached: true, readable: false, writable: false, mode: 1 };
    assert_eq!(console.activate(), Err(Failure::QueryFailed));
}

#[test]
fn activate_reports_success_and_writes_the_mode() {
    let mut console = Console::new(0x8000_0009);
    assert_eq!(console.activate(), Ok(()));
    assert_eq!(
        console,
        Console { attached: true, readable: true, writable: true, mode: 0x8000_0005 }
    );
}

#[test]
fn strict_init_activates_a_willing_console() {
    let mut console = Console::new(0x0008);
    console.init();
    assert_eq!(console.mode, 0x0004);
    console.init();
    assert_eq!(console.mode, 0x0004);
}

#[test]
fn console_reports() {
    let mut console = Console::new(0x0003);
    assert_eq!(console.open(), Event::HandleOpened);
    assert_eq!(console.query(), Event::ModeRead(0x0003));
    assert_eq!(console.update(0x0007), Event::ModeWritten);
    assert_eq!(console.mode, 0x0007);
    assert_eq!(console.query(), Event::ModeRead(0x0007));

    let mut detached = Console { attached: false, readable: true, writable: true, mode: 3 };
    assert_eq!(detached.open(), Event::Refused);
    assert_eq!(detached.query(), Event::Refused);
    assert_eq!(detached.update(7), Event::Refused);
    assert_eq!(detached.mode, 3);

    let mut locked = Console { attached: true, readable: false, writable: false, mode: 3 };
    assert_eq!(locked.open(), Event::HandleOpened);
    assert_eq!(locked.query(), Event::Refused);
    assert_eq!(locked.update(7), Event::Refused);
    assert_eq!(locked.mode, 3);
}
