use tutodecode::buffer::{pump_step, PumpControl, ReadEvent, TerminalBuffer, HIGH_WATER, LOW_WATER};
use tutodecode::session::{default_shell, SessionError, SessionRegistry};

#[test]
fn appended_bytes_show_up_in_snapshot() {
    let mut b = TerminalBuffer::new();
    assert_eq!(pump_step(&mut b, &ReadEvent::Bytes(b"$ ".to_vec())), PumpControl::Continue);
    assert_eq!(pump_step(&mut b, &ReadEvent::Bytes(b"echo hi\r\nhi\r\n".to_vec())), PumpControl::Continue);
    assert!(b.snapshot().ends_with("echo hi\r\nhi\r\n"));
    assert_eq!(b.snapshot(), b.snapshot());
}

#[test]
fn end_of_stream_and_errors_stop_the_pump() {
    let mut b = TerminalBuffer::new();
    b.append_text("abc");
    assert_eq!(pump_step(&mut b, &ReadEvent::Bytes(Vec::new())), PumpControl::Stop);
    assert_eq!(pump_step(&mut b, &ReadEvent::Failed), PumpControl::Stop);
    assert_eq!(b.snapshot(), "abc");
}

#[test]
fn invalid_bytes_are_replaced_not_fatal() {
    let mut b = TerminalBuffer::new();
    assert_eq!(pump_step(&mut b, &ReadEvent::Bytes(vec![b'a', 0xc3, b'b'])), PumpControl::Continue);
    assert_eq!(b.snapshot(), "a\u{fffd}b");
}

#[test]
fn buffer_stays_bounded_and_keeps_newest() {
    let mut b = TerminalBuffer::new();
    let chunk: Vec<u8> = (0..1024).map(|i| b'a' + (i % 26) as u8).collect();
    let mut total = 0;
    let mut last = 0u8;
    while total <= HIGH_WATER + 5000 {
        last = last.wrapping_add(1);
        let mut c = chunk.clone();
        c[1023] = b'0' + (last % 10);
        pump_step(&mut b, &ReadEvent::Bytes(c.clone()));
        total += 1024;
        assert!(b.len() <= HIGH_WATER);
        assert!(b.snapshot().as_bytes().ends_with(&c));
    }
    assert!(b.len() >= LOW_WATER);
}

#[test]
fn cut_keeps_exactly_low_water_characters() {
    let mut b = TerminalBuffer::new();
    b.append_text(&"x".repeat(HIGH_WATER));
    assert_eq!(b.len(), HIGH_WATER);
    b.append_text("é");
    assert_eq!(b.len(), LOW_WATER);
    assert!(b.snapshot().ends_with("xé"));
    let big: String = "ü".repeat(HIGH_WATER + 1);
    b.append_text(&big);
    assert_eq!(b.len(), LOW_WATER);
    assert_eq!(b.snapshot(), "ü".repeat(LOW_WATER));
}

#[test]
fn destroy_twice_leaves_registry_empty() {
    let mut reg: SessionRegistry<u32> = SessionRegistry::new();
    reg.create(7);
    reg.destroy();
    reg.destroy();
    assert!(reg.active().is_none());
    assert!(reg.current_id().is_none());
    assert!(matches!(reg.reading(), Err(SessionError::NotInitialized)));
}

#[test]
fn second_create_replaces_first() {
    let mut reg: SessionRegistry<&str> = SessionRegistry::new();
    let first = reg.create("first");
    let second = reg.create("second");
    assert_ne!(first, second);
    assert_eq!(first.len(), 36);
    assert_eq!(reg.current_id(), Some(&second));
    assert!(matches!(reg.reading(), Ok(&"second")));
    assert_eq!(reg.active(), Some(&"second"));
}

#[test]
fn empty_registry_reads_fail_writes_do_nothing() {
    let reg: SessionRegistry<u8> = SessionRegistry::new();
    assert!(reg.active().is_none());
    assert!(matches!(reg.reading(), Err(SessionError::NotInitialized)));
}

#[test]
fn shell_choice() {
    assert_eq!(default_shell(false, None, false, Some("/bin/zsh".to_string())), "/bin/zsh");
    assert_eq!(default_shell(false, Some("cmd".to_string()), true, None), "/bin/bash");
    assert_eq!(default_shell(true, Some("C:\\cmd.exe".to_string()), true, None), "C:\\cmd.exe");
    assert_eq!(default_shell(true, None, true, Some("/bin/zsh".to_string())), "powershell.exe");
    assert_eq!(default_shell(true, None, false, None), "cmd.exe");
}

#[test]
fn test_detect_default_shell() {
    let shell = default_shell(false, None, false, None);
    assert!(!shell.is_empty());
    assert!(shell.contains("bash") || shell.contains("zsh") || shell.contains("fish"));
    let shell = default_shell(true, None, true, None);
    assert!(shell.contains("powershell") || shell.contains("cmd"));
}

#[test]
fn session_ids_are_hyphenated_v4() {
    let mut reg: SessionRegistry<u8> = SessionRegistry::new();
    let id = reg.create(1);
    let cs: Vec<char> = id.chars().collect();
    assert_eq!(cs.len(), 36);
    for (i, c) in cs.iter().enumerate() {
        if i == 8 || i == 13 || i == 18 || i == 23 {
            assert_eq!(*c, '-');
        } else {
            assert!(c.is_ascii_hexdigit() && !c.is_ascii_uppercase());
        }
    }
    assert_eq!(cs[14], '4');
    assert!(matches!(cs[19], '8' | '9' | 'a' | 'b'));
}
