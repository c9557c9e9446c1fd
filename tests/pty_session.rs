use std::io::{Read, Write};
use std::sync::Mutex;

use portable_pty::{CommandBuilder, NativePtySystem, PtySize, PtySystem};
use tutodecode::buffer::{pump_step, PumpControl, ReadEvent, TerminalBuffer};
use tutodecode::session::SessionRegistry;

struct Session {
    _pair: portable_pty::PtyPair,
    reader: Mutex<Box<dyn Read + Send>>,
    writer: Mutex<Box<dyn Write + Send>>,
    buffer: Mutex<TerminalBuffer>,
}

fn open(cols: u16, rows: u16) -> Session {
    let pair = NativePtySystem::default()
        .openpty(PtySize { rows, cols, pixel_width: 0, pixel_height: 0 })
        .unwrap();
    let child = pair.slave.spawn_command(CommandBuilder::new("/bin/sh")).unwrap();
    drop(child);
    let reader = pair.master.try_clone_reader().unwrap();
    let writer = pair.master.take_writer().unwrap();
    Session {
        _pair: pair,
        reader: Mutex::new(reader),
        writer: Mutex::new(writer),
        buffer: Mutex::new(TerminalBuffer::new()),
    }
}

fn write(reg: &SessionRegistry<Session>, data: &str) {
    if let Some(s) = reg.active() {
        let mut w = s.writer.lock().unwrap();
        w.write_all(data.as_bytes()).unwrap();
        w.flush().unwrap();
    }
}

fn read(reg: &SessionRegistry<Session>) -> String {
    reg.reading().ok().map(|s| s.buffer.lock().unwrap().snapshot()).unwrap()
}

/// Runs the pump of the current session, one read at a time, until its
/// snapshot contains `needle` or the terminal closes.
fn pump_until(reg: &SessionRegistry<Session>, needle: &str) -> bool {
    let s = reg.active().unwrap();
    let mut chunk = [0u8; 1024];
    for _ in 0..1000 {
        if read(reg).contains(needle) {
            return true;
        }
        let event = match s.reader.lock().unwrap().read(&mut chunk) {
            Ok(n) => ReadEvent::Bytes(chunk[..n].to_vec()),
            Err(_) => ReadEvent::Failed,
        };
        if pump_step(&mut s.buffer.lock().unwrap(), &event) == PumpControl::Stop {
            break;
        }
    }
    read(reg).contains(needle)
}

#[test]
fn echo_through_a_real_terminal() {
    let mut reg = SessionRegistry::new();
    let id = reg.create(open(80, 24));
    assert_eq!(id.len(), 36);
    write(&reg, "echo hi\n");
    assert!(pump_until(&reg, "hi"));
}

#[test]
fn second_terminal_receives_the_writes() {
    let mut reg = SessionRegistry::new();
    reg.create(open(80, 24));
    reg.create(open(100, 30));
    write(&reg, "echo sec$((1+1))ond\n");
    assert!(pump_until(&reg, "sec2ond"));
    reg.destroy();
    assert!(reg.reading().is_err());
}
