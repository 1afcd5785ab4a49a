use dyseos::drivers::console::{
    console, print_line, Console, Count, PrintOutcome, SysConsole, _print, SYS_CONSOLE_ADDR,
};
use dyseos::sync::mutex::Mutex;

fn fresh() -> SysConsole<SYS_CONSOLE_ADDR> {
    SysConsole::new()
}

fn snapshot(lock: &mut Mutex<SysConsole<SYS_CONSOLE_ADDR>>) -> Vec<u8> {
    let g = lock.try_lock().expect("console lock is free");
    let bytes = g.deref().emitted_bytes().clone();
    lock.unlock(g);
    bytes
}

#[test]
fn newline_expansion() {
    let mut c = fresh();
    c.write_str("a\nb");
    // The logical newline becomes carriage return + line feed at the sink.
    assert_eq!(*c.emitted_bytes(), vec![b'a', b'\r', b'\n', b'b']);
    assert_eq!(c.chars_written(), 4);
}

#[test]
fn counter_counts_every_stored_byte() {
    let mut c = fresh();
    c.write_str("xy");
    let before = c.chars_written();
    c.write_str("a\nb");
    assert_eq!(c.chars_written() - before, 4);
    assert_eq!(*c.emitted_bytes(), vec![b'x', b'y', b'a', b'\r', b'\n', b'b']);
}

#[test]
fn carriage_return_is_a_literal_byte() {
    let mut c = fresh();
    c.write_str("a\rb");
    assert_eq!(*c.emitted_bytes(), vec![b'a', b'\r', b'b']);
    assert_eq!(c.chars_written(), 3);
}

#[test]
fn already_expanded_text_is_not_reexpanded() {
    let mut c = fresh();
    c.write_str("a\r\nb");
    // Writing already-expanded text again: the carriage return and the
    // newline each pass through as one literal byte; expansion happens
    // only for a newline the text does not already pair with a carriage
    // return.
    assert_eq!(*c.emitted_bytes(), vec![b'a', b'\r', b'\n', b'b']);
    assert_eq!(c.chars_written(), 4);
}

#[test]
fn consecutive_newlines_each_expand() {
    let mut c = fresh();
    c.write_str("\n\n");
    // A newline preceded by another newline, not by a carriage return, is
    // still expanded.
    assert_eq!(*c.emitted_bytes(), vec![b'\r', b'\n', b'\r', b'\n']);
    assert_eq!(c.chars_written(), 4);
}

#[test]
fn look_behind_does_not_cross_calls() {
    let mut c = fresh();
    c.write_str("a\r");
    c.write_str("\nb");
    // Each call streams a text of its own: a newline opening a call has
    // no predecessor to pair with, so it is expanded.
    assert_eq!(*c.emitted_bytes(), vec![b'a', b'\r', b'\r', b'\n', b'b']);
    assert_eq!(c.chars_written(), 5);
}

#[test]
fn write_char_stores_one_raw_byte() {
    let mut c = fresh();
    // write_char is the raw store: the newline policy lives in write_str.
    c.write_char('\n');
    c.write_char('\u{00e9}');
    assert_eq!(*c.emitted_bytes(), vec![10, 0xe9]);
    assert_eq!(c.chars_written(), 2);
}

#[test]
fn empty_write_emits_nothing() {
    let mut c = fresh();
    c.write_str("");
    assert_eq!(*c.emitted_bytes(), Vec::<u8>::new());
    assert_eq!(c.chars_written(), 0);
}

#[test]
fn console_hands_out_the_unique_guard() {
    let mut lock = Mutex::new(fresh());
    let g = console(&mut lock).expect("lock is free");
    assert!(console(&mut lock).is_none());
    lock.unlock(g);
}

#[test]
fn print_streams_through_the_lock() {
    let mut lock = Mutex::new(fresh());
    assert_eq!(_print(&mut lock, "hi"), PrintOutcome::Printed);
    assert_eq!(print_line(&mut lock, "yo"), PrintOutcome::Printed);
    assert_eq!(snapshot(&mut lock), b"hiyo\r\n".to_vec());
}

#[test]
fn print_parks_when_the_lock_is_held() {
    let mut lock = Mutex::new(fresh());
    let g = lock.try_lock().unwrap();
    assert_eq!(_print(&mut lock, "hi"), PrintOutcome::Parked);
    assert_eq!(print_line(&mut lock, "yo"), PrintOutcome::Parked);
    lock.unlock(g);
    assert_eq!(snapshot(&mut lock), Vec::<u8>::new());
}
