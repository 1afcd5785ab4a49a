use dyseos::drivers::console::{SysConsole, SYS_CONSOLE_ADDR};
use dyseos::fatal::{
    fatal_error, panic_prevent_reenter, u64_dec, FatalOutcome, PanicRecord, ReentrancyFlag,
    SourceLocation,
};
use dyseos::sync::mutex::Mutex;

fn fresh_lock() -> Mutex<SysConsole<SYS_CONSOLE_ADDR>> {
    Mutex::new(SysConsole::new())
}

fn snapshot(lock: &mut Mutex<SysConsole<SYS_CONSOLE_ADDR>>) -> Vec<u8> {
    let g = lock.try_lock().expect("console lock is free");
    let bytes = g.deref().emitted_bytes().clone();
    lock.unlock(g);
    bytes
}

#[test]
fn reenter_guard_proceeds_once() {
    let mut flag = ReentrancyFlag::new();
    assert!(panic_prevent_reenter(&mut flag));
    assert!(!panic_prevent_reenter(&mut flag));
    assert!(!panic_prevent_reenter(&mut flag));
}

#[test]
fn decimal_rendering() {
    assert_eq!(u64_dec(0), "0");
    assert_eq!(u64_dec(7), "7");
    assert_eq!(u64_dec(10), "10");
    assert_eq!(u64_dec(409), "409");
    assert_eq!(u64_dec(1234567890), "1234567890");
    assert_eq!(u64_dec(u64::MAX), "18446744073709551615");
}

#[test]
fn fatal_error_reports_location_and_message() {
    let mut flag = ReentrancyFlag::new();
    let mut lock = fresh_lock();
    let rec = PanicRecord {
        location: Some(SourceLocation { file: String::from("src/start.rs"), line: 42 }),
        message: String::from("stack overflow"),
    };
    let r = fatal_error(&rec, &mut flag, &mut lock);
    assert_eq!(r, FatalOutcome::Reported);
    let expected = b"Kernel panicked at src/start.rs:42\r\nstack overflow\r\n".to_vec();
    assert_eq!(snapshot(&mut lock), expected);
}

#[test]
fn fatal_error_falls_back_to_placeholder_location() {
    let mut flag = ReentrancyFlag::new();
    let mut lock = fresh_lock();
    let rec = PanicRecord { location: None, message: String::from("boom") };
    let r = fatal_error(&rec, &mut flag, &mut lock);
    assert_eq!(r, FatalOutcome::Reported);
    assert_eq!(snapshot(&mut lock), b"Kernel panicked at ???:0\r\nboom\r\n".to_vec());
}

#[test]
fn reentrant_fatal_error_skips_reporting() {
    let mut flag = ReentrancyFlag::new();
    let mut lock = fresh_lock();
    let rec = PanicRecord { location: None, message: String::from("first failure") };
    assert_eq!(fatal_error(&rec, &mut flag, &mut lock), FatalOutcome::Reported);
    let after_first = snapshot(&mut lock);
    // Second entry with the flag already set: straight to halted, nothing
    // more is emitted.
    let rec2 = PanicRecord { location: None, message: String::from("second failure") };
    assert_eq!(fatal_error(&rec2, &mut flag, &mut lock), FatalOutcome::Reentrant);
    assert_eq!(snapshot(&mut lock), after_first);
}

#[test]
fn fatal_error_parks_when_console_is_held() {
    let mut flag = ReentrancyFlag::new();
    let mut lock = fresh_lock();
    let g = lock.try_lock().unwrap();
    let rec = PanicRecord { location: None, message: String::from("boom") };
    assert_eq!(fatal_error(&rec, &mut flag, &mut lock), FatalOutcome::ParkedReporting);
    lock.unlock(g);
    assert_eq!(snapshot(&mut lock), Vec::<u8>::new());
}
