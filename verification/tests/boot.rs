use dyseos::cpu::{boot_entry, zero_region, BootContext, BootOutcome, BOOT_CORE_ID};
use dyseos::drivers::console::{SysConsole, SYS_CONSOLE_ADDR};
use dyseos::fatal::{FatalOutcome, ReentrancyFlag};
use dyseos::kernel::{kernel_init, InitOutcome};
use dyseos::sync::mutex::Mutex;

#[test]
fn zeroing_correctness() {
    let mut mem = vec![0xFFu8; 10];
    zero_region(&mut mem, 2, 7);
    assert_eq!(mem, vec![0xFF, 0xFF, 0, 0, 0, 0, 0, 0xFF, 0xFF, 0xFF]);
}

#[test]
fn zeroing_whole_and_empty_regions() {
    let mut mem = vec![0xABu8; 4];
    zero_region(&mut mem, 3, 3);
    // Zero-length region: no writes at all.
    assert_eq!(mem, vec![0xAB; 4]);
    zero_region(&mut mem, 0, 4);
    assert_eq!(mem, vec![0; 4]);
    let mut empty: Vec<u8> = Vec::new();
    zero_region(&mut empty, 0, 0);
    assert!(empty.is_empty());
}

#[test]
fn non_boot_core_parks_without_touching_state() {
    let ctx = BootContext { core_id: 3, stack_top: 0x8_0000, bss_start: 1, bss_end: 4 };
    let mut sp: u64 = 0xD00D;
    let mut mem = vec![0x55u8; 8];
    let r = boot_entry(&ctx, &mut sp, &mut mem);
    assert_eq!(r, BootOutcome::ParkedForever);
    // Neither stack initialization nor bss zeroing ran.
    assert_eq!(sp, 0xD00D);
    assert_eq!(mem, vec![0x55u8; 8]);
}

#[test]
fn boot_core_initializes_and_hands_off() {
    let ctx = BootContext { core_id: BOOT_CORE_ID, stack_top: 0x8_0000, bss_start: 2, bss_end: 6 };
    let mut sp: u64 = 0;
    let mut mem = vec![0x55u8; 8];
    let r = boot_entry(&ctx, &mut sp, &mut mem);
    assert_eq!(r, BootOutcome::HandedOff);
    assert_eq!(sp, 0x8_0000);
    assert_eq!(mem, vec![0x55, 0x55, 0, 0, 0, 0, 0x55, 0x55]);
}

#[test]
fn kernel_init_announces_then_fails_fatally() {
    let mut lock = Mutex::new(SysConsole::<SYS_CONSOLE_ADDR>::new());
    let mut flag = ReentrancyFlag::new();
    let r = kernel_init(&mut lock, &mut flag);
    assert_eq!(r, InitOutcome::Fatal(FatalOutcome::Reported));
    let g = lock.try_lock().expect("lock released after reporting");
    let expected = b"Kernel initializing: ...\r\n\
Kernel panicked at ???:0\r\n\
Reached end of existing kernel... more coming soon!\r\n"
        .to_vec();
    assert_eq!(*g.deref().emitted_bytes(), expected);
    lock.unlock(g);
}

#[test]
fn kernel_init_parks_when_console_is_held() {
    let mut lock = Mutex::new(SysConsole::<SYS_CONSOLE_ADDR>::new());
    let mut flag = ReentrancyFlag::new();
    let g = lock.try_lock().unwrap();
    let r = kernel_init(&mut lock, &mut flag);
    assert_eq!(r, InitOutcome::ParkedPrinting);
    lock.unlock(g);
}
