use minux::halt::{abort, abort_message, kpanic, AbortInfo};
use minux::memlayout::UART0;
use minux::riscv::Hart;
use minux::uart::{index_fault_message, UartDriver};

#[test]
fn abort_banner_with_location() {
    let info = AbortInfo::Located {
        line: 7,
        file: b"src/main.rs".to_vec(),
        message: b"boom".to_vec(),
    };
    let msg = abort_message(&info);
    assert_eq!(msg, b"Aborting: line 7, file src/main.rs: boom\r\n".to_vec());
}

#[test]
fn abort_banner_without_location() {
    let msg = abort_message(&AbortInfo::Unknown);
    assert_eq!(msg, b"Aborting: no information available.\r\n".to_vec());
}

#[test]
fn abort_halts_the_hart_forever() {
    let mut hart = Hart::new(0);
    hart.mstatus = 99;
    abort(&mut hart);
    assert!(hart.halted);
    // Nothing else about the hart changes on the way down.
    assert_eq!(hart.mstatus, 99);
}

#[test]
fn kpanic_emits_banner_then_halts() {
    let mut hart = Hart::new(0);
    let mut uart = UartDriver::new(UART0 as usize);
    let info = AbortInfo::Located {
        line: 12,
        file: b"src/uart.rs".to_vec(),
        message: b"bad register".to_vec(),
    };
    kpanic(&mut uart, &mut hart, &info);
    assert!(hart.halted);
    assert_eq!(
        uart.tx_log,
        b"Aborting: line 12, file src/uart.rs: bad register\r\n".to_vec()
    );
}

#[test]
fn kpanic_under_transmit_pressure_still_halts() {
    let mut hart = Hart::new(0);
    let mut uart = UartDriver::new(UART0 as usize);
    uart.tx_ready = false;
    kpanic(&mut uart, &mut hart, &AbortInfo::Unknown);
    assert!(hart.halted);
    assert_eq!(uart.tx_log, b"".to_vec());
}

#[test]
fn out_of_bank_register_access_halts_with_index_diagnostic() {
    let mut hart = Hart::new(0);
    let mut uart = UartDriver::new(UART0 as usize);
    uart.init();
    uart.tx_log.clear();
    match uart.write_reg(9, 0xFF) {
        Ok(()) => panic!("index 9 must fault"),
        Err(fault) => {
            assert_eq!(fault.index, 9);
            let info = AbortInfo::Located {
                line: 84,
                file: b"src/uart.rs".to_vec(),
                message: index_fault_message(),
            };
            kpanic(&mut uart, &mut hart, &info);
        },
    }
    assert!(hart.halted);
    let needle = b"index error";
    let sent = uart.tx_log.clone();
    assert!(sent.windows(needle.len()).any(|w| w == needle));
    let full = b"Aborting: line 84, file src/uart.rs: index error: UART only has 3 bits of space\r\n";
    assert_eq!(sent, full.to_vec());
}
