use st7789driver::commands;
use st7789driver::mock::{BusFault, FaultBus, LogTimer, MemPin, VecBus};
use st7789driver::plan::{col_window_plan, init_plan, memory_write_plan, row_window_plan, Burst};
use st7789driver::trace::window_payload;
use st7789driver::{DriverError, Level, St7789};

fn fresh() -> St7789<VecBus, MemPin, LogTimer> {
    St7789::new(
        VecBus::new(),
        MemPin::new(Level::High),
        MemPin::new(Level::High),
        LogTimer::new(),
    )
}

const INIT_WRITES: [&[u8]; 4] = [
    &[0x01],
    &[0x11, 0x29, 0x21],
    &[0x3A],
    &[0x55],
];

#[test]
fn construction_drives_both_lines_high() {
    let lcd = fresh();
    let (bus, cs, dc, timer) = lcd.free();
    assert!(cs.is_high());
    assert!(dc.is_high());
    assert!(bus.writes().is_empty());
    assert!(timer.waits().is_empty());
}

#[test]
fn operations_before_init_are_contract_violations() {
    let mut lcd = fresh();
    assert!(matches!(lcd.set_row(0, 319), Err(DriverError::NotInitialized)));
    assert!(matches!(lcd.set_col(5, 17), Err(DriverError::NotInitialized)));
    assert!(matches!(lcd.write_memory(), Err(DriverError::NotInitialized)));
    assert!(matches!(lcd.write_data(&[1, 2, 3]), Err(DriverError::NotInitialized)));
    assert!(matches!(lcd.write_data(&[]), Err(DriverError::NotInitialized)));
    assert!(matches!(lcd.set_row(0xFFFF, 0), Err(DriverError::NotInitialized)));
    // Nothing reached the bus, the lines, or the timer.
    let (bus, cs, dc, timer) = lcd.free();
    assert!(bus.writes().is_empty());
    assert!(cs.is_high());
    assert!(dc.is_high());
    assert!(timer.waits().is_empty());
}

#[test]
fn init_transmits_the_documented_sequence() {
    let mut lcd = fresh();
    lcd.init().unwrap();
    let (bus, cs, _dc, timer) = lcd.free();
    assert!(!cs.is_high());
    let writes = bus.writes();
    assert_eq!(writes.len(), 4);
    for (burst, expected) in writes.iter().zip(INIT_WRITES.iter()) {
        assert_eq!(burst.as_slice(), *expected);
    }
    // Two settling waits around the chip-select assertion and two around
    // each of the three command transactions.
    assert_eq!(timer.waits().as_slice(), &[1u64; 8]);
}

#[test]
fn init_twice_reproduces_the_same_trace() {
    let mut lcd = fresh();
    lcd.init().unwrap();
    lcd.init().unwrap();
    let (bus, _, _, _) = lcd.free();
    let writes = bus.writes();
    assert_eq!(writes.len(), 8);
    for i in 0..4 {
        assert_eq!(writes[i], writes[i + 4]);
        assert_eq!(writes[i].as_slice(), INIT_WRITES[i]);
    }
}

#[test]
fn window_payload_splits_big_endian() {
    assert_eq!(window_payload(0, 319), vec![0x00, 0x00, 0x01, 0x3F]);
    assert_eq!(window_payload(0, 239), vec![0x00, 0x00, 0x00, 0xEF]);
    assert_eq!(window_payload(0x1234, 0xABCD), vec![0x12, 0x34, 0xAB, 0xCD]);
    assert_eq!(window_payload(0xFFFF, 0xFFFF), vec![0xFF, 0xFF, 0xFF, 0xFF]);
    assert_eq!(window_payload(0, 0), vec![0x00, 0x00, 0x00, 0x00]);
}

#[test]
fn set_row_emits_command_then_four_address_bytes() {
    let mut lcd = fresh();
    lcd.init().unwrap();
    lcd.set_row(0x0102, 0x0304).unwrap();
    let (bus, _, dc, timer) = lcd.free();
    let writes = bus.writes();
    assert_eq!(writes.len(), 6);
    assert_eq!(writes[4].as_slice(), &[0x2B]);
    assert_eq!(writes[5].as_slice(), &[0x01, 0x02, 0x03, 0x04]);
    // The address bytes went out as a data transaction.
    assert!(dc.is_high());
    // The command transaction added one settling wait on each side.
    assert_eq!(timer.waits().len(), 10);
}

#[test]
fn set_col_emits_command_then_four_address_bytes() {
    let mut lcd = fresh();
    lcd.init().unwrap();
    lcd.set_col(7, 0xBEEF).unwrap();
    let (bus, _, dc, _) = lcd.free();
    let writes = bus.writes();
    assert_eq!(writes.len(), 6);
    assert_eq!(writes[4].as_slice(), &[0x2A]);
    assert_eq!(writes[5].as_slice(), &[0x00, 0x07, 0xBE, 0xEF]);
    assert!(dc.is_high());
}

#[test]
fn row_and_column_windows_are_independent() {
    let mut lcd = fresh();
    lcd.init().unwrap();
    lcd.set_row(10, 20).unwrap();
    lcd.set_col(30, 40).unwrap();
    let (bus, _, _, _) = lcd.free();
    let writes = bus.writes();
    // The row bytes are unchanged by the later column operation, and each
    // axis carries its own arguments.
    assert_eq!(writes[4].as_slice(), &[0x2B]);
    assert_eq!(writes[5].as_slice(), &[0x00, 10, 0x00, 20]);
    assert_eq!(writes[6].as_slice(), &[0x2A]);
    assert_eq!(writes[7].as_slice(), &[0x00, 30, 0x00, 40]);
}

#[test]
fn write_memory_emits_bare_opcode() {
    let mut lcd = fresh();
    lcd.init().unwrap();
    lcd.write_memory().unwrap();
    let (bus, _, _, _) = lcd.free();
    let writes = bus.writes();
    assert_eq!(writes.len(), 5);
    assert_eq!(writes[4].as_slice(), &[0x2C]);
}

#[test]
fn write_data_transmits_bytes_unmodified() {
    let mut lcd = fresh();
    lcd.init().unwrap();
    let pixels = [0xDE, 0xAD, 0xBE, 0xEF, 0x00, 0xFF];
    lcd.write_data(&pixels).unwrap();
    let (bus, _, dc, timer) = lcd.free();
    let writes = bus.writes();
    assert_eq!(writes.len(), 5);
    assert_eq!(writes[4].as_slice(), &pixels);
    // Selector line at the data level, and no extra settling waits.
    assert!(dc.is_high());
    assert_eq!(timer.waits().len(), 8);
}

#[test]
fn example_scenario_full_trace() {
    let mut lcd = fresh();
    lcd.init().unwrap();
    lcd.set_row(0, 319).unwrap();
    lcd.set_col(0, 239).unwrap();
    lcd.write_memory().unwrap();
    lcd.write_data(&[0x00]).unwrap();
    let (bus, cs, _, _) = lcd.free();
    assert!(!cs.is_high());
    let expected: Vec<Vec<u8>> = vec![
        vec![0x01],
        vec![0x11, 0x29, 0x21],
        vec![0x3A],
        vec![0x55],
        vec![0x2B],
        vec![0x00, 0x00, 0x01, 0x3F],
        vec![0x2A],
        vec![0x00, 0x00, 0x00, 0xEF],
        vec![0x2C],
        vec![0x00],
    ];
    assert_eq!(bus.writes(), &expected);
}

#[test]
fn transport_fault_clears_readiness() {
    let mut lcd = St7789::new(
        FaultBus::new(),
        MemPin::new(Level::High),
        MemPin::new(Level::High),
        LogTimer::new(),
    );
    assert!(matches!(lcd.init(), Err(DriverError::Transport(BusFault))));
    // The conservative choice: after a transport fault the session must be
    // re-initialized before any further transaction.
    assert!(matches!(lcd.set_row(0, 1), Err(DriverError::NotInitialized)));
    assert!(matches!(lcd.write_data(&[0]), Err(DriverError::NotInitialized)));
}

fn burst_bytes(b: &Burst) -> (&[u8], bool) {
    match b {
        Burst::Command(p) => (p.as_slice(), true),
        Burst::Data(p) => (p.as_slice(), false),
    }
}

#[test]
fn init_plan_matches_the_session_trace() {
    let plan = init_plan();
    assert_eq!(plan.len(), 4);
    let kinds: Vec<bool> = plan.iter().map(|b| burst_bytes(b).1).collect();
    assert_eq!(kinds, vec![true, true, true, false]);
    for (burst, expected) in plan.iter().zip(INIT_WRITES.iter()) {
        assert_eq!(burst_bytes(burst).0, *expected);
    }
}

#[test]
fn window_plans_match_the_session_trace() {
    let row = row_window_plan(0, 319);
    assert_eq!(burst_bytes(&row[0]), (&[0x2Bu8][..], true));
    assert_eq!(burst_bytes(&row[1]), (&[0x00u8, 0x00, 0x01, 0x3F][..], false));
    let col = col_window_plan(0, 239);
    assert_eq!(burst_bytes(&col[0]), (&[0x2Au8][..], true));
    assert_eq!(burst_bytes(&col[1]), (&[0x00u8, 0x00, 0x00, 0xEF][..], false));
    let mem = memory_write_plan();
    assert_eq!(mem.len(), 1);
    assert_eq!(burst_bytes(&mem[0]), (&[0x2Cu8][..], true));
}

#[test]
fn catalog_opcodes_and_arities() {
    assert_eq!(commands::RESET, 0x01);
    assert_eq!(commands::SLEEP_OUT, 0x11);
    assert_eq!(commands::DISPLAY_ON, 0x29);
    assert_eq!(commands::DISPLAY_INVERSION_ON, 0x21);
    assert_eq!(commands::COLUMN_ADDRESS_SET, 0x2A);
    assert_eq!(commands::ROW_ADDRESS_SET, 0x2B);
    assert_eq!(commands::MEMORY_WRITE, 0x2C);
    assert_eq!(commands::COL_MODE, 0x3A);
    assert_eq!(commands::PIXEL_FORMAT_RGB565, 0x55);

    assert_eq!(commands::arity_of(commands::RESET), Some(0));
    assert_eq!(commands::arity_of(commands::DISPLAY_ON), Some(0));
    assert_eq!(commands::arity_of(commands::GAMMA_SET), Some(1));
    assert_eq!(commands::arity_of(commands::COL_MODE), Some(1));
    assert_eq!(commands::arity_of(commands::ROW_ADDRESS_SET), Some(4));
    assert_eq!(commands::arity_of(commands::COLUMN_ADDRESS_SET), Some(4));
    assert_eq!(commands::arity_of(commands::MEMORY_WRITE), None);
    assert_eq!(commands::arity_of(0x00), None);
}
