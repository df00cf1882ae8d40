use stm32_timer::divisor::ConfigError;
use stm32_timer::rcc::{Apb1, Clocks};
use stm32_timer::time::Hertz;
use stm32_timer::timer::{Event, Registers, Tim, TimId, Timer, MMS_RESET, MMS_TIMEOUT, MMS_UPDATE};

fn dirty_regs() -> Registers {
    Registers { cen: true, cnt: 17, uif: true, uie: true, mms: 3, psc: 9, arr: 99 }
}

fn timer(id: TimId, ppre: u8) -> (Timer, Apb1) {
    let mut apb1 = Apb1 { enr: 0, rstr: 0 };
    let t = Timer::new(Tim { id, regs: dirty_regs() }, Clocks::new(Hertz(8_000_000), ppre), &mut apb1);
    (t, apb1)
}

#[test]
fn new_enables_and_resets_the_peripheral() {
    let mut apb1 = Apb1 { enr: 0x100, rstr: 0x101 | 0x10 };
    let t = Timer::new(
        Tim { id: TimId::Tim6, regs: dirty_regs() },
        Clocks::new(Hertz(8_000_000), 1),
        &mut apb1,
    );
    assert_eq!(apb1, Apb1 { enr: 0x110, rstr: 0x101 });
    assert_eq!(t.timeout(), Hertz(0));
    assert_eq!(t.id(), TimId::Tim6);
    assert_eq!(t.clocks(), Clocks::new(Hertz(8_000_000), 1));
    assert_eq!(
        t.registers(),
        Registers { cen: false, cnt: 0, uif: false, uie: false, mms: MMS_RESET, psc: 0, arr: 0xFFFF }
    );
    let (t2, apb1) = timer(TimId::Tim2, 1);
    assert_eq!(apb1.enr, 1);
    assert_eq!(t2.registers().arr, 0xFFFF_FFFF);
}

#[test]
fn config_programs_divisors() {
    let (mut t, _) = timer(TimId::Tim3, 1);
    assert_eq!(t.config(Hertz(1000)), Ok(()));
    assert_eq!(t.timeout(), Hertz(1000));
    assert_eq!((t.registers().psc, t.registers().arr), (0, 7999));
    let (mut t, _) = timer(TimId::Tim4, 2);
    assert_eq!(t.config(Hertz(1)), Ok(()));
    assert_eq!((t.registers().psc, t.registers().arr), (244, 65305));
}

#[test]
fn config_error_changes_nothing() {
    let (mut t, _) = timer(TimId::Tim7, 1);
    t.config(Hertz(1000)).unwrap();
    let before = t.registers();
    assert_eq!(t.config(Hertz(0)), Err(ConfigError::InvalidFrequency));
    assert_eq!(t.config(Hertz(9_000_000)), Err(ConfigError::InvalidFrequency));
    assert_eq!(t.registers(), before);
    assert_eq!(t.timeout(), Hertz(1000));
}

#[test]
fn start_then_counter_reads_zero() {
    let (mut t, _) = timer(TimId::Tim2, 1);
    t.config(Hertz(1000)).unwrap();
    t.observe(1234, false);
    assert_eq!(t.get_counter(), 1234);
    t.start();
    assert_eq!(t.get_counter(), 0);
    assert!(t.registers().cen);
    t.start();
    assert_eq!(t.get_counter(), 0);
}

#[test]
fn wait_completes_once_per_update_event() {
    let (mut t, _) = timer(TimId::Tim3, 1);
    t.config(Hertz(1000)).unwrap();
    t.start();
    assert_eq!(t.wait(), Err(nb::Error::WouldBlock));
    assert_eq!(t.wait(), Err(nb::Error::WouldBlock));
    t.observe(0, true);
    assert_eq!(t.wait(), Ok(()));
    assert!(!t.registers().uif);
    assert_eq!(t.wait(), Err(nb::Error::WouldBlock));
    t.observe(5, true);
    assert_eq!(t.wait(), Ok(()));
    assert_eq!(t.wait(), Err(nb::Error::WouldBlock));
}

#[test]
fn listen_selects_master_mode_and_interrupt() {
    let (mut t, _) = timer(TimId::Tim4, 1);
    t.listen(Event::TimeOut);
    assert_eq!((t.registers().mms, t.registers().uie), (MMS_TIMEOUT, true));
    t.listen(Event::Update);
    assert_eq!((t.registers().mms, t.registers().uie), (MMS_UPDATE, true));
}

#[test]
fn unlisten_undoes_listen() {
    for e in [Event::TimeOut, Event::Update] {
        let (mut t, _) = timer(TimId::Tim6, 1);
        let before = t.registers();
        t.listen(e);
        t.unlisten(e);
        assert_eq!(t.registers(), before);
    }
}

#[test]
fn free_halts_counting() {
    let (mut t, _) = timer(TimId::Tim7, 1);
    t.config(Hertz(50)).unwrap();
    t.start();
    t.observe(42, false);
    let tim = t.free();
    assert_eq!(tim.id, TimId::Tim7);
    assert!(!tim.regs.cen);
    assert_eq!(tim.regs.cnt, 42);
    let mut apb1 = Apb1 { enr: 0, rstr: 0 };
    let again = Timer::new(tim, Clocks::new(Hertz(8_000_000), 1), &mut apb1);
    assert_eq!(again.timeout(), Hertz(0));
}

#[test]
fn stop_pauses_and_clears_counter() {
    let (mut t, _) = timer(TimId::Tim2, 1);
    t.config(Hertz(10)).unwrap();
    t.start();
    t.observe(777, false);
    t.stop();
    assert!(!t.registers().cen);
    assert_eq!(t.get_counter(), 0);
    t.start();
    assert!(t.registers().cen);
}

#[test]
fn reconfig_uses_the_wide_reload_field() {
    let (mut t, _) = timer(TimId::Tim2, 2);
    assert_eq!(t.reconfig(), Err(ConfigError::InvalidFrequency));
    t.config(Hertz(1)).unwrap();
    assert_eq!((t.registers().psc, t.registers().arr), (244, 65305));
    assert_eq!(t.reconfig(), Ok(()));
    assert_eq!((t.registers().psc, t.registers().arr), (0, 15_999_999));
    assert_eq!(t.timeout(), Hertz(1));
}
