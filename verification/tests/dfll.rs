use atsamd::clock::dfll::marker;
use atsamd::clock::dfll::{
    ClosedLoop, Dfll, DfllAccess, DfllField, OpenLoop, Registers, SyncGroup, DFLL_FREQUENCY,
};
use atsamd::clock::gclk::{Gclk0, GclkSourceEnum, Gen1};
use atsamd::clock::pclk::{Dfll48, Pclk};
use atsamd::clock::types::Source;
use atsamd::pac::atsamd11c14a::Peripherals;
use atsamd::time::Hertz;

fn token(sync_delay: u8) -> Registers {
    let mut taken = false;
    Registers::new(Peripherals::take(&mut taken).unwrap().SYSCTRL, sync_delay)
}

fn reference(hz: u32) -> Pclk<Dfll48, Gen1> {
    Pclk::new(Hertz(hz))
}

#[test]
fn open_loop_runs_at_48_mhz() {
    let dfll = Dfll::in_open_mode(token(0));
    assert_eq!(dfll.freq(), Hertz(48_000_000));
    assert_eq!(DFLL_FREQUENCY, 48_000_000);
    assert_eq!(Hertz::from_mhz(48), Hertz(48_000_000));
    let enabled = dfll.enable();
    assert_eq!(enabled.freq().0, 48_000_000);
}

#[test]
fn closed_loop_multiplies_its_reference() {
    let dfll = Dfll::in_closed_mode(token(0), reference(32_768), 1000, 1, 1);
    assert_eq!(dfll.freq().0, 32_768_000);
    let enabled = dfll.enable();
    assert_eq!(enabled.freq().0, 32_768_000);
}

#[test]
fn closed_loop_factor_can_be_changed_before_enabling() {
    let mut dfll = Dfll::in_closed_mode(token(0), reference(1_000), 3, 1, 1);
    assert_eq!(dfll.freq().0, 3_000);
    dfll.set_multiplication_factor(48_000);
    assert_eq!(dfll.freq().0, 48_000_000);
    dfll.set_coarse_maximum_step(7);
    dfll.set_fine_maximum_step(9);
    let token = dfll.enable().disable().free().0;
    assert_eq!(token.multiplier(), 48_000);
    assert_eq!(token.coarse_step(), 7);
    assert_eq!(token.fine_step(), 9);
}

#[test]
fn open_loop_enable_opens_the_loop_then_runs() {
    let enabled = Dfll::in_open_mode(token(2)).enable();
    assert_eq!(enabled.count(), 0);
    let token = enabled.get().token();
    assert!(token.is_enabled());
    assert!(!token.is_closed_mode());
    assert_eq!(
        token.journal().as_slice(),
        &[
            DfllAccess::Write(DfllField::Mode, 0),
            DfllAccess::AwaitSync(SyncGroup::DfllCtrlB),
            DfllAccess::Write(DfllField::Enable, 1),
            DfllAccess::AwaitSync(SyncGroup::Enable),
        ]
    );
}

#[test]
fn closed_loop_enable_writes_the_parameters_before_the_mode() {
    let dfll = Dfll::in_closed_mode(token(1), reference(32_768), 1464, 4, 10);
    let enabled = dfll.enable();
    assert_eq!(enabled.count(), 0);
    let token = enabled.get().token();
    assert_eq!(
        token.journal().as_slice(),
        &[
            DfllAccess::Write(DfllField::FineStep, 10),
            DfllAccess::AwaitSync(SyncGroup::DfllMul),
            DfllAccess::Write(DfllField::CoarseStep, 4),
            DfllAccess::AwaitSync(SyncGroup::DfllMul),
            DfllAccess::Write(DfllField::Multiplier, 1464),
            DfllAccess::AwaitSync(SyncGroup::DfllMul),
            DfllAccess::Write(DfllField::Mode, 1),
            DfllAccess::AwaitSync(SyncGroup::DfllCtrlB),
        ]
    );
    assert!(token.is_closed_mode());
    assert!(!token.is_enabled());
    assert_eq!(token.fine_step(), 10);
    assert_eq!(token.coarse_step(), 4);
    assert_eq!(token.multiplier(), 1464);
}

#[test]
fn coarse_step_has_six_bits() {
    for (given, held) in [(0u8, 0u8), (63, 63), (64, 0), (0x7f, 0x3f), (0xff, 0x3f), (0xc5, 0x05)] {
        let dfll = Dfll::in_closed_mode(token(0), reference(1_000), 2, given, 0xff);
        let token = dfll.enable().disable().free().0;
        assert_eq!(token.coarse_step(), held);
        assert_eq!(token.fine_step(), 0xff);
        assert_eq!(token.journal()[2], DfllAccess::Write(DfllField::CoarseStep, given as u16));
    }
}

#[test]
fn disable_stops_an_oscillator_without_dependents() {
    let enabled = Dfll::in_open_mode(token(0)).enable();
    let dfll = enabled.disable();
    let token = dfll.free();
    assert!(!token.is_enabled());
    assert_eq!(
        &token.journal()[4..],
        &[DfllAccess::Write(DfllField::Enable, 0), DfllAccess::AwaitSync(SyncGroup::Enable)]
    );
}

#[test]
fn dependents_are_counted() {
    let enabled = Dfll::in_open_mode(token(0)).enable();
    assert_eq!(enabled.count(), 0);
    let (first, enabled) = Gclk0::new(enabled);
    assert_eq!(enabled.count(), 1);
    let (second, enabled) = Gclk0::new(enabled);
    assert_eq!(enabled.count(), 2);
    let (third, enabled) = Gclk0::new(enabled);
    assert_eq!(enabled.count(), 3);
    let enabled = second.free(enabled);
    assert_eq!(enabled.count(), 2);
    let enabled = first.free(enabled);
    let enabled = third.free(enabled);
    assert_eq!(enabled.count(), 0);
    let _dfll = enabled.disable();
}

#[test]
fn a_generator_is_a_dependent() {
    let enabled = Dfll::in_open_mode(token(0)).enable();
    let (gclk0, enabled) = Gclk0::new(enabled);
    assert_eq!(enabled.count(), 1);
    assert_eq!(gclk0.source(), GclkSourceEnum::DFLL);
    let enabled = gclk0.free(enabled);
    assert_eq!(enabled.count(), 0);
    let token = enabled.disable().free();
    assert!(!token.is_enabled());
}

#[test]
fn mode_switch_scenario() {
    let enabled = Dfll::in_open_mode(token(3)).enable();
    let (gclk0, enabled) = Gclk0::<marker::Dfll>::new(enabled);
    assert_eq!(enabled.count(), 1);
    assert_eq!(enabled.freq().0, 48_000_000);

    let pclk = reference(1_000);
    let (closed, gclk0) = enabled.to_closed_mode(gclk0, pclk, 1000, 1, 1);
    assert_eq!(closed.count(), 1);
    assert_eq!(closed.freq().0, 1_000_000);
    {
        let token = closed.get().token();
        assert!(token.is_enabled());
        assert!(token.is_closed_mode());
        assert_eq!(token.multiplier(), 1000);
        assert_eq!(token.coarse_step(), 1);
        assert_eq!(token.fine_step(), 1);
        assert_eq!(token.journal().len(), 12);
        assert_eq!(token.journal()[10], DfllAccess::Write(DfllField::Mode, 1));
    }

    let (open, gclk0, pclk) = closed.to_open_mode(gclk0);
    assert_eq!(open.count(), 1);
    assert_eq!(open.freq().0, 48_000_000);
    assert_eq!(pclk.freq(), Hertz(1_000));
    {
        let token = open.get().token();
        assert!(token.is_enabled());
        assert!(!token.is_closed_mode());
        assert_eq!(token.journal().len(), 16);
        assert_eq!(token.journal()[12], DfllAccess::Write(DfllField::Mode, 0));
        assert_eq!(token.journal()[14], DfllAccess::Write(DfllField::Enable, 1));
    }
    let open = gclk0.free(open);
    assert_eq!(open.count(), 0);
}

#[test]
fn closed_loop_gives_back_token_and_reference() {
    let dfll: Dfll<ClosedLoop<Gen1>> =
        Dfll::in_closed_mode(token(0), reference(123_456), 2, 3, 4);
    let (token, pclk) = dfll.free();
    assert_eq!(pclk.freq().0, 123_456);
    assert!(token.journal().is_empty());
    assert!(!token.is_enabled());
    let open: Dfll<OpenLoop> = Dfll::in_open_mode(token);
    assert_eq!(open.freq().0, 48_000_000);
}

#[test]
fn standby_and_on_demand_touch_no_register() {
    let mut dfll = Dfll::in_open_mode(token(0));
    dfll.set_standby_sleep_mode(true);
    dfll.set_on_demand_mode(true);
    assert_eq!(dfll.freq().0, 48_000_000);
    assert!(dfll.token().journal().is_empty());
}
