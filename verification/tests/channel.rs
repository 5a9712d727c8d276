use atsamd::dmac::channel::{
    split, transition, Channel, InterruptFlags, Operation, StatusKind, Uninitialized,
};
use atsamd::dmac::dma_controller::{
    BurstLength, FifoThreshold, PriorityLevel, TriggerAction, TriggerSource,
};
use atsamd::pac::atsamd11c14a::{Peripherals, DMAC};
use atsamd::dmac::registers::{
    Access, ChannelRegisters, Field, Layout, RegisterBlock,
};

fn dmac_peripheral() -> DMAC {
    let mut taken = false;
    Peripherals::take(&mut taken).unwrap().DMAC
}

fn shared() -> RegisterBlock {
    RegisterBlock::new(dmac_peripheral(), Layout::SharedSelector, 6, 2).ok().unwrap()
}

fn per_channel() -> RegisterBlock {
    RegisterBlock::new(dmac_peripheral(), Layout::PerChannel, 32, 3).ok().unwrap()
}

fn chan(dmac: &mut RegisterBlock, id: usize) -> Channel<Uninitialized> {
    split(dmac).unwrap().into_iter().nth(id).unwrap()
}

#[test]
fn channels_are_handed_out_once() {
    let mut dmac = shared();
    assert!(!dmac.is_split());
    let channels = split(&mut dmac).unwrap();
    assert!(dmac.is_split());
    assert_eq!(channels.len(), 6);
    for (place, channel) in channels.iter().enumerate() {
        assert_eq!(channel.id() as usize, place);
    }
    assert!(split(&mut dmac).is_none());
    assert!(split(&mut dmac).is_none());
    assert!(dmac.journal().is_empty());
    let mut dmac = per_channel();
    assert_eq!(split(&mut dmac).unwrap().len(), 32);
}

#[test]
fn register_block_needs_one_to_thirty_two_channels() {
    let peripheral = dmac_peripheral();
    let peripheral = RegisterBlock::new(peripheral, Layout::SharedSelector, 0, 0).err().unwrap();
    let peripheral = RegisterBlock::new(peripheral, Layout::PerChannel, 33, 0).err().unwrap();
    let peripheral = RegisterBlock::new(peripheral, Layout::PerChannel, 255, 0).err().unwrap();
    assert!(RegisterBlock::new(peripheral, Layout::PerChannel, 1, 0).is_ok());
    let dmac = RegisterBlock::new(dmac_peripheral(), Layout::SharedSelector, 32, 7).ok().unwrap();
    assert_eq!(dmac.channel_count(), 32);
    assert_eq!(dmac.layout(), Layout::SharedSelector);
    assert!(!dmac.masked());
    assert_eq!(dmac.selector(), 0);
    assert!(dmac.journal().is_empty());
    assert_eq!(dmac.channel(31), ChannelRegisters::new());
}

#[test]
fn init_resets_then_sets_priority_shared_selector() {
    let mut dmac = shared();
    let ch = chan(&mut dmac, 3);
    assert_eq!(ch.id(), 3);
    let ch = ch.init(&mut dmac, PriorityLevel::LVL2);
    assert_eq!(ch.id(), 3);
    assert_eq!(
        dmac.journal().as_slice(),
        &[
            Access::Enter,
            Access::Select(3),
            Access::Write(3, Field::SoftwareReset, 1),
            Access::AwaitReset(3),
            Access::Leave,
            Access::Enter,
            Access::Select(3),
            Access::Write(3, Field::Priority, 2),
            Access::Leave,
        ]
    );
    let regs = dmac.channel(3);
    assert_eq!(regs.priority, 2);
    assert_eq!(regs.reset_reads, 0);
    assert!(!regs.enable);
    assert!(!dmac.masked());
    assert_eq!(dmac.selector(), 3);
    assert_eq!(dmac.channel(2), ChannelRegisters::new());
}

#[test]
fn init_masks_nothing_with_per_channel_blocks() {
    let mut dmac = per_channel();
    let _ready = chan(&mut dmac, 17).init(&mut dmac, PriorityLevel::LVL3);
    assert_eq!(
        dmac.journal().as_slice(),
        &[
            Access::Write(17, Field::SoftwareReset, 1),
            Access::AwaitReset(17),
            Access::Write(17, Field::Priority, 3),
        ]
    );
    assert_eq!(dmac.channel(17).priority, 3);
    assert_eq!(dmac.selector(), 0);
    assert!(!dmac.masked());
}

#[test]
fn init_clears_what_the_channel_held() {
    let mut dmac = shared();
    let mut ch = chan(&mut dmac, 1);
    ch.enable_interrupts(&mut dmac, InterruptFlags::new().with_tcmpl(true));
    dmac.raise_flags(1, 0b101);
    dmac.script_status(1, 4, 4);
    assert_eq!(dmac.channel(1).interrupts, 0b010);
    let _ready = ch.init(&mut dmac, PriorityLevel::LVL0);
    assert_eq!(dmac.channel(1), ChannelRegisters::new());
}

#[test]
fn a_masked_processor_stays_masked() {
    let mut dmac = shared();
    dmac.set_masked(true);
    let ready = chan(&mut dmac, 0).init(&mut dmac, PriorityLevel::LVL1);
    assert!(dmac.masked());
    let _busy = ready.start(&mut dmac, TriggerSource::SERCOM0_RX, TriggerAction::BLOCK);
    assert!(dmac.masked());
    dmac.set_masked(false);
    assert!(!dmac.masked());
}

#[test]
fn reset_is_awaited_whatever_its_delay() {
    for delay in [0u8, 1, 255] {
        let mut dmac =
            RegisterBlock::new(dmac_peripheral(), Layout::PerChannel, 2, delay).ok().unwrap();
        let ready = chan(&mut dmac, 1).init(&mut dmac, PriorityLevel::LVL1);
        assert_eq!(dmac.channel(1).reset_reads, 0);
        assert_eq!(dmac.journal()[1], Access::AwaitReset(1));
        let _fresh = ready.reset(&mut dmac);
        assert_eq!(dmac.channel(1).reset_reads, 0);
        assert_eq!(dmac.journal().last(), Some(&Access::AwaitReset(1)));
    }
}

#[test]
fn interrupts_touch_only_the_named_bits() {
    let mut dmac = shared();
    let mut ch = chan(&mut dmac, 2).init(&mut dmac, PriorityLevel::LVL0);
    ch.enable_interrupts(&mut dmac, InterruptFlags::new().with_terr(true).with_susp(true));
    assert_eq!(dmac.channel(2).interrupts, 0b101);
    ch.enable_interrupts(&mut dmac, InterruptFlags::new().with_tcmpl(true));
    assert_eq!(dmac.channel(2).interrupts, 0b111);
    ch.disable_interrupts(&mut dmac, InterruptFlags::new().with_terr(true));
    assert_eq!(dmac.channel(2).interrupts, 0b110);
    ch.disable_interrupts(&mut dmac, InterruptFlags::new());
    assert_eq!(dmac.channel(2).interrupts, 0b110);
    let n = dmac.journal().len();
    assert_eq!(
        &dmac.journal()[n - 4..],
        &[
            Access::Enter,
            Access::Select(2),
            Access::Write(2, Field::InterruptEnableClear, 0),
            Access::Leave,
        ]
    );
    let mut busy = ch.start(&mut dmac, TriggerSource::SERCOM1_TX, TriggerAction::BURST);
    busy.enable_interrupts(&mut dmac, InterruptFlags::new().with_terr(true));
    assert_eq!(dmac.channel(2).interrupts, 0b111);
}

#[test]
fn interrupt_flags_bits() {
    assert_eq!(InterruptFlags::new().bits(), 0);
    assert_eq!(InterruptFlags::new().with_terr(true).bits(), 1);
    assert_eq!(InterruptFlags::new().with_tcmpl(true).bits(), 2);
    assert_eq!(InterruptFlags::new().with_susp(true).bits(), 4);
    let mut all = InterruptFlags::new();
    all.set_terr(true);
    all.set_tcmpl(true);
    all.set_susp(true);
    assert_eq!(all.bits(), 7);
    assert!(all.terr() && all.tcmpl() && all.susp());
    all.set_tcmpl(false);
    assert_eq!(all.bits(), 5);
    assert!(!all.tcmpl());
    assert_eq!(all.with_terr(false).with_susp(false).with_tcmpl(true).bits(), 2);
    assert_eq!(u8::from(InterruptFlags::new().with_tcmpl(true).with_susp(true)), 6);
    assert_eq!(InterruptFlags::from(0b1111_1101u8), InterruptFlags::new().with_terr(true).with_susp(true));
    for bits in 0..=255u8 {
        let flags = InterruptFlags::from_bits(bits);
        assert_eq!(flags.bits(), bits & 7);
        assert_eq!(flags.terr(), bits & 1 != 0);
        assert_eq!(flags.tcmpl(), bits & 2 != 0);
        assert_eq!(flags.susp(), bits & 4 != 0);
    }
}

#[test]
fn start_without_source_issues_a_software_trigger() {
    let mut dmac = shared();
    let ready = chan(&mut dmac, 5).init(&mut dmac, PriorityLevel::LVL1);
    let before = dmac.journal().len();
    let busy = ready.start(&mut dmac, TriggerSource::DISABLE, TriggerAction::TRANSACTION);
    assert_eq!(busy.id(), 5);
    assert_eq!(
        &dmac.journal()[before..],
        &[
            Access::Enter,
            Access::Select(5),
            Access::Write(5, Field::TriggerSource, 0),
            Access::Write(5, Field::TriggerAction, 3),
            Access::Write(5, Field::Enable, 1),
            Access::Leave,
            Access::Trigger(5),
        ]
    );
    let regs = dmac.channel(5);
    assert!(regs.enable);
    assert_eq!(regs.trigger_source, 0);
    assert_eq!(regs.trigger_action, 3);
    assert_eq!(regs.priority, 1);
}

#[test]
fn start_with_a_source_issues_no_trigger() {
    let mut dmac = per_channel();
    let ready = chan(&mut dmac, 9).init(&mut dmac, PriorityLevel::LVL0);
    let before = dmac.journal().len();
    let mut busy = ready.start(&mut dmac, TriggerSource::SERCOM2_TX, TriggerAction::BURST);
    assert_eq!(
        &dmac.journal()[before..],
        &[
            Access::Write(9, Field::TriggerSource, 6),
            Access::Write(9, Field::TriggerAction, 2),
            Access::Write(9, Field::Enable, 1),
        ]
    );
    assert_eq!(dmac.channel(9).trigger_source, 6);
    assert_eq!(dmac.channel(9).trigger_action, 2);
    busy.software_trigger(&mut dmac);
    assert_eq!(dmac.journal().last(), Some(&Access::Trigger(9)));
}

#[test]
fn xfer_complete_needs_both_bits_clear() {
    for (pending, busy, complete) in
        [(0u16, 0u16, true), (1, 0, false), (0, 1, false), (1, 1, false)]
    {
        let mut dmac = shared();
        let ch = chan(&mut dmac, 4)
            .init(&mut dmac, PriorityLevel::LVL0)
            .start(&mut dmac, TriggerSource::SERCOM0_TX, TriggerAction::BLOCK);
        dmac.script_status(4, pending, busy);
        let journal = dmac.journal().len();
        assert_eq!(ch.xfer_complete(&mut dmac), complete);
        assert_eq!(dmac.journal().len(), journal);
        assert!(ch.xfer_complete(&mut dmac));
    }
}

#[test]
fn status_bits_read_as_set_for_their_counts() {
    let mut dmac = per_channel();
    let busy = chan(&mut dmac, 0)
        .init(&mut dmac, PriorityLevel::LVL0)
        .start(&mut dmac, TriggerSource::SERCOM4_RX, TriggerAction::BLOCK);
    dmac.script_status(0, 2, 1);
    assert_eq!(dmac.channel(0).pending_reads, 2);
    assert!(!busy.xfer_complete(&mut dmac));
    assert_eq!((dmac.channel(0).pending_reads, dmac.channel(0).busy_reads), (1, 0));
    assert!(!busy.xfer_complete(&mut dmac));
    assert_eq!((dmac.channel(0).pending_reads, dmac.channel(0).busy_reads), (0, 0));
    assert!(busy.xfer_complete(&mut dmac));
    assert!(busy.xfer_complete(&mut dmac));
}

#[test]
fn free_returns_at_the_first_idle_read() {
    let mut dmac = shared();
    let busy = chan(&mut dmac, 1)
        .init(&mut dmac, PriorityLevel::LVL0)
        .start(&mut dmac, TriggerSource::DISABLE, TriggerAction::BLOCK);
    dmac.script_status(1, 3, 5);
    dmac.script_status(2, 9, 9);
    let ready = busy.free(&mut dmac);
    assert_eq!(ready.id(), 1);
    assert_eq!(dmac.journal().last(), Some(&Access::AwaitIdle(1, 5)));
    assert_eq!(dmac.channel(1).pending_reads, 0);
    assert_eq!(dmac.channel(1).busy_reads, 0);
    assert!(dmac.channel(1).enable);
    assert_eq!(dmac.channel(2).pending_reads, 9);
    assert_eq!(dmac.channel(2).busy_reads, 9);
}

#[test]
fn free_of_an_idle_channel_reads_once() {
    let mut dmac = per_channel();
    let busy = chan(&mut dmac, 0)
        .init(&mut dmac, PriorityLevel::LVL0)
        .start(&mut dmac, TriggerSource::SERCOM5_RX, TriggerAction::BLOCK);
    let _ready = busy.free(&mut dmac);
    assert_eq!(dmac.journal().last(), Some(&Access::AwaitIdle(0, 0)));
}

#[test]
fn free_waits_through_the_longest_count() {
    let mut dmac = per_channel();
    let busy = chan(&mut dmac, 0)
        .init(&mut dmac, PriorityLevel::LVL0)
        .start(&mut dmac, TriggerSource::SERCOM5_RX, TriggerAction::BLOCK);
    dmac.script_status(0, 65535, 2);
    let _ready = busy.free(&mut dmac);
    assert_eq!(dmac.journal().last(), Some(&Access::AwaitIdle(0, 65535)));
    assert_eq!(dmac.channel(0).pending_reads, 0);
}

#[test]
fn stop_disables_at_once_and_does_not_wait() {
    let mut dmac = shared();
    let busy = chan(&mut dmac, 2)
        .init(&mut dmac, PriorityLevel::LVL0)
        .start(&mut dmac, TriggerSource::SERCOM3_RX, TriggerAction::BLOCK);
    dmac.script_status(2, 4, 2);
    assert!(!busy.xfer_complete(&mut dmac));
    let before = dmac.journal().len();
    let ready = busy.stop(&mut dmac);
    assert_eq!(ready.id(), 2);
    assert_eq!(
        &dmac.journal()[before..],
        &[Access::Enter, Access::Select(2), Access::Write(2, Field::Enable, 0), Access::Leave]
    );
    let regs = dmac.channel(2);
    assert!(!regs.enable);
    assert_eq!((regs.pending_reads, regs.busy_reads), (3, 1));
    assert_eq!(regs.trigger_source, 7);
    assert_eq!(regs.trigger_action, 0);
    assert!(!dmac.masked());
}

#[test]
fn stop_with_per_channel_blocks() {
    let mut dmac = per_channel();
    let busy = chan(&mut dmac, 30)
        .init(&mut dmac, PriorityLevel::LVL2)
        .start(&mut dmac, TriggerSource::SERCOM0_TX, TriggerAction::BURST);
    dmac.script_status(30, 0, 9);
    let before = dmac.journal().len();
    let ready = busy.stop(&mut dmac);
    assert_eq!(&dmac.journal()[before..], &[Access::Write(30, Field::Enable, 0)]);
    assert!(!dmac.channel(30).enable);
    assert_eq!(dmac.channel(30).busy_reads, 9);
    assert_eq!(dmac.channel(30).priority, 2);
    let _busy = ready.start(&mut dmac, TriggerSource::DISABLE, TriggerAction::BLOCK);
    assert!(dmac.channel(30).enable);
}

#[test]
fn init_then_reset_is_a_fresh_channel() {
    let mut dmac = shared();
    let fresh = chan(&mut dmac, 3);
    let id = fresh.id();
    let mut ready = fresh.init(&mut dmac, PriorityLevel::LVL3);
    ready.enable_interrupts(&mut dmac, InterruptFlags::new().with_susp(true));
    let again = ready.reset(&mut dmac);
    assert_eq!(again.id(), id);
    assert_eq!(dmac.channel(3), ChannelRegisters::new());
    let n = dmac.journal().len();
    assert_eq!(
        &dmac.journal()[n - 5..],
        &[
            Access::Enter,
            Access::Select(3),
            Access::Write(3, Field::SoftwareReset, 1),
            Access::AwaitReset(3),
            Access::Leave,
        ]
    );
    let ready = again.init(&mut dmac, PriorityLevel::LVL1);
    assert_eq!(dmac.channel(3).priority, 1);
    let _busy = ready.start(&mut dmac, TriggerSource::DISABLE, TriggerAction::BLOCK);
}

#[test]
fn fifo_threshold_and_burst_length() {
    let mut dmac = per_channel();
    let mut ready = chan(&mut dmac, 7).init(&mut dmac, PriorityLevel::LVL0);
    ready.fifo_threshold(&mut dmac, FifoThreshold::BEATS4);
    assert_eq!(dmac.channel(7).fifo_threshold, 2);
    assert_eq!(dmac.journal().last(), Some(&Access::Write(7, Field::FifoThreshold, 2)));
    ready.burst_length(&mut dmac, BurstLength::new(16).unwrap());
    assert_eq!(dmac.channel(7).burst_length, 15);
    assert_eq!(dmac.journal().last(), Some(&Access::Write(7, Field::BurstLength, 15)));
    ready.burst_length(&mut dmac, BurstLength::new(1).unwrap());
    assert_eq!(dmac.channel(7).burst_length, 0);
    assert_eq!(dmac.channel(7).fifo_threshold, 2);
}

#[test]
fn burst_length_is_one_to_sixteen_beats() {
    assert!(BurstLength::new(0).is_none());
    assert!(BurstLength::new(17).is_none());
    assert_eq!(BurstLength::new(1).unwrap().bits(), 0);
    assert_eq!(BurstLength::new(8).unwrap().bits(), 7);
    assert_eq!(FifoThreshold::BEATS1.bits(), 0);
    assert_eq!(FifoThreshold::BEATS2.bits(), 1);
    assert_eq!(FifoThreshold::BEATS8.bits(), 3);
}

#[test]
fn field_values_of_the_enumerations() {
    assert_eq!(PriorityLevel::LVL0.bits(), 0);
    assert_eq!(PriorityLevel::LVL1.bits(), 1);
    assert_eq!(PriorityLevel::LVL2.bits(), 2);
    assert_eq!(PriorityLevel::LVL3.bits(), 3);
    assert_eq!(TriggerSource::DISABLE.bits(), 0);
    assert_eq!(TriggerSource::SERCOM0_RX.bits(), 1);
    assert_eq!(TriggerSource::SERCOM5_TX.bits(), 12);
    assert_eq!(TriggerAction::BLOCK.bits(), 0);
    assert_eq!(TriggerAction::BURST.bits(), 2);
    assert_eq!(TriggerAction::TRANSACTION.bits(), 3);
}

#[test]
fn callback_acknowledges_the_raised_flags() {
    let mut dmac = shared();
    let mut busy = chan(&mut dmac, 0)
        .init(&mut dmac, PriorityLevel::LVL0)
        .start(&mut dmac, TriggerSource::SERCOM0_RX, TriggerAction::BLOCK);
    dmac.raise_flags(0, 0b011);
    dmac.raise_flags(1, 0b100);
    let before = dmac.journal().len();
    busy.callback(&mut dmac);
    assert_eq!(dmac.channel(0).flags, 0);
    assert_eq!(dmac.channel(1).flags, 0b100);
    assert_eq!(
        &dmac.journal()[before..],
        &[
            Access::Enter,
            Access::Select(0),
            Access::Write(0, Field::InterruptFlag, 0b011),
            Access::Leave,
        ]
    );
    let before = dmac.journal().len();
    busy.callback(&mut dmac);
    assert_eq!(
        &dmac.journal()[before..],
        &[Access::Enter, Access::Select(0), Access::Leave]
    );
}

#[test]
fn lifecycle_table() {
    let all = [
        Operation::Init,
        Operation::EnableInterrupts,
        Operation::DisableInterrupts,
        Operation::FifoThreshold,
        Operation::BurstLength,
        Operation::Reset,
        Operation::Start,
        Operation::SoftwareTrigger,
        Operation::XferComplete,
        Operation::Stop,
        Operation::Free,
    ];
    for op in all {
        let expected = match op {
            Operation::Init => Some(StatusKind::Ready),
            Operation::EnableInterrupts | Operation::DisableInterrupts => {
                Some(StatusKind::Uninitialized)
            }
            _ => None,
        };
        assert_eq!(transition(StatusKind::Uninitialized, op), expected);
        let expected = match op {
            Operation::FifoThreshold
            | Operation::BurstLength
            | Operation::EnableInterrupts
            | Operation::DisableInterrupts => Some(StatusKind::Ready),
            Operation::Reset => Some(StatusKind::Uninitialized),
            Operation::Start => Some(StatusKind::Busy),
            _ => None,
        };
        assert_eq!(transition(StatusKind::Ready, op), expected);
        let expected = match op {
            Operation::SoftwareTrigger
            | Operation::XferComplete
            | Operation::EnableInterrupts
            | Operation::DisableInterrupts => Some(StatusKind::Busy),
            Operation::Stop | Operation::Free => Some(StatusKind::Ready),
            _ => None,
        };
        assert_eq!(transition(StatusKind::Busy, op), expected);
    }
    assert_eq!(
        transition(transition(StatusKind::Uninitialized, Operation::Init).unwrap(), Operation::Reset),
        Some(StatusKind::Uninitialized)
    );
}

#[test]
fn channel_registers_write() {
    let regs = ChannelRegisters::new();
    let regs = regs.write(Field::Enable, 1, 0);
    assert!(regs.enable);
    let regs = regs.write(Field::TriggerSource, 12, 0).write(Field::TriggerAction, 3, 0);
    assert_eq!((regs.trigger_source, regs.trigger_action), (12, 3));
    let regs = regs.write(Field::InterruptEnableSet, 0b110, 0);
    let regs = regs.write(Field::InterruptEnableClear, 0b010, 0);
    assert_eq!(regs.interrupts, 0b100);
    let regs = regs.write(Field::SoftwareReset, 1, 9);
    assert_eq!(regs.reset_reads, 9);
    assert_eq!(regs.interrupts, 0);
    assert!(!regs.enable);
}
