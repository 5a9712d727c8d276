//! The register gateway of the DMA controller.
//!
//! [`RegisterBlock`] is an executable model of what a driver may observe of
//! the controller, made from the controller's peripheral, of which there is
//! one: the control fields of each channel, the channel selector,
//! whether interrupts are masked, and a journal of every access that was made,
//! in order. Channels work on the model; a board support layer replays the
//! journal against the device.
//!
//! The datasheet's rules of use are preconditions here. On a controller whose
//! channels share one selector, the control fields of a channel may be touched
//! only between `enter` and `leave`, that is with interrupts masked and the
//! selector on that channel. On a controller with one register block per
//! channel there is nothing to select and nothing is masked. Only the
//! channels of this crate touch the registers; what is public here is what a
//! driver may read of the model, and what the hardware does to it.
//!
//! Status bits that the hardware clears by itself are modelled as counts of
//! reads: a bit reads as set for as many further reads as its count says.

use vstd::prelude::*;
use crate::pac::atsamd11c14a::DMAC;
use super::dma_controller::MAX_CHANNELS;

verus! {

/// How the controller lays out the control registers of its channels.
#[derive(Clone, Copy, Debug, PartialEq, Eq, Structural)]
pub enum Layout {
    /// One set of control registers, switched between the channels by a
    /// selector that all channels share.
    SharedSelector,
    /// A register block of its own for each channel.
    PerChannel,
}

/// A control field of a channel.
#[derive(Clone, Copy, Debug, PartialEq, Eq, Structural)]
pub enum Field {
    SoftwareReset,
    Enable,
    Priority,
    TriggerSource,
    TriggerAction,
    InterruptEnableSet,
    InterruptEnableClear,
    InterruptFlag,
    FifoThreshold,
    BurstLength,
}

/// One access to the controller, as the journal records it.
#[derive(Clone, Copy, Debug, PartialEq, Eq, Structural)]
pub enum Access {
    /// Interrupts were masked.
    Enter,
    /// The interrupt mask was put back as `Enter` had found it.
    Leave,
    /// The selector was set to the channel.
    Select(u8),
    /// The value was written to the field of the channel.
    Write(u8, Field, u8),
    /// A software trigger was issued to the channel.
    Trigger(u8),
    /// The driver spun until the channel's reset bit read as clear.
    AwaitReset(u8),
    /// The driver spun until the channel read as neither pending nor busy;
    /// the number counts the reads that found it pending or busy.
    AwaitIdle(u8, u32),
}

/// The two status bits of a channel, as one read finds them.
#[derive(Clone, Copy, Debug, PartialEq, Eq, Structural)]
pub struct ChannelStatus {
    /// A trigger was accepted and the channel waits for the bus.
    pub pending: bool,
    /// The channel is moving data.
    pub busy: bool,
}

/// The registers of one channel, field by field.
#[derive(Clone, Copy, Debug, PartialEq, Eq, Structural)]
pub struct ChannelRegisters {
    pub enable: bool,
    pub priority: u8,
    pub trigger_source: u8,
    pub trigger_action: u8,
    /// The interrupt sources that are enabled, one bit each.
    pub interrupts: u8,
    /// The interrupt flags that are raised, one bit each.
    pub flags: u8,
    pub fifo_threshold: u8,
    pub burst_length: u8,
    /// Number of further reads for which the reset bit reads as set.
    pub reset_reads: u8,
    /// Number of further reads for which the channel reads as pending.
    pub pending_reads: u16,
    /// Number of further reads for which the channel reads as busy.
    pub busy_reads: u16,
}

impl ChannelRegisters {
    /// The registers of a channel as a reset leaves them.
    pub open spec fn startup() -> ChannelRegisters {
        ChannelRegisters {
            enable: false,
            priority: 0,
            trigger_source: 0,
            trigger_action: 0,
            interrupts: 0,
            flags: 0,
            fifo_threshold: 0,
            burst_length: 0,
            reset_reads: 0,
            pending_reads: 0,
            busy_reads: 0,
        }
    }

    /// The registers after `value` was written to `field`. A reset takes
    /// `reset_delay` reads to complete. The enable-set, enable-clear and flag
    /// fields act on the bits that `value` names and on no others.
    pub open spec fn written(self, field: Field, value: u8, reset_delay: u8) -> ChannelRegisters {
        match field {
            Field::SoftwareReset => if value != 0 {
                ChannelRegisters { reset_reads: reset_delay, ..ChannelRegisters::startup() }
            } else {
                self
            },
            Field::Enable => ChannelRegisters { enable: value != 0, ..self },
            Field::Priority => ChannelRegisters { priority: value, ..self },
            Field::TriggerSource => ChannelRegisters { trigger_source: value, ..self },
            Field::TriggerAction => ChannelRegisters { trigger_action: value, ..self },
            Field::InterruptEnableSet => ChannelRegisters {
                interrupts: self.interrupts | value,
                ..self
            },
            Field::InterruptEnableClear => ChannelRegisters {
                interrupts: self.interrupts & !value,
                ..self
            },
            Field::InterruptFlag => ChannelRegisters { flags: self.flags & !value, ..self },
            Field::FifoThreshold => ChannelRegisters { fifo_threshold: value, ..self },
            Field::BurstLength => ChannelRegisters { burst_length: value, ..self },
        }
    }

    /// What a read of the status bits finds.
    pub open spec fn status(self) -> ChannelStatus {
        ChannelStatus { pending: self.pending_reads > 0, busy: self.busy_reads > 0 }
    }

    /// Whether the channel reads as neither pending nor busy.
    pub open spec fn idle(self) -> bool {
        self.pending_reads == 0 && self.busy_reads == 0
    }

    /// The registers after one read of the status bits.
    pub open spec fn polled(self) -> ChannelRegisters {
        ChannelRegisters {
            pending_reads: if self.pending_reads > 0 {
                (self.pending_reads - 1) as u16
            } else {
                0
            },
            busy_reads: if self.busy_reads > 0 {
                (self.busy_reads - 1) as u16
            } else {
                0
            },
            ..self
        }
    }

    /// Number of reads of the status bits that find the channel pending or
    /// busy, before the first that finds it idle.
    pub open spec fn reads_until_idle(self) -> int {
        if self.pending_reads >= self.busy_reads {
            self.pending_reads as int
        } else {
            self.busy_reads as int
        }
    }

    /// The registers of a channel as a reset leaves them.
    pub fn new() -> (r: ChannelRegisters)
        ensures
            r == ChannelRegisters::startup(),
    {
        ChannelRegisters {
            enable: false,
            priority: 0,
            trigger_source: 0,
            trigger_action: 0,
            interrupts: 0,
            flags: 0,
            fifo_threshold: 0,
            burst_length: 0,
            reset_reads: 0,
            pending_reads: 0,
            busy_reads: 0,
        }
    }

    /// Writes `value` to `field`.
    pub fn write(self, field: Field, value: u8, reset_delay: u8) -> (r: ChannelRegisters)
        ensures
            r == self.written(field, value, reset_delay),
    {
        let mut r = self;
        match field {
            Field::SoftwareReset => {
                if value != 0 {
                    r = ChannelRegisters::new();
                    r.reset_reads = reset_delay;
                }
            },
            Field::Enable => {
                r.enable = value != 0;
            },
            Field::Priority => {
                r.priority = value;
            },
            Field::TriggerSource => {
                r.trigger_source = value;
            },
            Field::TriggerAction => {
                r.trigger_action = value;
            },
            Field::InterruptEnableSet => {
                r.interrupts = self.interrupts | value;
            },
            Field::InterruptEnableClear => {
                r.interrupts = self.interrupts & !value;
            },
            Field::InterruptFlag => {
                r.flags = self.flags & !value;
            },
            Field::FifoThreshold => {
                r.fifo_threshold = value;
            },
            Field::BurstLength => {
                r.burst_length = value;
            },
        }
        r
    }
}

/// The registers of a channel after `reads` reads of its status bits.
pub open spec fn polled_times(regs: ChannelRegisters, reads: nat) -> ChannelRegisters
    decreases reads,
{
    if reads == 0 {
        regs
    } else {
        polled_times(regs.polled(), (reads - 1) as nat)
    }
}

/// A channel is idle exactly when a read finds it neither pending nor busy.
pub proof fn idle_means_both_bits_clear(regs: ChannelRegisters)
    ensures
        regs.idle() == (!regs.status().pending && !regs.status().busy),
{
}

/// What a wait for a channel to be idle goes through: each of the first
/// `reads_until_idle()` reads finds the channel pending or busy, and the next
/// finds it idle. After that read the channel has no read left for which it
/// would be pending or busy.
pub proof fn first_idle_read(regs: ChannelRegisters)
    ensures
        forall|reads: nat|
            reads < regs.reads_until_idle() ==> !(#[trigger] polled_times(regs, reads)).idle(),
        polled_times(regs, regs.reads_until_idle() as nat).idle(),
        polled_times(regs, (regs.reads_until_idle() + 1) as nat) == (ChannelRegisters {
            pending_reads: 0,
            busy_reads: 0,
            ..regs
        }),
{
    assert forall|reads: nat| reads <= regs.reads_until_idle() + 1 implies #[trigger] polled_times(
        regs,
        reads,
    ) == after_reads(regs, reads) by {
        polled_times_counts_down(regs, reads);
    }
}

/// The registers of a channel with each status count lowered by `reads`, and
/// not below zero.
pub open spec fn after_reads(regs: ChannelRegisters, reads: nat) -> ChannelRegisters {
    ChannelRegisters {
        pending_reads: if regs.pending_reads > reads {
            (regs.pending_reads - reads) as u16
        } else {
            0
        },
        busy_reads: if regs.busy_reads > reads {
            (regs.busy_reads - reads) as u16
        } else {
            0
        },
        ..regs
    }
}

/// Each read of the status bits lowers each status count by one, and not
/// below zero.
pub proof fn polled_times_counts_down(regs: ChannelRegisters, reads: nat)
    ensures
        polled_times(regs, reads) == after_reads(regs, reads),
    decreases reads,
{
    if reads > 0 {
        polled_times_counts_down(regs.polled(), (reads - 1) as nat);
    }
}

/// What a [`RegisterBlock`] holds, as contracts speak of it.
pub struct RegisterState {
    pub layout: Layout,
    /// Number of reads that a software reset takes to complete.
    pub reset_delay: u8,
    /// Whether interrupts are masked.
    pub masked: bool,
    /// Whether the handles of the channels were handed out.
    pub split: bool,
    /// The channel that the shared selector is on.
    pub selector: u8,
    pub channels: Seq<ChannelRegisters>,
    pub journal: Seq<Access>,
}

impl RegisterState {
    /// The controller has at least one channel, and a status bit for each.
    pub open spec fn wf(self) -> bool {
        0 < self.channels.len() <= MAX_CHANNELS
    }

    /// Whether the controller has a channel `id`.
    pub open spec fn has(self, id: u8) -> bool {
        (id as int) < self.channels.len()
    }

    /// Whether the control fields of channel `id` may be touched.
    pub open spec fn accessible(self, id: u8) -> bool {
        self.layout == Layout::PerChannel || (self.masked && self.selector == id)
    }

    /// The state once access to channel `id` was opened.
    pub open spec fn entered(self, id: u8) -> RegisterState {
        match self.layout {
            Layout::SharedSelector => RegisterState {
                masked: true,
                selector: id,
                journal: self.journal.push(Access::Enter).push(Access::Select(id)),
                ..self
            },
            Layout::PerChannel => self,
        }
    }

    /// The state once access was closed, by one who had found interrupts
    /// masked, or not, when opening it.
    pub open spec fn left(self, was_masked: bool) -> RegisterState {
        match self.layout {
            Layout::SharedSelector => RegisterState {
                masked: was_masked,
                journal: self.journal.push(Access::Leave),
                ..self
            },
            Layout::PerChannel => self,
        }
    }

    /// The state with other registers for channel `id`.
    pub open spec fn with_channel(self, id: u8, regs: ChannelRegisters) -> RegisterState {
        RegisterState { channels: self.channels.update(id as int, regs), ..self }
    }

    /// The state with `access` added to the journal.
    pub open spec fn noted(self, access: Access) -> RegisterState {
        RegisterState { journal: self.journal.push(access), ..self }
    }

    /// The state once `value` was written to `field` of channel `id`.
    pub open spec fn wrote(self, id: u8, field: Field, value: u8) -> RegisterState {
        self.with_channel(
            id,
            self.channels[id as int].written(field, value, self.reset_delay),
        ).noted(Access::Write(id, field, value))
    }

    /// The state once a wait for the reset of channel `id` returned.
    pub open spec fn reset_awaited(self, id: u8) -> RegisterState {
        self.with_channel(
            id,
            ChannelRegisters { reset_reads: 0, ..self.channels[id as int] },
        ).noted(Access::AwaitReset(id))
    }

    /// The state once the status bits of channel `id` were read.
    pub open spec fn polled(self, id: u8) -> RegisterState {
        self.with_channel(id, self.channels[id as int].polled())
    }

    /// The state once a wait for channel `id` to be idle returned.
    pub open spec fn idle_awaited(self, id: u8) -> RegisterState {
        self.with_channel(
            id,
            ChannelRegisters { pending_reads: 0, busy_reads: 0, ..self.channels[id as int] },
        ).noted(Access::AwaitIdle(id, self.channels[id as int].reads_until_idle() as u32))
    }
}

/// The registers of a DMA controller.
pub struct RegisterBlock {
    _peripheral: DMAC,
    layout: Layout,
    reset_delay: u8,
    masked: bool,
    split: bool,
    selector: u8,
    channels: Vec<ChannelRegisters>,
    journal: Vec<Access>,
}

impl View for RegisterBlock {
    type V = RegisterState;

    closed spec fn view(&self) -> RegisterState {
        RegisterState {
            layout: self.layout,
            reset_delay: self.reset_delay,
            masked: self.masked,
            split: self.split,
            selector: self.selector,
            channels: self.channels@,
            journal: self.journal@,
        }
    }
}

impl RegisterBlock {
    /// The registers of the controller `peripheral`, which has `channels`
    /// channels: all in their startup state, with interrupts unmasked, an
    /// empty journal, and the handles of the channels not handed out yet.
    /// The peripheral is taken: there is one of it, so there is one model of
    /// its registers. No controller is without a channel, nor has one more
    /// channels than a status word has bits: then the peripheral comes back.
    pub fn new(peripheral: DMAC, layout: Layout, channels: u8, reset_delay: u8) -> (r: Result<
        RegisterBlock,
        DMAC,
    >)
        ensures
            r.is_ok() == (0 < channels <= MAX_CHANNELS),
            r matches Ok(block) ==> block@.wf() && block@ == (RegisterState {
                layout,
                reset_delay,
                masked: false,
                split: false,
                selector: 0,
                channels: Seq::new(channels as nat, |i: int| ChannelRegisters::startup()),
                journal: Seq::empty(),
            }),
    {
        if channels == 0 || channels > MAX_CHANNELS {
            return Err(peripheral);
        }
        let mut regs: Vec<ChannelRegisters> = Vec::new();
        let mut i: u8 = 0;
        while i < channels
            invariant
                i <= channels,
                regs@ == Seq::new(i as nat, |k: int| ChannelRegisters::startup()),
            decreases channels - i,
        {
            regs.push(ChannelRegisters::new());
            i += 1;
            assert(regs@ =~= Seq::new(i as nat, |k: int| ChannelRegisters::startup()));
        }
        let block = RegisterBlock {
            _peripheral: peripheral,
            layout,
            reset_delay,
            masked: false,
            split: false,
            selector: 0,
            channels: regs,
            journal: Vec::new(),
        };
        assert(block@.journal =~= Seq::empty());
        Ok(block)
    }

    /// How the controller lays out its channels.
    pub fn layout(&self) -> (l: Layout)
        ensures
            l == self@.layout,
    {
        self.layout
    }

    /// The number of channels.
    pub fn channel_count(&self) -> (n: usize)
        ensures
            n == self@.channels.len(),
    {
        self.channels.len()
    }

    /// Whether interrupts are masked.
    pub fn masked(&self) -> (m: bool)
        ensures
            m == self@.masked,
    {
        self.masked
    }

    /// The channel that the shared selector is on.
    pub fn selector(&self) -> (id: u8)
        ensures
            id == self@.selector,
    {
        self.selector
    }

    /// The registers of channel `id`.
    pub fn channel(&self, id: u8) -> (regs: ChannelRegisters)
        requires
            self@.has(id),
        ensures
            regs == self@.channels[id as int],
    {
        self.channels[id as usize]
    }

    /// The accesses made so far, oldest first.
    pub fn journal(&self) -> (j: &Vec<Access>)
        ensures
            j@ == self@.journal,
    {
        &self.journal
    }

    /// Whether the handles of the channels were handed out.
    pub fn is_split(&self) -> (b: bool)
        ensures
            b == self@.split,
    {
        self.split
    }

    /// Notes that the handles of the channels are handed out, and returns
    /// whether they were not before.
    pub(crate) fn claim(&mut self) -> (first: bool)
        ensures
            first == !old(self)@.split,
            final(self)@ == (RegisterState { split: true, ..old(self)@ }),
    {
        let first = !self.split;
        self.split = true;
        first
    }

    /// Sets how a mask of interrupts that the driver did not make itself
    /// stands: what the processor reports of its interrupt mask.
    pub fn set_masked(&mut self, masked: bool)
        ensures
            final(self)@ == (RegisterState { masked, ..old(self)@ }),
    {
        self.masked = masked;
    }

    /// Sets for how many further reads channel `id` reads as pending and as
    /// busy: what the hardware will report of a transfer.
    pub fn script_status(&mut self, id: u8, pending_reads: u16, busy_reads: u16)
        requires
            old(self)@.has(id),
        ensures
            final(self)@ == old(self)@.with_channel(
                id,
                ChannelRegisters { pending_reads, busy_reads, ..old(self)@.channels[id as int] },
            ),
    {
        let mut regs = self.channels[id as usize];
        regs.pending_reads = pending_reads;
        regs.busy_reads = busy_reads;
        self.channels.set(id as usize, regs);
    }

    /// Raises the interrupt flags of channel `id` that `flags` names, as the
    /// hardware does when their events occur.
    pub fn raise_flags(&mut self, id: u8, flags: u8)
        requires
            old(self)@.has(id),
        ensures
            final(self)@ == old(self)@.with_channel(
                id,
                ChannelRegisters {
                    flags: old(self)@.channels[id as int].flags | flags,
                    ..old(self)@.channels[id as int]
                },
            ),
    {
        let mut regs = self.channels[id as usize];
        regs.flags = regs.flags | flags;
        self.channels.set(id as usize, regs);
    }

    /// Opens access to the control fields of channel `id`, and returns
    /// whether interrupts were masked before. With a shared selector this
    /// masks interrupts and then sets the selector; with a register block for
    /// each channel it does nothing.
    pub(crate) fn enter(&mut self, id: u8) -> (was_masked: bool)
        ensures
            was_masked == old(self)@.masked,
            final(self)@ == old(self)@.entered(id),
            final(self)@.accessible(id),
    {
        let was_masked = self.masked;
        match self.layout {
            Layout::SharedSelector => {
                self.masked = true;
                self.journal.push(Access::Enter);
                self.selector = id;
                self.journal.push(Access::Select(id));
            },
            Layout::PerChannel => {},
        }
        was_masked
    }

    /// Closes the access that `enter` opened: with a shared selector, puts
    /// the interrupt mask back as `enter` had found it.
    pub(crate) fn leave(&mut self, was_masked: bool)
        ensures
            final(self)@ == old(self)@.left(was_masked),
    {
        match self.layout {
            Layout::SharedSelector => {
                self.masked = was_masked;
                self.journal.push(Access::Leave);
            },
            Layout::PerChannel => {},
        }
    }

    /// Writes `value` to `field` of channel `id`.
    pub(crate) fn write(&mut self, id: u8, field: Field, value: u8)
        requires
            old(self)@.has(id),
            old(self)@.accessible(id),
        ensures
            final(self)@ == old(self)@.wrote(id, field, value),
    {
        let regs = self.channels[id as usize].write(field, value, self.reset_delay);
        self.channels.set(id as usize, regs);
        self.journal.push(Access::Write(id, field, value));
    }

    /// Reads the interrupt flags of channel `id`.
    pub(crate) fn read_flags(&self, id: u8) -> (flags: u8)
        requires
            self@.has(id),
            self@.accessible(id),
        ensures
            flags == self@.channels[id as int].flags,
    {
        self.channels[id as usize].flags
    }

    /// Reads the reset bit of channel `id`. The hardware clears the bit once
    /// the reset is complete.
    pub(crate) fn read_reset(&mut self, id: u8) -> (set: bool)
        requires
            old(self)@.has(id),
            old(self)@.accessible(id),
        ensures
            set == (old(self)@.channels[id as int].reset_reads > 0),
            final(self)@ == old(self)@.with_channel(
                id,
                ChannelRegisters {
                    reset_reads: if set {
                        (old(self)@.channels[id as int].reset_reads - 1) as u8
                    } else {
                        0
                    },
                    ..old(self)@.channels[id as int]
                },
            ),
    {
        let mut regs = self.channels[id as usize];
        let set = regs.reset_reads > 0;
        if set {
            regs.reset_reads = regs.reset_reads - 1;
            self.channels.set(id as usize, regs);
        }
        assert(self@.channels =~= old(self)@.channels.update(id as int, regs));
        set
    }

    /// Spins until the reset bit of channel `id` reads as clear.
    pub(crate) fn await_reset(&mut self, id: u8)
        requires
            old(self)@.has(id),
            old(self)@.accessible(id),
        ensures
            final(self)@ == old(self)@.reset_awaited(id),
    {
        let ghost before = self@;
        let mut set = self.read_reset(id);
        while set
            invariant
                before.has(id),
                self@.accessible(id),
                !set ==> self@.channels[id as int].reset_reads == 0,
                self@ == before.with_channel(
                    id,
                    ChannelRegisters {
                        reset_reads: self@.channels[id as int].reset_reads,
                        ..before.channels[id as int]
                    },
                ),
            decreases self@.channels[id as int].reset_reads + (if set { 1int } else { 0 }),
        {
            set = self.read_reset(id);
            assert(self@.channels =~= before.channels.update(
                id as int,
                ChannelRegisters {
                    reset_reads: self@.channels[id as int].reset_reads,
                    ..before.channels[id as int]
                },
            ));
        }
        self.journal.push(Access::AwaitReset(id));
    }

    /// Issues a software trigger to channel `id`. The trigger register has a
    /// bit for each channel and takes no selection.
    pub(crate) fn trigger(&mut self, id: u8)
        requires
            old(self)@.has(id),
        ensures
            final(self)@ == old(self)@.noted(Access::Trigger(id)),
    {
        self.journal.push(Access::Trigger(id));
    }

    /// Reads the pending and the busy bit of channel `id`. The status words
    /// have a bit for each channel and take no selection.
    pub(crate) fn poll_status(&mut self, id: u8) -> (status: ChannelStatus)
        requires
            old(self)@.has(id),
        ensures
            status == old(self)@.channels[id as int].status(),
            final(self)@ == old(self)@.polled(id),
    {
        let mut regs = self.channels[id as usize];
        let status = ChannelStatus { pending: regs.pending_reads > 0, busy: regs.busy_reads > 0 };
        if regs.pending_reads > 0 {
            regs.pending_reads = regs.pending_reads - 1;
        }
        if regs.busy_reads > 0 {
            regs.busy_reads = regs.busy_reads - 1;
        }
        self.channels.set(id as usize, regs);
        status
    }

    /// Spins until one read finds channel `id` neither pending nor busy.
    pub(crate) fn await_idle(&mut self, id: u8)
        requires
            old(self)@.has(id),
        ensures
            final(self)@ == old(self)@.idle_awaited(id),
    {
        let ghost before = self@;
        let ghost pending = before.channels[id as int].pending_reads as int;
        let ghost busy = before.channels[id as int].busy_reads as int;
        let mut reads: u32 = 0;
        let mut status = self.poll_status(id);
        while status.pending || status.busy
            invariant
                before.has(id),
                pending == before.channels[id as int].pending_reads,
                busy == before.channels[id as int].busy_reads,
                reads <= before.channels[id as int].reads_until_idle(),
                status.pending == (pending > reads),
                status.busy == (busy > reads),
                self@.channels[id as int].pending_reads == (if pending > reads + 1 {
                    pending - reads - 1
                } else {
                    0
                }),
                self@.channels[id as int].busy_reads == (if busy > reads + 1 {
                    busy - reads - 1
                } else {
                    0
                }),
                self@ == before.with_channel(
                    id,
                    ChannelRegisters {
                        pending_reads: self@.channels[id as int].pending_reads,
                        busy_reads: self@.channels[id as int].busy_reads,
                        ..before.channels[id as int]
                    },
                ),
            decreases before.channels[id as int].reads_until_idle() - reads,
        {
            reads = reads + 1;
            status = self.poll_status(id);
            assert(self@.channels =~= before.channels.update(
                id as int,
                ChannelRegisters {
                    pending_reads: self@.channels[id as int].pending_reads,
                    busy_reads: self@.channels[id as int].busy_reads,
                    ..before.channels[id as int]
                },
            ));
        }
        self.journal.push(Access::AwaitIdle(id, reads));
    }
}

} // verus!
