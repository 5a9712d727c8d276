//! Individual DMA channels.
//!
//! A channel is `Uninitialized`, `Ready` or `Busy`, and its type says which.
//! Each operation is a method of the channels in the state that allows it;
//! one that changes the state takes the channel and returns it in its new
//! type. No operation can be called on a channel in another state.

use vstd::prelude::*;
use core::marker::PhantomData;
use crate::typelevel::Sealed;
use super::dma_controller::{
    BurstLength, FifoThreshold, PriorityLevel, TriggerAction, TriggerSource, MAX_CHANNELS,
};
use super::registers::{Access, ChannelRegisters, Field, Layout, RegisterBlock, RegisterState};

verus! {

/// The states of a channel.
#[derive(Clone, Copy, Debug, PartialEq, Eq, Structural)]
pub enum StatusKind {
    Uninitialized,
    Ready,
    Busy,
}

/// A type that stands for a state of a channel.
pub trait Status: Sealed {
    /// The state that the type stands for.
    spec fn kind() -> StatusKind;
}

/// Uninitialized channel
pub enum Uninitialized {
    /// The one value of the tag. It carries nothing.
    Tag,
}

impl Sealed for Uninitialized {

}

impl Status for Uninitialized {
    open spec fn kind() -> StatusKind {
        StatusKind::Uninitialized
    }
}

/// Initialized and ready to transfer channel
pub enum Ready {
    /// The one value of the tag. It carries nothing.
    Tag,
}

impl Sealed for Ready {

}

impl Status for Ready {
    open spec fn kind() -> StatusKind {
        StatusKind::Ready
    }
}

/// Busy channel
pub enum Busy {
    /// The one value of the tag. It carries nothing.
    Tag,
}

impl Sealed for Busy {

}

impl Status for Busy {
    open spec fn kind() -> StatusKind {
        StatusKind::Busy
    }
}

/// DMA channel, capable of executing transfers.
pub struct Channel<S: Status> {
    id: u8,
    _status: PhantomData<S>,
}

impl<S: Status> Channel<S> {
    /// The number of the hardware channel.
    pub closed spec fn spec_id(&self) -> u8 {
        self.id
    }

    /// The state of the channel.
    pub open spec fn status(&self) -> StatusKind {
        S::kind()
    }

    /// The number of the hardware channel.
    #[verifier::when_used_as_spec(spec_id)]
    pub fn id(&self) -> (id: u8)
        ensures
            id == self.spec_id(),
    {
        self.id
    }
}

impl<S: Status> Sealed for Channel<S> {

}

/// A channel in any state: what is written for every channel takes an
/// `AnyChannel` and learns the state from it.
pub trait AnyChannel: Sealed {
    /// The type that stands for the state of the channel.
    type Status: Status;
}

impl<S: Status> AnyChannel for Channel<S> {
    type Status = S;
}

/// The handle of hardware channel `id`, before its first use.
pub(crate) fn new_chan(id: u8) -> (ch: Channel<Uninitialized>)
    ensures
        ch.id() == id,
{
    Channel { id, _status: PhantomData }
}

/// Hands out the handles of all channels of the controller, the handle of
/// channel `i` at place `i`, the first time it is asked for them, and never
/// again: there is one handle for each channel, and who holds it is the only
/// one to work on that channel.
pub fn split(dmac: &mut RegisterBlock) -> (channels: Option<Vec<Channel<Uninitialized>>>)
    requires
        old(dmac)@.wf(),
    ensures
        channels.is_some() == !old(dmac)@.split,
        final(dmac)@ == (RegisterState { split: true, ..old(dmac)@ }),
        channels.is_some() ==> channels.unwrap()@.len() == old(dmac)@.channels.len()
            && forall|i: int|
            0 <= i < channels.unwrap()@.len() ==> (#[trigger] channels.unwrap()@[i]).id() == i,
{
    if !dmac.claim() {
        return None;
    }
    let count = dmac.channel_count();
    let mut channels: Vec<Channel<Uninitialized>> = Vec::new();
    let mut id: u8 = 0;
    while (id as usize) < count
        invariant
            count == dmac@.channels.len(),
            count <= MAX_CHANNELS,
            id <= count,
            channels@.len() == id,
            forall|i: int| 0 <= i < channels@.len() ==> (#[trigger] channels@[i]).id() == i,
        decreases count - id,
    {
        channels.push(new_chan(id));
        id += 1;
    }
    Some(channels)
}

/// The operations on a channel.
#[derive(Clone, Copy, Debug, PartialEq, Eq, Structural)]
pub enum Operation {
    Init,
    EnableInterrupts,
    DisableInterrupts,
    FifoThreshold,
    BurstLength,
    Reset,
    Start,
    SoftwareTrigger,
    XferComplete,
    Stop,
    Free,
}

/// The lifecycle of a channel: the state in which `op` leaves a channel that
/// was in state `from`, or `None` where a channel in that state does not
/// have the operation.
pub open spec fn next_status(from: StatusKind, op: Operation) -> Option<StatusKind> {
    match (op, from) {
        (Operation::Init, StatusKind::Uninitialized) => Some(StatusKind::Ready),
        (Operation::EnableInterrupts, _) => Some(from),
        (Operation::DisableInterrupts, _) => Some(from),
        (Operation::FifoThreshold, StatusKind::Ready) => Some(StatusKind::Ready),
        (Operation::BurstLength, StatusKind::Ready) => Some(StatusKind::Ready),
        (Operation::Reset, StatusKind::Ready) => Some(StatusKind::Uninitialized),
        (Operation::Start, StatusKind::Ready) => Some(StatusKind::Busy),
        (Operation::SoftwareTrigger, StatusKind::Busy) => Some(StatusKind::Busy),
        (Operation::XferComplete, StatusKind::Busy) => Some(StatusKind::Busy),
        (Operation::Stop, StatusKind::Busy) => Some(StatusKind::Ready),
        (Operation::Free, StatusKind::Busy) => Some(StatusKind::Ready),
        _ => None,
    }
}

/// The lifecycle of a channel, for callers that keep the state of a channel
/// as a value: the state in which `op` leaves a channel that was in state
/// `from`, or `None` where a channel in that state does not have the
/// operation.
pub fn transition(from: StatusKind, op: Operation) -> (to: Option<StatusKind>)
    ensures
        to == next_status(from, op),
{
    match op {
        Operation::Init => match from {
            StatusKind::Uninitialized => Some(StatusKind::Ready),
            _ => None,
        },
        Operation::EnableInterrupts | Operation::DisableInterrupts => Some(from),
        Operation::FifoThreshold | Operation::BurstLength => match from {
            StatusKind::Ready => Some(StatusKind::Ready),
            _ => None,
        },
        Operation::Reset => match from {
            StatusKind::Ready => Some(StatusKind::Uninitialized),
            _ => None,
        },
        Operation::Start => match from {
            StatusKind::Ready => Some(StatusKind::Busy),
            _ => None,
        },
        Operation::SoftwareTrigger | Operation::XferComplete => match from {
            StatusKind::Busy => Some(StatusKind::Busy),
            _ => None,
        },
        Operation::Stop | Operation::Free => match from {
            StatusKind::Busy => Some(StatusKind::Ready),
            _ => None,
        },
    }
}

/// The operations that a channel has in each state: one that is not
/// initialized can be initialized; one that is ready can be configured,
/// reset and started; one that is busy can be triggered, asked whether it is
/// done, stopped and freed; and the interrupts of a channel can be enabled
/// and disabled in every state. A channel has no other operation.
pub proof fn operations_of_each_state(from: StatusKind, op: Operation)
    ensures
        from == StatusKind::Uninitialized ==> (next_status(from, op).is_some() <==> (op
            == Operation::Init || op == Operation::EnableInterrupts || op
            == Operation::DisableInterrupts)),
        from == StatusKind::Ready ==> (next_status(from, op).is_some() <==> (op
            == Operation::FifoThreshold || op == Operation::BurstLength || op == Operation::Reset
            || op == Operation::Start || op == Operation::EnableInterrupts || op
            == Operation::DisableInterrupts)),
        from == StatusKind::Busy ==> (next_status(from, op).is_some() <==> (op
            == Operation::SoftwareTrigger || op == Operation::XferComplete || op
            == Operation::Stop || op == Operation::Free || op == Operation::EnableInterrupts || op
            == Operation::DisableInterrupts)),
{
}

/// The accesses `body` to the control fields of channel `id`, as a
/// controller with layout `layout` takes them: with a shared selector, made
/// with interrupts masked and the selector set first; with a register block
/// for each channel, made as they are.
pub open spec fn scoped(layout: Layout, id: u8, body: Seq<Access>) -> Seq<Access> {
    match layout {
        Layout::SharedSelector => seq![Access::Enter, Access::Select(id)] + body + seq![
            Access::Leave,
        ],
        Layout::PerChannel => body,
    }
}

/// The state `s` once a driver has made the accesses `trace` to the control
/// fields of channel `id` and left its registers as `regs`. The interrupt
/// mask is as before; a shared selector stays on the channel.
pub open spec fn driven(
    s: RegisterState,
    id: u8,
    regs: ChannelRegisters,
    trace: Seq<Access>,
) -> RegisterState {
    RegisterState {
        selector: if s.layout == Layout::SharedSelector {
            id
        } else {
            s.selector
        },
        channels: s.channels.update(id as int, regs),
        journal: s.journal + trace,
        ..s
    }
}

/// The accesses of a software reset of channel `id`: the reset bit is set,
/// then read until it is clear.
pub open spec fn reset_trace(id: u8) -> Seq<Access> {
    seq![Access::Write(id, Field::SoftwareReset, 1), Access::AwaitReset(id)]
}

/// The controller once channel `id` was reset.
pub open spec fn after_reset(s: RegisterState, id: u8) -> RegisterState {
    driven(s, id, ChannelRegisters::startup(), scoped(s.layout, id, reset_trace(id)))
}

/// The controller once channel `id` was initialized with priority `lvl`: the
/// channel is reset, and after that its priority is set.
pub open spec fn after_init(s: RegisterState, id: u8, lvl: PriorityLevel) -> RegisterState {
    driven(
        s,
        id,
        ChannelRegisters { priority: lvl.spec_bits(), ..ChannelRegisters::startup() },
        scoped(s.layout, id, reset_trace(id)) + scoped(
            s.layout,
            id,
            seq![Access::Write(id, Field::Priority, lvl.spec_bits())],
        ),
    )
}

/// The controller once `value` was written to `field` of channel `id`, and
/// nothing else.
pub open spec fn after_write(s: RegisterState, id: u8, field: Field, value: u8) -> RegisterState {
    driven(
        s,
        id,
        s.channels[id as int].written(field, value, s.reset_delay),
        scoped(s.layout, id, seq![Access::Write(id, field, value)]),
    )
}

/// The controller once channel `id` was started: source and action of the
/// trigger are set, then the channel is enabled; a channel without a trigger
/// source then gets a software trigger.
pub open spec fn after_start(
    s: RegisterState,
    id: u8,
    trig_src: TriggerSource,
    trig_act: TriggerAction,
) -> RegisterState {
    let started = driven(
        s,
        id,
        ChannelRegisters {
            trigger_source: trig_src.spec_bits(),
            trigger_action: trig_act.spec_bits(),
            enable: true,
            ..s.channels[id as int]
        },
        scoped(
            s.layout,
            id,
            seq![
                Access::Write(id, Field::TriggerSource, trig_src.spec_bits()),
                Access::Write(id, Field::TriggerAction, trig_act.spec_bits()),
                Access::Write(id, Field::Enable, 1),
            ],
        ),
    );
    if trig_src == TriggerSource::DISABLE {
        started.noted(Access::Trigger(id))
    } else {
        started
    }
}

/// The controller once the raised interrupt flags of channel `id` were
/// acknowledged: where one of the three flags is raised, what was read is
/// written back, which clears every flag that is raised.
pub open spec fn after_callback(s: RegisterState, id: u8) -> RegisterState {
    let flags = s.channels[id as int].flags;
    if flags & 7 != 0 {
        after_write(s, id, Field::InterruptFlag, flags)
    } else {
        driven(s, id, s.channels[id as int], scoped(s.layout, id, Seq::empty()))
    }
}

/// A channel that is initialized and then reset is as one that was never
/// initialized: it is in the same state, and its registers are those of a
/// channel that was reset and nothing else. No other channel is touched, and
/// the interrupt mask is as before.
pub proof fn init_then_reset_round_trip(s: RegisterState, id: u8, lvl: PriorityLevel)
    requires
        s.has(id),
    ensures
        next_status(StatusKind::Uninitialized, Operation::Init) == Some(StatusKind::Ready),
        next_status(StatusKind::Ready, Operation::Reset) == Some(StatusKind::Uninitialized),
        after_reset(after_init(s, id, lvl), id).channels == after_reset(s, id).channels,
        after_reset(after_init(s, id, lvl), id).channels[id as int] == ChannelRegisters::startup(),
        forall|other: int|
            0 <= other < s.channels.len() && other != id ==> after_reset(
                after_init(s, id, lvl),
                id,
            ).channels[other] == s.channels[other],
        after_reset(after_init(s, id, lvl), id).masked == s.masked,
        after_reset(after_init(s, id, lvl), id).layout == s.layout,
{
    assert(after_reset(after_init(s, id, lvl), id).channels =~= after_reset(s, id).channels);
}

/// Every access to the control fields of a channel is made under the rule of
/// the controller's layout. With a shared selector, the accesses of one
/// operation stand between a masking of the interrupts, followed by the
/// selection of the channel, and the restoring of the mask; with a register
/// block for each channel, nothing is masked and nothing is selected. Either
/// way the operation leaves the interrupt mask as it found it.
pub proof fn accesses_are_scoped(s: RegisterState, id: u8, regs: ChannelRegisters, body: Seq<Access>)
    ensures
        scoped(Layout::PerChannel, id, body) == body,
        scoped(Layout::SharedSelector, id, body).len() == body.len() + 3,
        scoped(Layout::SharedSelector, id, body)[0] == Access::Enter,
        scoped(Layout::SharedSelector, id, body)[1] == Access::Select(id),
        scoped(Layout::SharedSelector, id, body).last() == Access::Leave,
        forall|i: int|
            0 <= i < body.len() ==> scoped(Layout::SharedSelector, id, body)[i + 2] == body[i],
        driven(s, id, regs, scoped(s.layout, id, body)).masked == s.masked,
        s.entered(id).accessible(id),
        s.entered(id).left(s.masked).masked == s.masked,
{
}

/// No operation on a channel changes how many channels the controller has,
/// how it lays them out, how long a reset takes, or whether the handles of
/// its channels were handed out: a controller that is well-formed stays so.
pub proof fn operations_keep_the_controller(
    s: RegisterState,
    id: u8,
    regs: ChannelRegisters,
    trace: Seq<Access>,
    access: Access,
)
    requires
        s.has(id),
    ensures
        driven(s, id, regs, trace).wf() == s.wf(),
        driven(s, id, regs, trace).channels.len() == s.channels.len(),
        driven(s, id, regs, trace).layout == s.layout,
        driven(s, id, regs, trace).reset_delay == s.reset_delay,
        driven(s, id, regs, trace).split == s.split,
        s.noted(access).channels == s.channels,
        s.noted(access).wf() == s.wf(),
        s.polled(id).wf() == s.wf(),
        s.polled(id).journal == s.journal,
        s.idle_awaited(id).wf() == s.wf(),
        forall|other: int|
            0 <= other < s.channels.len() && other != id ==> driven(s, id, regs, trace).channels[other]
                == s.channels[other] && s.polled(id).channels[other] == s.channels[other]
                && s.idle_awaited(id).channels[other] == s.channels[other],
{
}

impl Channel<Uninitialized> {
    /// Configure the DMA channel so that it is ready to be used by a
    /// transfer: resets the channel, waits for the reset to complete, and
    /// sets the priority level.
    pub fn init(self, dmac: &mut RegisterBlock, lvl: PriorityLevel) -> (ch: Channel<Ready>)
        requires
            old(dmac)@.has(self.id()),
        ensures
            ch.id() == self.id(),
            next_status(self.status(), Operation::Init) == Some(ch.status()),
            final(dmac)@ == after_init(old(dmac)@, self.id(), lvl),
    {
        let mut this = self;
        this._reset_private(dmac);
        let was_masked = dmac.enter(this.id);
        dmac.write(this.id, Field::Priority, lvl.bits());
        dmac.leave(was_masked);
        proof {
            let id = this.id;
            let s = old(dmac)@;
            assert(dmac@.channels =~= after_init(s, id, lvl).channels);
            assert(dmac@.journal =~= after_init(s, id, lvl).journal);
        }
        Channel { id: this.id, _status: PhantomData }
    }
}

impl<S: Status> Channel<S> {
    /// Enables the interrupt sources that `flags` names. The others stay as
    /// they are.
    pub fn enable_interrupts(&mut self, dmac: &mut RegisterBlock, flags: InterruptFlags)
        requires
            old(dmac)@.has(old(self).id()),
        ensures
            *final(self) == *old(self),
            next_status(old(self).status(), Operation::EnableInterrupts) == Some(
                final(self).status(),
            ),
            final(dmac)@ == after_write(
                old(dmac)@,
                old(self).id(),
                Field::InterruptEnableSet,
                flags.spec_bits(),
            ),
    {
        let was_masked = dmac.enter(self.id);
        dmac.write(self.id, Field::InterruptEnableSet, flags.into());
        dmac.leave(was_masked);
        proof {
            let want = after_write(
                old(dmac)@,
                self.id,
                Field::InterruptEnableSet,
                flags.spec_bits(),
            );
            assert(dmac@.channels =~= want.channels);
            assert(dmac@.journal =~= want.journal);
        }
    }

    /// Disables the interrupt sources that `flags` names. The others stay as
    /// they are.
    pub fn disable_interrupts(&mut self, dmac: &mut RegisterBlock, flags: InterruptFlags)
        requires
            old(dmac)@.has(old(self).id()),
        ensures
            *final(self) == *old(self),
            next_status(old(self).status(), Operation::DisableInterrupts) == Some(
                final(self).status(),
            ),
            final(dmac)@ == after_write(
                old(dmac)@,
                old(self).id(),
                Field::InterruptEnableClear,
                flags.spec_bits(),
            ),
    {
        let was_masked = dmac.enter(self.id);
        dmac.write(self.id, Field::InterruptEnableClear, flags.into());
        dmac.leave(was_masked);
        proof {
            let want = after_write(
                old(dmac)@,
                self.id,
                Field::InterruptEnableClear,
                flags.spec_bits(),
            );
            assert(dmac@.channels =~= want.channels);
            assert(dmac@.journal =~= want.journal);
        }
    }

    /// Resets the channel to its startup state and waits for the reset to
    /// complete.
    fn _reset_private(&mut self, dmac: &mut RegisterBlock)
        requires
            old(dmac)@.has(old(self).id()),
        ensures
            *final(self) == *old(self),
            final(dmac)@ == after_reset(old(dmac)@, old(self).id()),
    {
        let was_masked = dmac.enter(self.id);
        dmac.write(self.id, Field::SoftwareReset, 1);
        dmac.await_reset(self.id);
        dmac.leave(was_masked);
        proof {
            let want = after_reset(old(dmac)@, self.id);
            assert(dmac@.channels =~= want.channels);
            assert(dmac@.journal =~= want.journal);
        }
    }

    /// Issues a software trigger to the channel.
    fn _trigger_private(&mut self, dmac: &mut RegisterBlock)
        requires
            old(dmac)@.has(old(self).id()),
        ensures
            *final(self) == *old(self),
            final(dmac)@ == old(dmac)@.noted(Access::Trigger(old(self).id())),
    {
        dmac.trigger(self.id);
    }
}

/// These methods may only be used on a `Ready` DMA channel
impl Channel<Ready> {
    /// Issue a software reset to the channel. This will return the channel to
    /// its startup state.
    pub fn reset(self, dmac: &mut RegisterBlock) -> (ch: Channel<Uninitialized>)
        requires
            old(dmac)@.has(self.id()),
        ensures
            ch.id() == self.id(),
            next_status(self.status(), Operation::Reset) == Some(ch.status()),
            final(dmac)@ == after_reset(old(dmac)@, self.id()),
    {
        let mut this = self;
        this._reset_private(dmac);
        Channel { id: this.id, _status: PhantomData }
    }

    /// Set the FIFO threshold length. The channel will wait until it has
    /// received the selected number of beats before triggering the burst
    /// transfer, reducing the DMA transfer latency. Only a controller with a
    /// register block for each channel has the field.
    pub fn fifo_threshold(&mut self, dmac: &mut RegisterBlock, threshold: FifoThreshold)
        requires
            old(dmac)@.has(old(self).id()),
            old(dmac)@.layout == Layout::PerChannel,
        ensures
            *final(self) == *old(self),
            next_status(old(self).status(), Operation::FifoThreshold) == Some(
                final(self).status(),
            ),
            final(dmac)@ == after_write(
                old(dmac)@,
                old(self).id(),
                Field::FifoThreshold,
                threshold.spec_bits(),
            ),
    {
        let was_masked = dmac.enter(self.id);
        dmac.write(self.id, Field::FifoThreshold, threshold.bits());
        dmac.leave(was_masked);
        proof {
            let want = after_write(
                old(dmac)@,
                self.id,
                Field::FifoThreshold,
                threshold.spec_bits(),
            );
            assert(dmac@.channels =~= want.channels);
            assert(dmac@.journal =~= want.journal);
        }
    }

    /// Set burst length for the channel, in number of beats. A burst transfer
    /// is an atomic, uninterruptible operation. Only a controller with a
    /// register block for each channel has the field.
    pub fn burst_length(&mut self, dmac: &mut RegisterBlock, burst_length: BurstLength)
        requires
            old(dmac)@.has(old(self).id()),
            old(dmac)@.layout == Layout::PerChannel,
            burst_length.wf(),
        ensures
            *final(self) == *old(self),
            next_status(old(self).status(), Operation::BurstLength) == Some(
                final(self).status(),
            ),
            final(dmac)@ == after_write(
                old(dmac)@,
                old(self).id(),
                Field::BurstLength,
                (burst_length.beats() - 1) as u8,
            ),
    {
        let was_masked = dmac.enter(self.id);
        dmac.write(self.id, Field::BurstLength, burst_length.bits());
        dmac.leave(was_masked);
        proof {
            let want = after_write(
                old(dmac)@,
                self.id,
                Field::BurstLength,
                (burst_length.beats() - 1) as u8,
            );
            assert(dmac@.channels =~= want.channels);
            assert(dmac@.journal =~= want.journal);
        }
    }

    /// Start transfer on channel using the specified trigger source. A
    /// channel without a trigger source gets a software trigger at once: no
    /// hardware event would start it.
    pub fn start(
        self,
        dmac: &mut RegisterBlock,
        trig_src: TriggerSource,
        trig_act: TriggerAction,
    ) -> (ch: Channel<Busy>)
        requires
            old(dmac)@.has(self.id()),
        ensures
            ch.id() == self.id(),
            next_status(self.status(), Operation::Start) == Some(ch.status()),
            final(dmac)@ == after_start(old(dmac)@, self.id(), trig_src, trig_act),
    {
        let mut this = self;
        let was_masked = dmac.enter(this.id);
        dmac.write(this.id, Field::TriggerSource, trig_src.bits());
        dmac.write(this.id, Field::TriggerAction, trig_act.bits());
        dmac.write(this.id, Field::Enable, 1);
        dmac.leave(was_masked);
        if trig_src == TriggerSource::DISABLE {
            this._trigger_private(dmac);
        }
        proof {
            let want = after_start(old(dmac)@, this.id, trig_src, trig_act);
            assert(dmac@.channels =~= want.channels);
            assert(dmac@.journal =~= want.journal);
        }
        Channel { id: this.id, _status: PhantomData }
    }
}

/// These methods may only be used on a `Busy` DMA channel
impl Channel<Busy> {
    /// Issue a software trigger to the channel, whatever its trigger source.
    pub fn software_trigger(&mut self, dmac: &mut RegisterBlock)
        requires
            old(dmac)@.has(old(self).id()),
        ensures
            *final(self) == *old(self),
            next_status(old(self).status(), Operation::SoftwareTrigger) == Some(
                final(self).status(),
            ),
            final(dmac)@ == old(dmac)@.noted(Access::Trigger(old(self).id())),
    {
        self._trigger_private(dmac);
    }

    /// Stop transfer on channel whether or not the transfer has completed:
    /// disables the channel at once and returns, without a read of its
    /// status. A transfer that was under way is cut where it stood.
    pub fn stop(self, dmac: &mut RegisterBlock) -> (ch: Channel<Ready>)
        requires
            old(dmac)@.has(self.id()),
        ensures
            ch.id() == self.id(),
            next_status(self.status(), Operation::Stop) == Some(ch.status()),
            final(dmac)@ == after_write(old(dmac)@, self.id(), Field::Enable, 0),
    {
        let was_masked = dmac.enter(self.id);
        dmac.write(self.id, Field::Enable, 0);
        dmac.leave(was_masked);
        proof {
            let want = after_write(old(dmac)@, self.id, Field::Enable, 0);
            assert(dmac@.channels =~= want.channels);
            assert(dmac@.journal =~= want.journal);
        }
        Channel { id: self.id, _status: PhantomData }
    }

    /// Returns whether or not the transfer is complete.
    ///
    /// The busy bit is set while the channel is moving data; the pending bit
    /// is set when a trigger was received and the transfer has not started
    /// yet. A trigger sets the pending bit first; when the arbiter begins to
    /// service the channel, the pending bit is cleared and the busy bit is
    /// set. The transfer is complete when the channel is both not pending
    /// and not busy. This reads the two bits once and does not wait.
    pub fn xfer_complete(&self, dmac: &mut RegisterBlock) -> (complete: bool)
        requires
            old(dmac)@.has(self.id()),
        ensures
            complete == (!old(dmac)@.channels[self.id() as int].status().pending && !old(
                dmac,
            )@.channels[self.id() as int].status().busy),
            next_status(self.status(), Operation::XferComplete) == Some(self.status()),
            final(dmac)@ == old(dmac)@.polled(self.id()),
    {
        let status = dmac.poll_status(self.id);
        !status.busy && !status.pending
    }

    /// Wait for the channel to clear its busy status, then release the
    /// channel. Returns at the first read that finds the channel neither
    /// pending nor busy, and at no read before it.
    pub fn free(self, dmac: &mut RegisterBlock) -> (ch: Channel<Ready>)
        requires
            old(dmac)@.has(self.id()),
        ensures
            ch.id() == self.id(),
            next_status(self.status(), Operation::Free) == Some(ch.status()),
            final(dmac)@ == old(dmac)@.idle_awaited(self.id()),
    {
        dmac.await_idle(self.id);
        Channel { id: self.id, _status: PhantomData }
    }

    /// Acknowledges the interrupt flags of the channel that are raised. What
    /// follows from a completed transfer, an error or a suspension is the
    /// caller's to decide: nothing is done about them here.
    pub fn callback(&mut self, dmac: &mut RegisterBlock)
        requires
            old(dmac)@.has(old(self).id()),
        ensures
            *final(self) == *old(self),
            final(dmac)@ == after_callback(old(dmac)@, old(self).id()),
    {
        let was_masked = dmac.enter(self.id);
        let flags = dmac.read_flags(self.id);
        if flags & 7 != 0 {
            dmac.write(self.id, Field::InterruptFlag, flags);
        }
        dmac.leave(was_masked);
        proof {
            let want = after_callback(old(dmac)@, self.id);
            assert(dmac@.channels =~= want.channels);
            assert(dmac@.journal =~= want.journal);
        }
    }
}

/// Interrupt sources available to a DMA channel
#[derive(Clone, Copy, Debug, PartialEq, Eq, Structural)]
pub struct InterruptFlags {
    /// Transfer error
    pub terr: bool,
    /// Transfer complete
    pub tcmpl: bool,
    /// Transfer suspended
    pub susp: bool,
}

impl InterruptFlags {
    /// The flags as the interrupt registers hold them: transfer error in bit
    /// 0, transfer complete in bit 1, transfer suspended in bit 2, and the
    /// five reserved bits clear.
    pub open spec fn spec_bits(self) -> u8 {
        match (self.susp, self.tcmpl, self.terr) {
            (false, false, false) => 0,
            (false, false, true) => 1,
            (false, true, false) => 2,
            (false, true, true) => 3,
            (true, false, false) => 4,
            (true, false, true) => 5,
            (true, true, false) => 6,
            (true, true, true) => 7,
        }
    }

    /// No interrupt source.
    pub fn new() -> (f: InterruptFlags)
        ensures
            f == (InterruptFlags { terr: false, tcmpl: false, susp: false }),
            f.spec_bits() == 0,
    {
        InterruptFlags { terr: false, tcmpl: false, susp: false }
    }

    /// The flags as the interrupt registers hold them.
    #[verifier::when_used_as_spec(spec_bits)]
    pub fn bits(self) -> (b: u8)
        ensures
            b == self.spec_bits(),
            b < 8,
    {
        let mut b: u8 = 0;
        if self.terr {
            b = b + 1;
        }
        if self.tcmpl {
            b = b + 2;
        }
        if self.susp {
            b = b + 4;
        }
        b
    }

    /// The flags that the low three bits of `bits` name. The reserved bits
    /// are dropped.
    pub fn from_bits(bits: u8) -> (f: InterruptFlags)
        ensures
            f.terr == (bits & 1 != 0),
            f.tcmpl == (bits & 2 != 0),
            f.susp == (bits & 4 != 0),
            f.spec_bits() == bits & 7,
    {
        let f = InterruptFlags { terr: bits & 1 != 0, tcmpl: bits & 2 != 0, susp: bits & 4 != 0 };
        assert((if bits & 1 != 0 {
            1u8
        } else {
            0u8
        }) + (if bits & 2 != 0 {
            2u8
        } else {
            0u8
        }) + (if bits & 4 != 0 {
            4u8
        } else {
            0u8
        }) == bits & 7) by (bit_vector);
        f
    }

    /// Whether the transfer-error source is named.
    pub fn terr(&self) -> (v: bool)
        ensures
            v == self.terr,
    {
        self.terr
    }

    /// Whether the transfer-complete source is named.
    pub fn tcmpl(&self) -> (v: bool)
        ensures
            v == self.tcmpl,
    {
        self.tcmpl
    }

    /// Whether the transfer-suspended source is named.
    pub fn susp(&self) -> (v: bool)
        ensures
            v == self.susp,
    {
        self.susp
    }

    /// The same flags, with the transfer-error source named or not.
    pub fn with_terr(self, terr: bool) -> (f: InterruptFlags)
        ensures
            f == (InterruptFlags { terr, ..self }),
    {
        InterruptFlags { terr, tcmpl: self.tcmpl, susp: self.susp }
    }

    /// The same flags, with the transfer-complete source named or not.
    pub fn with_tcmpl(self, tcmpl: bool) -> (f: InterruptFlags)
        ensures
            f == (InterruptFlags { tcmpl, ..self }),
    {
        InterruptFlags { terr: self.terr, tcmpl, susp: self.susp }
    }

    /// The same flags, with the transfer-suspended source named or not.
    pub fn with_susp(self, susp: bool) -> (f: InterruptFlags)
        ensures
            f == (InterruptFlags { susp, ..self }),
    {
        InterruptFlags { terr: self.terr, tcmpl: self.tcmpl, susp }
    }

    /// Names the transfer-error source, or not.
    pub fn set_terr(&mut self, terr: bool)
        ensures
            *final(self) == (InterruptFlags { terr, ..*old(self) }),
    {
        self.terr = terr;
    }

    /// Names the transfer-complete source, or not.
    pub fn set_tcmpl(&mut self, tcmpl: bool)
        ensures
            *final(self) == (InterruptFlags { tcmpl, ..*old(self) }),
    {
        self.tcmpl = tcmpl;
    }

    /// Names the transfer-suspended source, or not.
    pub fn set_susp(&mut self, susp: bool)
        ensures
            *final(self) == (InterruptFlags { susp, ..*old(self) }),
    {
        self.susp = susp;
    }
}

impl From<InterruptFlags> for u8 {
    fn from(flags: InterruptFlags) -> (bits: u8) {
        flags.bits()
    }
}

impl vstd::std_specs::convert::FromSpecImpl<InterruptFlags> for u8 {
    open spec fn obeys_from_spec() -> bool {
        true
    }

    open spec fn from_spec(flags: InterruptFlags) -> u8 {
        flags.spec_bits()
    }
}

impl From<u8> for InterruptFlags {
    fn from(bits: u8) -> (flags: InterruptFlags) {
        InterruptFlags::from_bits(bits)
    }
}

impl vstd::std_specs::convert::FromSpecImpl<u8> for InterruptFlags {
    open spec fn obeys_from_spec() -> bool {
        true
    }

    open spec fn from_spec(bits: u8) -> InterruptFlags {
        InterruptFlags { terr: bits & 1 != 0, tcmpl: bits & 2 != 0, susp: bits & 4 != 0 }
    }
}

} // verus!
