//! The digital frequency-locked loop (DFLL).
//!
//! [`Registers`] is the token of the oscillator: who holds it holds the
//! oscillator's registers, and nobody else does, since making the token takes
//! the peripheral that holds the oscillators. It is an executable model of
//! those registers, with a journal of every access that was made, in order; a
//! board support layer replays the journal against the device. A write to the
//! oscillator takes a while to take effect: every setter of the token writes
//! and then spins until the synchronization bit of the register group that it
//! wrote reads as clear. The bit reads as set for as many reads as the
//! token's delay says.
//!
//! [`Dfll`] is the oscillator in one of its two modes. Enabling it gives an
//! [`Enabled`], which counts the consumers of the clock; only an oscillator
//! without consumers can be disabled, and only one whose single consumer is
//! generator 0 can change its mode.

use vstd::prelude::*;
use crate::pac::atsamd11c14a::SYSCTRL;
use crate::time::Hertz;
use crate::typelevel::Sealed;
use super::gclk::{Gclk0, GclkSource};
use super::pclk::{Dfll48, Pclk, PclkSourceMarker};
use super::types::{Enabled, Source};

pub mod marker;

verus! {

/// The frequency of the oscillator when it runs by itself, in hertz.
pub const DFLL_FREQUENCY: u32 = 48_000_000;

/// A field of the oscillator's registers.
#[derive(Clone, Copy, Debug, PartialEq, Eq, Structural)]
pub enum DfllField {
    /// Whether the oscillator runs.
    Enable,
    /// Whether the loop is closed.
    Mode,
    /// The largest step of the fine tuning.
    FineStep,
    /// The largest step of the coarse tuning.
    CoarseStep,
    /// The factor by which the loop multiplies its reference.
    Multiplier,
}

/// A group of registers that synchronizes as one.
#[derive(Clone, Copy, Debug, PartialEq, Eq, Structural)]
pub enum SyncGroup {
    Enable,
    DfllCtrlB,
    DfllVal,
    DfllMul,
}

/// One access to the oscillator, as the journal records it.
#[derive(Clone, Copy, Debug, PartialEq, Eq, Structural)]
pub enum DfllAccess {
    /// The value was written to the field.
    Write(DfllField, u16),
    /// The driver spun until the synchronization bit of the group read as
    /// clear.
    AwaitSync(SyncGroup),
}

/// The group of registers that holds `field`.
pub open spec fn group_of(field: DfllField) -> SyncGroup {
    match field {
        DfllField::Enable => SyncGroup::Enable,
        DfllField::Mode => SyncGroup::DfllCtrlB,
        DfllField::FineStep => SyncGroup::DfllMul,
        DfllField::CoarseStep => SyncGroup::DfllMul,
        DfllField::Multiplier => SyncGroup::DfllMul,
    }
}

/// What a token holds, as contracts speak of it.
pub struct DfllRegisters {
    pub enable: bool,
    pub closed_mode: bool,
    pub mul: u16,
    pub cstep: u8,
    pub fstep: u8,
    /// Number of reads that a write takes to synchronize.
    pub sync_delay: u8,
    /// Number of further reads for which the synchronization bit of the
    /// group reads as set, for each of the four groups.
    pub sync_enable: u8,
    pub sync_dfllctrlb: u8,
    pub sync_dfllval: u8,
    pub sync_dfllmul: u8,
    pub journal: Seq<DfllAccess>,
}

impl DfllRegisters {
    /// The registers of an oscillator that was not touched yet.
    pub open spec fn startup(sync_delay: u8) -> DfllRegisters {
        DfllRegisters {
            enable: false,
            closed_mode: false,
            mul: 0,
            cstep: 0,
            fstep: 0,
            sync_delay,
            sync_enable: 0,
            sync_dfllctrlb: 0,
            sync_dfllval: 0,
            sync_dfllmul: 0,
            journal: Seq::empty(),
        }
    }

    /// Number of further reads for which the synchronization bit of `group`
    /// reads as set.
    pub open spec fn sync(self, group: SyncGroup) -> u8 {
        match group {
            SyncGroup::Enable => self.sync_enable,
            SyncGroup::DfllCtrlB => self.sync_dfllctrlb,
            SyncGroup::DfllVal => self.sync_dfllval,
            SyncGroup::DfllMul => self.sync_dfllmul,
        }
    }

    /// The registers with the synchronization bit of `group` set for `reads`
    /// further reads.
    pub open spec fn with_sync(self, group: SyncGroup, reads: u8) -> DfllRegisters {
        match group {
            SyncGroup::Enable => DfllRegisters { sync_enable: reads, ..self },
            SyncGroup::DfllCtrlB => DfllRegisters { sync_dfllctrlb: reads, ..self },
            SyncGroup::DfllVal => DfllRegisters { sync_dfllval: reads, ..self },
            SyncGroup::DfllMul => DfllRegisters { sync_dfllmul: reads, ..self },
        }
    }

    /// The registers with `value` in `field`. A field of one bit holds
    /// whether `value` is not zero. The fine step has eight bits and the
    /// coarse step has six: each holds that many of the low bits of `value`.
    pub open spec fn with_field(self, field: DfllField, value: u16) -> DfllRegisters {
        match field {
            DfllField::Enable => DfllRegisters { enable: value != 0, ..self },
            DfllField::Mode => DfllRegisters { closed_mode: value != 0, ..self },
            DfllField::FineStep => DfllRegisters { fstep: (value & 0xff) as u8, ..self },
            DfllField::CoarseStep => DfllRegisters { cstep: (value & 0x3f) as u8, ..self },
            DfllField::Multiplier => DfllRegisters { mul: value, ..self },
        }
    }

    /// The registers with `access` added to the journal.
    pub open spec fn noted(self, access: DfllAccess) -> DfllRegisters {
        DfllRegisters { journal: self.journal.push(access), ..self }
    }

    /// The registers once `value` was written to `field`: the group of the
    /// field begins to synchronize.
    pub open spec fn wrote(self, field: DfllField, value: u16) -> DfllRegisters {
        self.with_field(field, value).with_sync(group_of(field), self.sync_delay).noted(
            DfllAccess::Write(field, value),
        )
    }

    /// The registers once a wait for the synchronization of `group`
    /// returned.
    pub open spec fn sync_awaited(self, group: SyncGroup) -> DfllRegisters {
        self.with_sync(group, 0).noted(DfllAccess::AwaitSync(group))
    }

    /// The registers once `field` was set to `value`: the value is written,
    /// and the write has synchronized.
    pub open spec fn set(self, field: DfllField, value: u16) -> DfllRegisters {
        self.wrote(field, value).sync_awaited(group_of(field))
    }

    /// The registers once the oscillator was enabled with an open loop: the
    /// loop is opened, then the oscillator is set running.
    pub open spec fn open_loop_enabled(self) -> DfllRegisters {
        self.set(DfllField::Mode, 0).set(DfllField::Enable, 1)
    }

    /// The registers once the oscillator was enabled with a closed loop: the
    /// fine step, the coarse step and the factor are set, in this order, and
    /// only then the loop is closed.
    pub open spec fn closed_loop_enabled(self, fine: u8, coarse: u8, factor: u16) -> DfllRegisters {
        self.set(DfllField::FineStep, fine as u16).set(DfllField::CoarseStep, coarse as u16).set(
            DfllField::Multiplier,
            factor,
        ).set(DfllField::Mode, 1)
    }
}

/// The order in which a closed loop is programmed: the fine step, the coarse
/// step and the factor are written, each write followed by the wait for its
/// synchronization, and the write that closes the loop comes after all of
/// them. Afterwards the registers hold the fine step, the low six bits of
/// the coarse step, which are all that its field has, and the factor; the
/// loop is closed, and no synchronization is pending on the groups that were
/// written.
pub proof fn closed_loop_programming_order(r: DfllRegisters, fine: u8, coarse: u8, factor: u16)
    ensures
        r.closed_loop_enabled(fine, coarse, factor).journal == r.journal + seq![
            DfllAccess::Write(DfllField::FineStep, fine as u16),
            DfllAccess::AwaitSync(SyncGroup::DfllMul),
            DfllAccess::Write(DfllField::CoarseStep, coarse as u16),
            DfllAccess::AwaitSync(SyncGroup::DfllMul),
            DfllAccess::Write(DfllField::Multiplier, factor),
            DfllAccess::AwaitSync(SyncGroup::DfllMul),
            DfllAccess::Write(DfllField::Mode, 1),
            DfllAccess::AwaitSync(SyncGroup::DfllCtrlB),
        ],
        r.closed_loop_enabled(fine, coarse, factor).fstep == fine,
        r.closed_loop_enabled(fine, coarse, factor).cstep == coarse & 0x3f,
        coarse < 64 ==> r.closed_loop_enabled(fine, coarse, factor).cstep == coarse,
        r.closed_loop_enabled(fine, coarse, factor).mul == factor,
        r.closed_loop_enabled(fine, coarse, factor).closed_mode,
        r.closed_loop_enabled(fine, coarse, factor).enable == r.enable,
        r.closed_loop_enabled(fine, coarse, factor).sync_dfllmul == 0,
        r.closed_loop_enabled(fine, coarse, factor).sync_dfllctrlb == 0,
{
    let f = fine as u16;
    let c = coarse as u16;
    assert((f & 0xff) as u8 == fine) by (bit_vector)
        requires
            f == fine as u16,
    ;
    assert((c & 0x3f) as u8 == coarse & 0x3f) by (bit_vector)
        requires
            c == coarse as u16,
    ;
    assert(coarse < 64 ==> coarse & 0x3f == coarse) by (bit_vector);
    assert(r.closed_loop_enabled(fine, coarse, factor).journal =~= r.journal + seq![
        DfllAccess::Write(DfllField::FineStep, fine as u16),
        DfllAccess::AwaitSync(SyncGroup::DfllMul),
        DfllAccess::Write(DfllField::CoarseStep, coarse as u16),
        DfllAccess::AwaitSync(SyncGroup::DfllMul),
        DfllAccess::Write(DfllField::Multiplier, factor),
        DfllAccess::AwaitSync(SyncGroup::DfllMul),
        DfllAccess::Write(DfllField::Mode, 1),
        DfllAccess::AwaitSync(SyncGroup::DfllCtrlB),
    ]);
}

/// Every setter waits for what it wrote: once a field was set, it holds the
/// value, the journal has the write and then the wait for the group of the
/// field, and no synchronization of that group is pending.
pub proof fn setter_waits_for_its_write(r: DfllRegisters, field: DfllField, value: u16)
    ensures
        r.set(field, value).journal == r.journal.push(DfllAccess::Write(field, value)).push(
            DfllAccess::AwaitSync(group_of(field)),
        ),
        r.set(field, value).sync(group_of(field)) == 0,
        forall|group: SyncGroup|
            group != group_of(field) ==> r.set(field, value).sync(group) == r.sync(group),
{
}

/// Opening the loop of an oscillator and enabling it leaves it running with
/// an open loop, whatever its registers held before; the tuning parameters
/// stay as they were.
pub proof fn open_loop_enabling(r: DfllRegisters)
    ensures
        r.open_loop_enabled().enable,
        !r.open_loop_enabled().closed_mode,
        r.open_loop_enabled().mul == r.mul,
        r.open_loop_enabled().cstep == r.cstep,
        r.open_loop_enabled().fstep == r.fstep,
        r.open_loop_enabled().journal == r.journal + seq![
            DfllAccess::Write(DfllField::Mode, 0),
            DfllAccess::AwaitSync(SyncGroup::DfllCtrlB),
            DfllAccess::Write(DfllField::Enable, 1),
            DfllAccess::AwaitSync(SyncGroup::Enable),
        ],
{
    assert(r.open_loop_enabled().journal =~= r.journal + seq![
        DfllAccess::Write(DfllField::Mode, 0),
        DfllAccess::AwaitSync(SyncGroup::DfllCtrlB),
        DfllAccess::Write(DfllField::Enable, 1),
        DfllAccess::AwaitSync(SyncGroup::Enable),
    ]);
}

/// The token of the oscillator.
pub type DfllToken = Registers;

/// The registers of the oscillator.
pub struct Registers {
    _peripheral: SYSCTRL,
    enable: bool,
    closed_mode: bool,
    mul: u16,
    cstep: u8,
    fstep: u8,
    sync_delay: u8,
    sync_enable: u8,
    sync_dfllctrlb: u8,
    sync_dfllval: u8,
    sync_dfllmul: u8,
    journal: Vec<DfllAccess>,
}

impl View for Registers {
    type V = DfllRegisters;

    closed spec fn view(&self) -> DfllRegisters {
        DfllRegisters {
            enable: self.enable,
            closed_mode: self.closed_mode,
            mul: self.mul,
            cstep: self.cstep,
            fstep: self.fstep,
            sync_delay: self.sync_delay,
            sync_enable: self.sync_enable,
            sync_dfllctrlb: self.sync_dfllctrlb,
            sync_dfllval: self.sync_dfllval,
            sync_dfllmul: self.sync_dfllmul,
            journal: self.journal@,
        }
    }
}

impl Registers {
    /// The token of the oscillator of `peripheral`, the peripheral that
    /// holds the oscillators: not touched yet, with writes that take
    /// `sync_delay` reads to synchronize. The peripheral is taken: there is
    /// one of it, so there is one token.
    pub fn new(peripheral: SYSCTRL, sync_delay: u8) -> (token: Registers)
        ensures
            token@ == DfllRegisters::startup(sync_delay),
    {
        let token = Registers {
            _peripheral: peripheral,
            enable: false,
            closed_mode: false,
            mul: 0,
            cstep: 0,
            fstep: 0,
            sync_delay,
            sync_enable: 0,
            sync_dfllctrlb: 0,
            sync_dfllval: 0,
            sync_dfllmul: 0,
            journal: Vec::new(),
        };
        assert(token@.journal =~= Seq::empty());
        token
    }

    /// Whether the oscillator runs.
    pub fn is_enabled(&self) -> (b: bool)
        ensures
            b == self@.enable,
    {
        self.enable
    }

    /// Whether the loop is closed.
    pub fn is_closed_mode(&self) -> (b: bool)
        ensures
            b == self@.closed_mode,
    {
        self.closed_mode
    }

    /// The factor by which the loop multiplies its reference.
    pub fn multiplier(&self) -> (v: u16)
        ensures
            v == self@.mul,
    {
        self.mul
    }

    /// The largest step of the coarse tuning, as its six bits hold it.
    pub fn coarse_step(&self) -> (v: u8)
        ensures
            v == self@.cstep,
    {
        self.cstep
    }

    /// The largest step of the fine tuning.
    pub fn fine_step(&self) -> (v: u8)
        ensures
            v == self@.fstep,
    {
        self.fstep
    }

    /// The accesses made so far, oldest first.
    pub fn journal(&self) -> (j: &Vec<DfllAccess>)
        ensures
            j@ == self@.journal,
    {
        &self.journal
    }

    /// Writes `value` to `field`. The write has not synchronized yet.
    fn write(&mut self, field: DfllField, value: u16)
        ensures
            final(self)@ == old(self)@.wrote(field, value),
    {
        match field {
            DfllField::Enable => {
                self.enable = value != 0;
                self.sync_enable = self.sync_delay;
            },
            DfllField::Mode => {
                self.closed_mode = value != 0;
                self.sync_dfllctrlb = self.sync_delay;
            },
            DfllField::FineStep => {
                self.fstep = (value & 0xff) as u8;
                self.sync_dfllmul = self.sync_delay;
            },
            DfllField::CoarseStep => {
                self.cstep = (value & 0x3f) as u8;
                self.sync_dfllmul = self.sync_delay;
            },
            DfllField::Multiplier => {
                self.mul = value;
                self.sync_dfllmul = self.sync_delay;
            },
        }
        self.journal.push(DfllAccess::Write(field, value));
    }

    /// Reads the synchronization bit of `group`. The hardware clears the bit
    /// once the write has taken effect.
    fn read_sync(&mut self, group: SyncGroup) -> (busy: bool)
        ensures
            busy == (old(self)@.sync(group) > 0),
            final(self)@ == old(self)@.with_sync(
                group,
                if busy {
                    (old(self)@.sync(group) - 1) as u8
                } else {
                    0
                },
            ),
    {
        match group {
            SyncGroup::Enable => {
                let busy = self.sync_enable > 0;
                if busy {
                    self.sync_enable = self.sync_enable - 1;
                }
                busy
            },
            SyncGroup::DfllCtrlB => {
                let busy = self.sync_dfllctrlb > 0;
                if busy {
                    self.sync_dfllctrlb = self.sync_dfllctrlb - 1;
                }
                busy
            },
            SyncGroup::DfllVal => {
                let busy = self.sync_dfllval > 0;
                if busy {
                    self.sync_dfllval = self.sync_dfllval - 1;
                }
                busy
            },
            SyncGroup::DfllMul => {
                let busy = self.sync_dfllmul > 0;
                if busy {
                    self.sync_dfllmul = self.sync_dfllmul - 1;
                }
                busy
            },
        }
    }

    /// Spins until the synchronization bit of `group` reads as clear.
    fn wait_sync(&mut self, group: SyncGroup)
        ensures
            final(self)@ == old(self)@.sync_awaited(group),
    {
        let mut busy = self.read_sync(group);
        while busy
            invariant
                !busy ==> self@.sync(group) == 0,
                self@ == old(self)@.with_sync(group, self@.sync(group)),
            decreases self@.sync(group) + (if busy { 1int } else { 0 }),
        {
            busy = self.read_sync(group);
        }
        self.journal.push(DfllAccess::AwaitSync(group));
    }

    /// Spins until a write of the enable bit has taken effect.
    pub(crate) fn wait_sync_enable(&mut self)
        ensures
            final(self)@ == old(self)@.sync_awaited(SyncGroup::Enable),
    {
        self.wait_sync(SyncGroup::Enable);
    }

    /// Spins until a write of the tuning parameters has taken effect.
    pub(crate) fn wait_sync_dfllmul(&mut self)
        ensures
            final(self)@ == old(self)@.sync_awaited(SyncGroup::DfllMul),
    {
        self.wait_sync(SyncGroup::DfllMul);
    }

    /// Spins until a write of the tuning values has taken effect.
    #[allow(dead_code)]
    pub(crate) fn wait_sync_dfllval(&mut self)
        ensures
            final(self)@ == old(self)@.sync_awaited(SyncGroup::DfllVal),
    {
        self.wait_sync(SyncGroup::DfllVal);
    }

    /// Spins until a write of the mode has taken effect.
    pub(crate) fn wait_sync_dfllctrlb(&mut self)
        ensures
            final(self)@ == old(self)@.sync_awaited(SyncGroup::DfllCtrlB),
    {
        self.wait_sync(SyncGroup::DfllCtrlB);
    }

    /// Sets the oscillator running.
    pub(crate) fn enable(&mut self)
        ensures
            final(self)@ == old(self)@.set(DfllField::Enable, 1),
    {
        self.write(DfllField::Enable, 1);
        self.wait_sync_enable();
    }

    /// Stops the oscillator.
    pub(crate) fn disable(&mut self)
        ensures
            final(self)@ == old(self)@.set(DfllField::Enable, 0),
    {
        self.write(DfllField::Enable, 0);
        self.wait_sync_enable();
    }

    /// Opens the loop.
    pub(crate) fn set_open_mode(&mut self)
        ensures
            final(self)@ == old(self)@.set(DfllField::Mode, 0),
    {
        self.write(DfllField::Mode, 0);
        self.wait_sync_dfllctrlb();
    }

    /// Closes the loop.
    pub(crate) fn set_closed_mode(&mut self)
        ensures
            final(self)@ == old(self)@.set(DfllField::Mode, 1),
    {
        self.write(DfllField::Mode, 1);
        self.wait_sync_dfllctrlb();
    }

    /// Sets the largest step of the fine tuning.
    pub(crate) fn set_fine_maximum_step(&mut self, value: u8)
        ensures
            final(self)@ == old(self)@.set(DfllField::FineStep, value as u16),
    {
        self.write(DfllField::FineStep, value as u16);
        self.wait_sync_dfllmul();
    }

    /// Sets the largest step of the coarse tuning. The field keeps the low
    /// six bits of `value`.
    pub(crate) fn set_coarse_maximum_step(&mut self, value: u8)
        ensures
            final(self)@ == old(self)@.set(DfllField::CoarseStep, value as u16),
    {
        self.write(DfllField::CoarseStep, value as u16);
        self.wait_sync_dfllmul();
    }

    /// Sets the factor by which the loop multiplies its reference.
    pub(crate) fn set_multiplication_factor(&mut self, value: u16)
        ensures
            final(self)@ == old(self)@.set(DfllField::Multiplier, value),
    {
        self.write(DfllField::Multiplier, value);
        self.wait_sync_dfllmul();
    }
}

pub type MultiplicationFactor = u16;

pub type CoarseMaximumStep = u8;

pub type FineMaximumStep = u8;

pub type Fine = u8;

pub type Coarse = u8;

/// A mode of the loop.
pub trait LoopMode: Sealed {

}

/// The open loop: the oscillator runs by itself.
pub struct OpenLoop {
    pub fine: Option<Fine>,
    pub coarse: Option<Coarse>,
}

impl LoopMode for OpenLoop {

}

impl Sealed for OpenLoop {

}

/// The closed loop: the oscillator follows a reference clock, which it
/// multiplies.
pub struct ClosedLoop<T: PclkSourceMarker> {
    pub reference_clk: Pclk<Dfll48, T>,
    pub coarse_maximum_step: CoarseMaximumStep,
    pub fine_maximum_step: FineMaximumStep,
}

impl<T: PclkSourceMarker> Sealed for ClosedLoop<T> {

}

impl<T: PclkSourceMarker> LoopMode for ClosedLoop<T> {

}

/// What a [`Dfll`] holds, as contracts speak of it.
pub struct DfllState<TMode> {
    pub token: DfllRegisters,
    /// The frequency that the factor multiplies.
    pub freq: Hertz,
    pub mode: TMode,
    pub multiplication_factor: MultiplicationFactor,
    pub standby_sleep_mode: bool,
    pub on_demand_mode: bool,
}

impl<TMode> DfllState<TMode> {
    /// The frequency of the oscillator's output, in hertz: the frequency
    /// that it multiplies, times the factor.
    pub open spec fn output(self) -> int {
        self.freq.0 * self.multiplication_factor
    }
}

/// The oscillator, in mode `TMode`.
pub struct Dfll<TMode: LoopMode> {
    token: DfllToken,
    freq: Hertz,
    mode: TMode,
    multiplication_factor: MultiplicationFactor,
    standby_sleep_mode: bool,
    on_demand_mode: bool,
}

impl<TMode: LoopMode> View for Dfll<TMode> {
    type V = DfllState<TMode>;

    closed spec fn view(&self) -> DfllState<TMode> {
        DfllState {
            token: self.token@,
            freq: self.freq,
            mode: self.mode,
            multiplication_factor: self.multiplication_factor,
            standby_sleep_mode: self.standby_sleep_mode,
            on_demand_mode: self.on_demand_mode,
        }
    }
}

impl<TMode: LoopMode> Sealed for Dfll<TMode> {

}

impl<TMode: LoopMode> Dfll<TMode> {
    /// The frequency of the oscillator's output. It has to fit the type.
    pub fn freq(&self) -> (f: Hertz)
        requires
            self@.output() <= u32::MAX,
        ensures
            f.0 == self@.output(),
    {
        Hertz(self.freq.0 * (self.multiplication_factor as u32))
    }

    /// Whether the oscillator may be asked to keep running in standby. This
    /// is kept with the oscillator and written to no register.
    pub fn set_standby_sleep_mode(&mut self, value: bool)
        ensures
            final(self)@ == (DfllState { standby_sleep_mode: value, ..old(self)@ }),
    {
        self.standby_sleep_mode = value;
    }

    /// Whether the oscillator may be asked to run on demand only. This is
    /// kept with the oscillator and written to no register.
    pub fn set_on_demand_mode(&mut self, value: bool)
        ensures
            final(self)@ == (DfllState { on_demand_mode: value, ..old(self)@ }),
    {
        self.on_demand_mode = value;
    }

    /// The token of the oscillator, to read.
    pub fn token(&self) -> (token: &DfllToken)
        ensures
            token@ == self@.token,
    {
        &self.token
    }
}

impl Dfll<OpenLoop> {
    /// The oscillator with an open loop, on its token: it will run at 48
    /// MHz, times a factor of one.
    pub fn in_open_mode(token: DfllToken) -> (dfll: Dfll<OpenLoop>)
        ensures
            dfll@ == (DfllState {
                token: token@,
                freq: Hertz(DFLL_FREQUENCY),
                mode: OpenLoop { fine: None, coarse: None },
                multiplication_factor: 1,
                standby_sleep_mode: false,
                on_demand_mode: false,
            }),
            dfll@.output() == 48_000_000,
    {
        Dfll {
            token,
            freq: Hertz::from_mhz(48),
            mode: OpenLoop { fine: None, coarse: None },
            multiplication_factor: 1_u16,
            standby_sleep_mode: false,
            on_demand_mode: false,
        }
    }

    /// Opens the loop, sets the oscillator running, and returns it as a
    /// running source without dependents.
    pub fn enable(self) -> (enabled: Enabled<Dfll<OpenLoop>>)
        ensures
            enabled.dependents() == 0,
            enabled.source()@ == (DfllState { token: self@.token.open_loop_enabled(), ..self@ }),
    {
        let mut this = self;
        this.token.set_open_mode();
        this.token.enable();
        Enabled::new(this)
    }

    /// Gives up the oscillator for its token.
    pub fn free(self) -> (token: DfllToken)
        ensures
            token@ == self@.token,
    {
        self.token
    }
}

impl<T: PclkSourceMarker> Dfll<ClosedLoop<T>> {
    /// The oscillator with a closed loop, on its token: it will run at the
    /// frequency of `reference_clk`, times `multiplication_factor`.
    pub fn in_closed_mode(
        token: DfllToken,
        reference_clk: Pclk<Dfll48, T>,
        multiplication_factor: MultiplicationFactor,
        coarse_maximum_step: CoarseMaximumStep,
        fine_maximum_step: FineMaximumStep,
    ) -> (dfll: Dfll<ClosedLoop<T>>)
        ensures
            dfll@ == (DfllState {
                token: token@,
                freq: reference_clk.spec_freq(),
                mode: ClosedLoop { reference_clk, coarse_maximum_step, fine_maximum_step },
                multiplication_factor,
                standby_sleep_mode: false,
                on_demand_mode: false,
            }),
    {
        Dfll {
            token,
            freq: reference_clk.freq(),
            mode: ClosedLoop { reference_clk, coarse_maximum_step, fine_maximum_step },
            multiplication_factor,
            standby_sleep_mode: false,
            on_demand_mode: false,
        }
    }

    /// Sets the factor that the next enabling writes.
    pub fn set_multiplication_factor(&mut self, multiplication_factor: MultiplicationFactor)
        ensures
            final(self)@ == (DfllState { multiplication_factor, ..old(self)@ }),
    {
        self.multiplication_factor = multiplication_factor;
    }

    /// Sets the largest coarse step that the next enabling writes.
    pub fn set_coarse_maximum_step(&mut self, coarse_maximum_step: CoarseMaximumStep)
        ensures
            final(self)@ == (DfllState {
                mode: ClosedLoop { coarse_maximum_step, ..old(self)@.mode },
                ..old(self)@
            }),
    {
        self.mode.coarse_maximum_step = coarse_maximum_step;
    }

    /// Sets the largest fine step that the next enabling writes.
    pub fn set_fine_maximum_step(&mut self, fine_maximum_step: FineMaximumStep)
        ensures
            final(self)@ == (DfllState {
                mode: ClosedLoop { fine_maximum_step, ..old(self)@.mode },
                ..old(self)@
            }),
    {
        self.mode.fine_maximum_step = fine_maximum_step;
    }

    /// Writes the fine step, the coarse step and the factor, then closes the
    /// loop, and returns the oscillator as a running source without
    /// dependents. The loop begins to follow its reference as soon as it is
    /// closed, so the parameters are in place before.
    pub fn enable(self) -> (enabled: Enabled<Dfll<ClosedLoop<T>>>)
        ensures
            enabled.dependents() == 0,
            enabled.source()@ == (DfllState {
                token: self@.token.closed_loop_enabled(
                    self@.mode.fine_maximum_step,
                    self@.mode.coarse_maximum_step,
                    self@.multiplication_factor,
                ),
                ..self@
            }),
    {
        let mut this = self;
        this.token.set_fine_maximum_step(this.mode.fine_maximum_step);
        this.token.set_coarse_maximum_step(this.mode.coarse_maximum_step);
        this.token.set_multiplication_factor(this.multiplication_factor);
        this.token.set_closed_mode();
        Enabled::new(this)
    }

    /// Gives up the oscillator for its token and its reference clock.
    pub fn free(self) -> (r: (DfllToken, Pclk<Dfll48, T>))
        ensures
            r.0@ == self@.token,
            r.1 == self@.mode.reference_clk,
    {
        (self.token, self.mode.reference_clk)
    }
}

impl<TMode: LoopMode> Enabled<Dfll<TMode>> {
    /// Stops the oscillator. Only an oscillator that nothing depends on can
    /// be stopped.
    pub fn disable(self) -> (dfll: Dfll<TMode>)
        requires
            self.dependents() == 0,
        ensures
            dfll@ == (DfllState {
                token: self.source()@.token.set(DfllField::Enable, 0),
                ..self.source()@
            }),
    {
        let mut dfll = self.into_source();
        dfll.token.disable();
        dfll
    }
}

impl Enabled<Dfll<OpenLoop>> {
    /// Closes the loop of a running oscillator. The caller hands in
    /// generator 0, fed by the oscillator, which has to be the one
    /// dependent of the oscillator: nothing else may rely on the frequency
    /// that is about to change. The oscillator is taken apart, built anew
    /// with a closed loop, and enabled; generator 0 comes back with it and
    /// is its one dependent as before.
    pub fn to_closed_mode<T: PclkSourceMarker>(
        self,
        gclk0: Gclk0<marker::Dfll>,
        reference_clk: Pclk<Dfll48, T>,
        multiplication_factor: MultiplicationFactor,
        coarse_maximum_step: CoarseMaximumStep,
        fine_maximum_step: FineMaximumStep,
    ) -> (r: (Enabled<Dfll<ClosedLoop<T>>>, Gclk0<marker::Dfll>))
        requires
            self.dependents() == 1,
        ensures
            r.0.dependents() == 1,
            r.0.source()@ == (DfllState {
                token: self.source()@.token.closed_loop_enabled(
                    fine_maximum_step,
                    coarse_maximum_step,
                    multiplication_factor,
                ),
                freq: reference_clk.spec_freq(),
                mode: ClosedLoop { reference_clk, coarse_maximum_step, fine_maximum_step },
                multiplication_factor,
                standby_sleep_mode: false,
                on_demand_mode: false,
            }),
            r.1 == gclk0,
    {
        let token = self.into_source().free();
        let dfll = Dfll::in_closed_mode(
            token,
            reference_clk,
            multiplication_factor,
            coarse_maximum_step,
            fine_maximum_step,
        );
        (dfll.enable().inc(), gclk0)
    }
}

impl<T: PclkSourceMarker> Enabled<Dfll<ClosedLoop<T>>> {
    /// Opens the loop of a running oscillator. The caller hands in
    /// generator 0, fed by the oscillator, which has to be the one
    /// dependent of the oscillator. The oscillator is taken apart, built
    /// anew with an open loop, and enabled; generator 0 comes back with it
    /// and is its one dependent as before, and the reference clock comes
    /// back as it was handed in.
    pub fn to_open_mode(self, gclk0: Gclk0<marker::Dfll>) -> (r: (
        Enabled<Dfll<OpenLoop>>,
        Gclk0<marker::Dfll>,
        Pclk<Dfll48, T>,
    ))
        requires
            self.dependents() == 1,
        ensures
            r.0.dependents() == 1,
            r.0.source()@ == (DfllState {
                token: self.source()@.token.open_loop_enabled(),
                freq: Hertz(DFLL_FREQUENCY),
                mode: OpenLoop { fine: None, coarse: None },
                multiplication_factor: 1,
                standby_sleep_mode: false,
                on_demand_mode: false,
            }),
            r.0.source()@.output() == 48_000_000,
            r.1 == gclk0,
            r.2 == self.source()@.mode.reference_clk,
    {
        let (token, pclk) = self.into_source().free();
        let dfll = Dfll::in_open_mode(token);
        (dfll.enable().inc(), gclk0, pclk)
    }
}

impl<TMode: LoopMode> GclkSource for Dfll<TMode> {
    type Type = marker::Dfll;
}

impl<TMode: LoopMode> Source for Enabled<Dfll<TMode>> {
    open spec fn spec_freq(&self) -> int {
        self.source()@.output()
    }

    fn freq(&self) -> (f: Hertz) {
        self.get().freq()
    }
}

} // verus!
