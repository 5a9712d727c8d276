//! The peripherals of the ATSAMD11C14A, and its interrupts.
//!
//! A peripheral is a value without content: who holds it may touch the
//! registers of that peripheral, which start at the address that `ptr` gives.

use vstd::prelude::*;

verus! {

/// Number available in the NVIC for configuring priority
pub const NVIC_PRIO_BITS: u8 = 2;

/// Enumeration of all the interrupts
#[derive(Clone, Copy, Debug, PartialEq, Eq, Structural)]
pub enum Interrupt {
    /// 0 - PM
    PM,
    /// 1 - SYSCTRL
    SYSCTRL,
    /// 2 - WDT
    WDT,
    /// 3 - RTC
    RTC,
    /// 4 - EIC
    EIC,
    /// 5 - NVMCTRL
    NVMCTRL,
    /// 6 - DMAC
    DMAC,
    /// 7 - USB
    USB,
    /// 8 - EVSYS
    EVSYS,
    /// 9 - SERCOM0
    SERCOM0,
    /// 10 - SERCOM1
    SERCOM1,
    /// 12 - TCC0
    TCC0,
    /// 13 - TC1
    TC1,
    /// 14 - TC2
    TC2,
    /// 15 - ADC
    ADC,
    /// 16 - AC
    AC,
    /// 17 - DAC
    DAC,
}

impl Interrupt {
    /// The number of the interrupt: its place in the vector table.
    pub open spec fn spec_nr(&self) -> u8 {
        match *self {
            Interrupt::PM => 0,
            Interrupt::SYSCTRL => 1,
            Interrupt::WDT => 2,
            Interrupt::RTC => 3,
            Interrupt::EIC => 4,
            Interrupt::NVMCTRL => 5,
            Interrupt::DMAC => 6,
            Interrupt::USB => 7,
            Interrupt::EVSYS => 8,
            Interrupt::SERCOM0 => 9,
            Interrupt::SERCOM1 => 10,
            Interrupt::TCC0 => 12,
            Interrupt::TC1 => 13,
            Interrupt::TC2 => 14,
            Interrupt::ADC => 15,
            Interrupt::AC => 16,
            Interrupt::DAC => 17,
        }
    }

    /// The number of the interrupt: its place in the vector table.
    #[verifier::when_used_as_spec(spec_nr)]
    pub fn nr(&self) -> (n: u8)
        ensures
            n == self.spec_nr(),
            n < 18,
            n != 11,
    {
        match *self {
            Interrupt::PM => 0,
            Interrupt::SYSCTRL => 1,
            Interrupt::WDT => 2,
            Interrupt::RTC => 3,
            Interrupt::EIC => 4,
            Interrupt::NVMCTRL => 5,
            Interrupt::DMAC => 6,
            Interrupt::USB => 7,
            Interrupt::EVSYS => 8,
            Interrupt::SERCOM0 => 9,
            Interrupt::SERCOM1 => 10,
            Interrupt::TCC0 => 12,
            Interrupt::TC1 => 13,
            Interrupt::TC2 => 14,
            Interrupt::ADC => 15,
            Interrupt::AC => 16,
            Interrupt::DAC => 17,
        }
    }
}

/// No two interrupts have the same number.
pub proof fn interrupt_numbers_differ(a: Interrupt, b: Interrupt)
    ensures
        a.spec_nr() == b.spec_nr() ==> a == b,
{
}

/// Analog Comparators
#[allow(non_camel_case_types)]
pub struct AC {
    _marker: (),
}

impl AC {
    /// Returns the address of the register block
    pub fn ptr() -> (address: usize)
        ensures
            address == 0x4200_2400,
    {
        0x4200_2400
    }
}

/// Analog Digital Converter
#[allow(non_camel_case_types)]
pub struct ADC {
    _marker: (),
}

impl ADC {
    /// Returns the address of the register block
    pub fn ptr() -> (address: usize)
        ensures
            address == 0x4200_2000,
    {
        0x4200_2000
    }
}

/// Digital Analog Converter
#[allow(non_camel_case_types)]
pub struct DAC {
    _marker: (),
}

impl DAC {
    /// Returns the address of the register block
    pub fn ptr() -> (address: usize)
        ensures
            address == 0x4200_2800,
    {
        0x4200_2800
    }
}

/// Direct Memory Access Controller
#[allow(non_camel_case_types)]
pub struct DMAC {
    _marker: (),
}

impl DMAC {
    /// Returns the address of the register block
    pub fn ptr() -> (address: usize)
        ensures
            address == 0x4100_4800,
    {
        0x4100_4800
    }
}

/// Device Service Unit
#[allow(non_camel_case_types)]
pub struct DSU {
    _marker: (),
}

impl DSU {
    /// Returns the address of the register block
    pub fn ptr() -> (address: usize)
        ensures
            address == 0x4100_2000,
    {
        0x4100_2000
    }
}

/// External Interrupt Controller
#[allow(non_camel_case_types)]
pub struct EIC {
    _marker: (),
}

impl EIC {
    /// Returns the address of the register block
    pub fn ptr() -> (address: usize)
        ensures
            address == 0x4000_1800,
    {
        0x4000_1800
    }
}

/// Event System Interface
#[allow(non_camel_case_types)]
pub struct EVSYS {
    _marker: (),
}

impl EVSYS {
    /// Returns the address of the register block
    pub fn ptr() -> (address: usize)
        ensures
            address == 0x4200_0400,
    {
        0x4200_0400
    }
}

/// Generic Clock Generator
#[allow(non_camel_case_types)]
pub struct GCLK {
    _marker: (),
}

impl GCLK {
    /// Returns the address of the register block
    pub fn ptr() -> (address: usize)
        ensures
            address == 0x4000_0c00,
    {
        0x4000_0c00
    }
}

/// HSB Matrix
#[allow(non_camel_case_types)]
pub struct HMATRIX {
    _marker: (),
}

impl HMATRIX {
    /// Returns the address of the register block
    pub fn ptr() -> (address: usize)
        ensures
            address == 0x4100_7000,
    {
        0x4100_7000
    }
}

/// Cortex-M0+ Micro-Trace Buffer
#[allow(non_camel_case_types)]
pub struct MTB {
    _marker: (),
}

impl MTB {
    /// Returns the address of the register block
    pub fn ptr() -> (address: usize)
        ensures
            address == 0x4100_6000,
    {
        0x4100_6000
    }
}

/// Non-Volatile Memory Controller
#[allow(non_camel_case_types)]
pub struct NVMCTRL {
    _marker: (),
}

impl NVMCTRL {
    /// Returns the address of the register block
    pub fn ptr() -> (address: usize)
        ensures
            address == 0x4100_4000,
    {
        0x4100_4000
    }
}

/// Peripheral Access Controller 0
#[allow(non_camel_case_types)]
pub struct PAC0 {
    _marker: (),
}

impl PAC0 {
    /// Returns the address of the register block
    pub fn ptr() -> (address: usize)
        ensures
            address == 0x4000_0000,
    {
        0x4000_0000
    }
}

/// Peripheral Access Controller 1
#[allow(non_camel_case_types)]
pub struct PAC1 {
    _marker: (),
}

impl PAC1 {
    /// Returns the address of the register block
    pub fn ptr() -> (address: usize)
        ensures
            address == 0x4100_0000,
    {
        0x4100_0000
    }
}

/// Peripheral Access Controller 2
#[allow(non_camel_case_types)]
pub struct PAC2 {
    _marker: (),
}

impl PAC2 {
    /// Returns the address of the register block
    pub fn ptr() -> (address: usize)
        ensures
            address == 0x4200_0000,
    {
        0x4200_0000
    }
}

/// Power Manager
#[allow(non_camel_case_types)]
pub struct PM {
    _marker: (),
}

impl PM {
    /// Returns the address of the register block
    pub fn ptr() -> (address: usize)
        ensures
            address == 0x4000_0400,
    {
        0x4000_0400
    }
}

/// Port Module
#[allow(non_camel_case_types)]
pub struct PORT {
    _marker: (),
}

impl PORT {
    /// Returns the address of the register block
    pub fn ptr() -> (address: usize)
        ensures
            address == 0x4100_4400,
    {
        0x4100_4400
    }
}

/// Port Module (IOBUS)
#[allow(non_camel_case_types)]
pub struct PORT_IOBUS {
    _marker: (),
}

impl PORT_IOBUS {
    /// Returns the address of the register block
    pub fn ptr() -> (address: usize)
        ensures
            address == 0x6000_0000,
    {
        0x6000_0000
    }
}

/// Real-Time Counter
#[allow(non_camel_case_types)]
pub struct RTC {
    _marker: (),
}

impl RTC {
    /// Returns the address of the register block
    pub fn ptr() -> (address: usize)
        ensures
            address == 0x4000_1400,
    {
        0x4000_1400
    }
}

/// Serial Communication Interface 0
#[allow(non_camel_case_types)]
pub struct SERCOM0 {
    _marker: (),
}

impl SERCOM0 {
    /// Returns the address of the register block
    pub fn ptr() -> (address: usize)
        ensures
            address == 0x4200_0800,
    {
        0x4200_0800
    }
}

/// Serial Communication Interface 1
#[allow(non_camel_case_types)]
pub struct SERCOM1 {
    _marker: (),
}

impl SERCOM1 {
    /// Returns the address of the register block
    pub fn ptr() -> (address: usize)
        ensures
            address == 0x4200_0c00,
    {
        0x4200_0c00
    }
}

/// System Control
#[allow(non_camel_case_types)]
pub struct SYSCTRL {
    _marker: (),
}

impl SYSCTRL {
    /// Returns the address of the register block
    pub fn ptr() -> (address: usize)
        ensures
            address == 0x4000_0800,
    {
        0x4000_0800
    }
}

/// Basic Timer Counter 1
#[allow(non_camel_case_types)]
pub struct TC1 {
    _marker: (),
}

impl TC1 {
    /// Returns the address of the register block
    pub fn ptr() -> (address: usize)
        ensures
            address == 0x4200_1800,
    {
        0x4200_1800
    }
}

/// Basic Timer Counter 2
#[allow(non_camel_case_types)]
pub struct TC2 {
    _marker: (),
}

impl TC2 {
    /// Returns the address of the register block
    pub fn ptr() -> (address: usize)
        ensures
            address == 0x4200_1c00,
    {
        0x4200_1c00
    }
}

/// Timer Counter Control
#[allow(non_camel_case_types)]
pub struct TCC0 {
    _marker: (),
}

impl TCC0 {
    /// Returns the address of the register block
    pub fn ptr() -> (address: usize)
        ensures
            address == 0x4200_1400,
    {
        0x4200_1400
    }
}

/// Universal Serial Bus
#[allow(non_camel_case_types)]
pub struct USB {
    _marker: (),
}

impl USB {
    /// Returns the address of the register block
    pub fn ptr() -> (address: usize)
        ensures
            address == 0x4100_5000,
    {
        0x4100_5000
    }
}

/// Watchdog Timer
#[allow(non_camel_case_types)]
pub struct WDT {
    _marker: (),
}

impl WDT {
    /// Returns the address of the register block
    pub fn ptr() -> (address: usize)
        ensures
            address == 0x4000_1000,
    {
        0x4000_1000
    }
}

/// All the peripherals
#[allow(non_snake_case)]
pub struct Peripherals {
    /// AC
    pub AC: AC,
    /// ADC
    pub ADC: ADC,
    /// DAC
    pub DAC: DAC,
    /// DMAC
    pub DMAC: DMAC,
    /// DSU
    pub DSU: DSU,
    /// EIC
    pub EIC: EIC,
    /// EVSYS
    pub EVSYS: EVSYS,
    /// GCLK
    pub GCLK: GCLK,
    /// HMATRIX
    pub HMATRIX: HMATRIX,
    /// MTB
    pub MTB: MTB,
    /// NVMCTRL
    pub NVMCTRL: NVMCTRL,
    /// PAC0
    pub PAC0: PAC0,
    /// PAC1
    pub PAC1: PAC1,
    /// PAC2
    pub PAC2: PAC2,
    /// PM
    pub PM: PM,
    /// PORT
    pub PORT: PORT,
    /// PORT_IOBUS
    pub PORT_IOBUS: PORT_IOBUS,
    /// RTC
    pub RTC: RTC,
    /// SERCOM0
    pub SERCOM0: SERCOM0,
    /// SERCOM1
    pub SERCOM1: SERCOM1,
    /// SYSCTRL
    pub SYSCTRL: SYSCTRL,
    /// TC1
    pub TC1: TC1,
    /// TC2
    pub TC2: TC2,
    /// TCC0
    pub TCC0: TCC0,
    /// USB
    pub USB: USB,
    /// WDT
    pub WDT: WDT,
}

impl Peripherals {
    /// Returns all the peripherals *once*: `taken` says whether they were
    /// handed out before, and says so afterwards in any case.
    pub fn take(taken: &mut bool) -> (r: Option<Peripherals>)
        ensures
            r.is_some() == !*old(taken),
            *final(taken),
    {
        if *taken {
            None
        } else {
            Some(Peripherals::steal(taken))
        }
    }

    /// Unchecked version of `Peripherals::take`: hands out all the
    /// peripherals, whether or not they were handed out before.
    pub fn steal(taken: &mut bool) -> (r: Peripherals)
        ensures
            *final(taken),
    {
        *taken = true;
        Peripherals {
            AC: AC { _marker: () },
            ADC: ADC { _marker: () },
            DAC: DAC { _marker: () },
            DMAC: DMAC { _marker: () },
            DSU: DSU { _marker: () },
            EIC: EIC { _marker: () },
            EVSYS: EVSYS { _marker: () },
            GCLK: GCLK { _marker: () },
            HMATRIX: HMATRIX { _marker: () },
            MTB: MTB { _marker: () },
            NVMCTRL: NVMCTRL { _marker: () },
            PAC0: PAC0 { _marker: () },
            PAC1: PAC1 { _marker: () },
            PAC2: PAC2 { _marker: () },
            PM: PM { _marker: () },
            PORT: PORT { _marker: () },
            PORT_IOBUS: PORT_IOBUS { _marker: () },
            RTC: RTC { _marker: () },
            SERCOM0: SERCOM0 { _marker: () },
            SERCOM1: SERCOM1 { _marker: () },
            SYSCTRL: SYSCTRL { _marker: () },
            TC1: TC1 { _marker: () },
            TC2: TC2 { _marker: () },
            TCC0: TCC0 { _marker: () },
            USB: USB { _marker: () },
            WDT: WDT { _marker: () },
        }
    }
}

} // verus!
