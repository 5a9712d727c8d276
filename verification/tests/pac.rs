use atsamd::pac::atsamd11c14a::{
    Interrupt, Peripherals, AC, ADC, DAC, DMAC, DSU, EIC, EVSYS, GCLK, HMATRIX, MTB, NVMCTRL,
    NVIC_PRIO_BITS, PAC0, PAC1, PAC2, PM, PORT, PORT_IOBUS, RTC, SERCOM0, SERCOM1, SYSCTRL, TC1,
    TC2, TCC0, USB, WDT,
};
use atsamd::pac::bkupcfg;
use atsamd::pac::bkupcfg::{BRAMCFG_A, BKUPCFG};
use atsamd::pac::chstatus;
use atsamd::pac::chstatus::CHSTATUS;
use atsamd::pac::generic::{ResetValue, Variant};

#[test]
fn interrupt_numbers() {
    let all = [
        (Interrupt::PM, 0u8),
        (Interrupt::SYSCTRL, 1),
        (Interrupt::WDT, 2),
        (Interrupt::RTC, 3),
        (Interrupt::EIC, 4),
        (Interrupt::NVMCTRL, 5),
        (Interrupt::DMAC, 6),
        (Interrupt::USB, 7),
        (Interrupt::EVSYS, 8),
        (Interrupt::SERCOM0, 9),
        (Interrupt::SERCOM1, 10),
        (Interrupt::TCC0, 12),
        (Interrupt::TC1, 13),
        (Interrupt::TC2, 14),
        (Interrupt::ADC, 15),
        (Interrupt::AC, 16),
        (Interrupt::DAC, 17),
    ];
    for (interrupt, nr) in all {
        assert_eq!(interrupt.nr(), nr);
    }
    assert_eq!(NVIC_PRIO_BITS, 2);
}

#[test]
fn register_block_addresses() {
    assert_eq!(AC::ptr(), 0x4200_2400);
    assert_eq!(ADC::ptr(), 0x4200_2000);
    assert_eq!(DAC::ptr(), 0x4200_2800);
    assert_eq!(DMAC::ptr(), 0x4100_4800);
    assert_eq!(DSU::ptr(), 0x4100_2000);
    assert_eq!(EIC::ptr(), 0x4000_1800);
    assert_eq!(EVSYS::ptr(), 0x4200_0400);
    assert_eq!(GCLK::ptr(), 0x4000_0c00);
    assert_eq!(HMATRIX::ptr(), 0x4100_7000);
    assert_eq!(MTB::ptr(), 0x4100_6000);
    assert_eq!(NVMCTRL::ptr(), 0x4100_4000);
    assert_eq!(PAC0::ptr(), 0x4000_0000);
    assert_eq!(PAC1::ptr(), 0x4100_0000);
    assert_eq!(PAC2::ptr(), 0x4200_0000);
    assert_eq!(PM::ptr(), 0x4000_0400);
    assert_eq!(PORT::ptr(), 0x4100_4400);
    assert_eq!(PORT_IOBUS::ptr(), 0x6000_0000);
    assert_eq!(RTC::ptr(), 0x4000_1400);
    assert_eq!(SERCOM0::ptr(), 0x4200_0800);
    assert_eq!(SERCOM1::ptr(), 0x4200_0c00);
    assert_eq!(SYSCTRL::ptr(), 0x4000_0800);
    assert_eq!(TC1::ptr(), 0x4200_1800);
    assert_eq!(TC2::ptr(), 0x4200_1c00);
    assert_eq!(TCC0::ptr(), 0x4200_1400);
    assert_eq!(USB::ptr(), 0x4100_5000);
    assert_eq!(WDT::ptr(), 0x4000_1000);
}

#[test]
fn peripherals_are_taken_once() {
    let mut taken = false;
    assert!(Peripherals::take(&mut taken).is_some());
    assert!(taken);
    assert!(Peripherals::take(&mut taken).is_none());
    assert!(taken);
    let _again = Peripherals::steal(&mut taken);
    assert!(taken);
    let mut fresh = false;
    let _stolen = Peripherals::steal(&mut fresh);
    assert!(fresh);
    assert!(Peripherals::take(&mut fresh).is_none());
}

#[test]
fn bramcfg_is_read_from_bits_0_and_1() {
    let r = bkupcfg::R::new(0b1111_1101);
    let field = r.bramcfg();
    assert_eq!(field.bits(), 1);
    assert_eq!(field.variant(), Variant::Val(BRAMCFG_A::PARTIAL));
    assert!(field.is_partial());
    assert!(!field.is_ret());
    assert!(!field.is_off());

    assert_eq!(bkupcfg::R::new(0).bramcfg().variant(), Variant::Val(BRAMCFG_A::RET));
    assert!(bkupcfg::R::new(0b100).bramcfg().is_ret());
    assert_eq!(bkupcfg::R::new(2).bramcfg().variant(), Variant::Val(BRAMCFG_A::OFF));
    assert!(bkupcfg::R::new(2).bramcfg().is_off());
    let reserved = bkupcfg::R::new(3).bramcfg();
    assert_eq!(reserved.variant(), Variant::Res(3));
    assert!(!reserved.is_ret() && !reserved.is_partial() && !reserved.is_off());
}

#[test]
fn bramcfg_is_written_to_bits_0_and_1() {
    let mut w = bkupcfg::W::new(0b1010_0111);
    w.bramcfg().ret();
    assert_eq!(w.bits, 0b1010_0100);
    w.bramcfg().partial();
    assert_eq!(w.bits, 0b1010_0101);
    w.bramcfg().off();
    assert_eq!(w.bits, 0b1010_0110);
    w.bramcfg().variant(BRAMCFG_A::PARTIAL);
    assert_eq!(w.bits, 0b1010_0101);
    w.bramcfg().bits(0xff);
    assert_eq!(w.bits, 0b1010_0111);
    w.bramcfg().off().bramcfg().ret();
    assert_eq!(w.bits, 0b1010_0100);
    assert_eq!(u8::from(BRAMCFG_A::RET), 0);
    assert_eq!(u8::from(BRAMCFG_A::PARTIAL), 1);
    assert_eq!(u8::from(BRAMCFG_A::OFF), 2);
    assert_eq!(BRAMCFG_A::RET.bits(), 0);
    assert_eq!(BRAMCFG_A::PARTIAL.bits(), 1);
    assert_eq!(BRAMCFG_A::OFF.bits(), 2);
    assert_eq!(<BKUPCFG as ResetValue>::reset_value(), 0);
}

#[test]
fn chstatus_fields() {
    let r = chstatus::R::new(0b0000_0001);
    assert!(r.pend().bit());
    assert!(!r.busy().bit());
    assert!(!r.ferr().bit());
    assert!(!r.crcerr().bit());
    let r = chstatus::R::new(0b0000_0010);
    assert!(r.busy().bit_is_set());
    assert!(r.pend().bit_is_clear());
    let r = chstatus::R::new(0b0000_0100);
    assert!(r.ferr().bit());
    assert!(!r.busy().bit() && !r.pend().bit() && !r.crcerr().bit());
    let r = chstatus::R::new(0b1111_1000);
    assert!(r.crcerr().bit());
    assert!(!r.ferr().bit());
    assert_eq!(r.bits(), 0b1111_1000);
    assert_eq!(<CHSTATUS as ResetValue>::reset_value(), 0);
}

#[test]
fn crcerr_is_written_to_bit_3() {
    let mut w = chstatus::W::new(0b0000_0111);
    w.crcerr().set_bit();
    assert_eq!(w.bits, 0b0000_1111);
    w.crcerr().clear_bit();
    assert_eq!(w.bits, 0b0000_0111);
    w.crcerr().bit(true);
    assert_eq!(w.bits, 0b0000_1111);
    w.crcerr().bit(true);
    assert_eq!(w.bits, 0b0000_1111);
    w.crcerr().bit(false).crcerr().set_bit();
    assert_eq!(w.bits, 0b0000_1111);
    let mut w = chstatus::W::new(0xf0);
    w.crcerr().clear_bit();
    assert_eq!(w.bits, 0xf0);
    assert!(chstatus::R::new(0x08).crcerr().bit());
}
