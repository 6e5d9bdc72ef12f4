//! Interrupt request numbers.
//!
//! The interrupt identifier space of the chip splits into three closed
//! classes: software-generated interrupts (ids 0 to 15), private peripheral
//! interrupts (ids 27 to 31) and shared peripheral interrupts (ids 32 to 92,
//! with id 36 reserved).  Every other id is rejected by the decoders.

use vstd::prelude::*;

verus! {

/// True if `value` is the id of a software-generated interrupt.
pub open spec fn sgi_number_ok(value: u32) -> bool {
    value <= 15
}

/// True if `value` is the id of a private peripheral interrupt.
pub open spec fn ppi_number_ok(value: u32) -> bool {
    27 <= value <= 31
}

/// True if `value` is the id of a shared peripheral interrupt.
pub open spec fn spi_number_ok(value: u32) -> bool {
    32 <= value <= 92 && value != 36
}

/// True if `value` is the id of some interrupt source of the chip.
pub open spec fn irq_number_ok(value: u32) -> bool {
    sgi_number_ok(value) || ppi_number_ok(value) || spi_number_ok(value)
}

/// Software generated interrupt.
#[derive(Clone, Copy, Debug, PartialEq, Eq, Structural)]
pub enum SgiIrq {
    Sgi0,
    Sgi1,
    Sgi2,
    Sgi3,
    Sgi4,
    Sgi5,
    Sgi6,
    Sgi7,
    Sgi8,
    Sgi9,
    Sgi10,
    Sgi11,
    Sgi12,
    Sgi13,
    Sgi14,
    Sgi15,
}

impl SgiIrq {
    /// The flat numeric interrupt id of this source.
    pub open spec fn spec_number(self) -> u32 {
        match self {
            Self::Sgi0 => 0,
            Self::Sgi1 => 1,
            Self::Sgi2 => 2,
            Self::Sgi3 => 3,
            Self::Sgi4 => 4,
            Self::Sgi5 => 5,
            Self::Sgi6 => 6,
            Self::Sgi7 => 7,
            Self::Sgi8 => 8,
            Self::Sgi9 => 9,
            Self::Sgi10 => 10,
            Self::Sgi11 => 11,
            Self::Sgi12 => 12,
            Self::Sgi13 => 13,
            Self::Sgi14 => 14,
            Self::Sgi15 => 15,
        }
    }

    /// Decode a flat numeric interrupt id; ids outside the class are
    /// rejected and handed back unchanged.
    pub fn from_u32(value: u32) -> (result: Result<Self, u32>)
        ensures
            sgi_number_ok(value) ==> (result matches Ok(decoded) && decoded.spec_number() == value),
            !sgi_number_ok(value) ==> result == Err::<SgiIrq, u32>(value),
    {
        match value {
            0 => Ok(Self::Sgi0),
            1 => Ok(Self::Sgi1),
            2 => Ok(Self::Sgi2),
            3 => Ok(Self::Sgi3),
            4 => Ok(Self::Sgi4),
            5 => Ok(Self::Sgi5),
            6 => Ok(Self::Sgi6),
            7 => Ok(Self::Sgi7),
            8 => Ok(Self::Sgi8),
            9 => Ok(Self::Sgi9),
            10 => Ok(Self::Sgi10),
            11 => Ok(Self::Sgi11),
            12 => Ok(Self::Sgi12),
            13 => Ok(Self::Sgi13),
            14 => Ok(Self::Sgi14),
            15 => Ok(Self::Sgi15),
            unknown => Err(unknown),
        }
    }

    /// The flat numeric interrupt id of this source.
    pub fn as_u32(self) -> (result: u32)
        ensures
            result == self.spec_number(),
    {
        match self {
            Self::Sgi0 => 0,
            Self::Sgi1 => 1,
            Self::Sgi2 => 2,
            Self::Sgi3 => 3,
            Self::Sgi4 => 4,
            Self::Sgi5 => 5,
            Self::Sgi6 => 6,
            Self::Sgi7 => 7,
            Self::Sgi8 => 8,
            Self::Sgi9 => 9,
            Self::Sgi10 => 10,
            Self::Sgi11 => 11,
            Self::Sgi12 => 12,
            Self::Sgi13 => 13,
            Self::Sgi14 => 14,
            Self::Sgi15 => 15,
        }
    }
}

/// Private peripheral interrupt.
#[derive(Clone, Copy, Debug, PartialEq, Eq, Structural)]
pub enum PpiIrq {
    GlobalTimer,
    NFiq,
    CpuPrivateTimer,
    Awdt,
    NIrq,
}

impl PpiIrq {
    /// The flat numeric interrupt id of this source.
    pub open spec fn spec_number(self) -> u32 {
        match self {
            Self::GlobalTimer => 27,
            Self::NFiq => 28,
            Self::CpuPrivateTimer => 29,
            Self::Awdt => 30,
            Self::NIrq => 31,
        }
    }

    /// Decode a flat numeric interrupt id; ids outside the class are
    /// rejected and handed back unchanged.
    pub fn from_u32(value: u32) -> (result: Result<Self, u32>)
        ensures
            ppi_number_ok(value) ==> (result matches Ok(decoded) && decoded.spec_number() == value),
            !ppi_number_ok(value) ==> result == Err::<PpiIrq, u32>(value),
    {
        match value {
            27 => Ok(Self::GlobalTimer),
            28 => Ok(Self::NFiq),
            29 => Ok(Self::CpuPrivateTimer),
            30 => Ok(Self::Awdt),
            31 => Ok(Self::NIrq),
            unknown => Err(unknown),
        }
    }

    /// The flat numeric interrupt id of this source.
    pub fn as_u32(self) -> (result: u32)
        ensures
            result == self.spec_number(),
    {
        match self {
            Self::GlobalTimer => 27,
            Self::NFiq => 28,
            Self::CpuPrivateTimer => 29,
            Self::Awdt => 30,
            Self::NIrq => 31,
        }
    }
}

/// Shared peripheral interrupt.
#[derive(Clone, Copy, Debug, PartialEq, Eq, Structural)]
pub enum SpiIrq {
    Cpu0,
    Cpu1,
    L2Cache,
    Ocm,
    Pmu0,
    Pmu1,
    Xadc,
    DevC,
    Swdt,
    Ttc00,
    Ttc01,
    Ttc02,
    DmacAbort,
    Dmac0,
    Dmac1,
    Dmac2,
    Dmac3,
    Smc,
    QuadSpi,
    Gpio,
    Usb0,
    Ethernet0,
    Ethernet0Wakeup,
    Sdio0,
    I2c0,
    Spi0,
    Uart0,
    Can0,
    Pl0,
    Pl1,
    Pl2,
    Pl3,
    Pl4,
    Pl5,
    Pl6,
    Pl7,
    Ttc10,
    Ttc11,
    Ttc12,
    Dmac4,
    Dmac5,
    Dmac6,
    Dmac7,
    Usb1,
    Ethernet1,
    Ethernet1Wakeup,
    Sdio1,
    I2c1,
    Spi1,
    Uart1,
    Can1,
    Pl8,
    Pl9,
    Pl10,
    Pl11,
    Pl12,
    Pl13,
    Pl14,
    Pl15,
    Parity,
}

impl SpiIrq {
    /// The flat numeric interrupt id of this source.
    pub open spec fn spec_number(self) -> u32 {
        match self {
            Self::Cpu0 => 32,
            Self::Cpu1 => 33,
            Self::L2Cache => 34,
            Self::Ocm => 35,
            Self::Pmu0 => 37,
            Self::Pmu1 => 38,
            Self::Xadc => 39,
            Self::DevC => 40,
            Self::Swdt => 41,
            Self::Ttc00 => 42,
            Self::Ttc01 => 43,
            Self::Ttc02 => 44,
            Self::DmacAbort => 45,
            Self::Dmac0 => 46,
            Self::Dmac1 => 47,
            Self::Dmac2 => 48,
            Self::Dmac3 => 49,
            Self::Smc => 50,
            Self::QuadSpi => 51,
            Self::Gpio => 52,
            Self::Usb0 => 53,
            Self::Ethernet0 => 54,
            Self::Ethernet0Wakeup => 55,
            Self::Sdio0 => 56,
            Self::I2c0 => 57,
            Self::Spi0 => 58,
            Self::Uart0 => 59,
            Self::Can0 => 60,
            Self::Pl0 => 61,
            Self::Pl1 => 62,
            Self::Pl2 => 63,
            Self::Pl3 => 64,
            Self::Pl4 => 65,
            Self::Pl5 => 66,
            Self::Pl6 => 67,
            Self::Pl7 => 68,
            Self::Ttc10 => 69,
            Self::Ttc11 => 70,
            Self::Ttc12 => 71,
            Self::Dmac4 => 72,
            Self::Dmac5 => 73,
            Self::Dmac6 => 74,
            Self::Dmac7 => 75,
            Self::Usb1 => 76,
            Self::Ethernet1 => 77,
            Self::Ethernet1Wakeup => 78,
            Self::Sdio1 => 79,
            Self::I2c1 => 80,
            Self::Spi1 => 81,
            Self::Uart1 => 82,
            Self::Can1 => 83,
            Self::Pl8 => 84,
            Self::Pl9 => 85,
            Self::Pl10 => 86,
            Self::Pl11 => 87,
            Self::Pl12 => 88,
            Self::Pl13 => 89,
            Self::Pl14 => 90,
            Self::Pl15 => 91,
            Self::Parity => 92,
        }
    }

    /// Decode a flat numeric interrupt id; ids outside the class are
    /// rejected and handed back unchanged.
    pub fn from_u32(value: u32) -> (result: Result<Self, u32>)
        ensures
            spi_number_ok(value) ==> (result matches Ok(decoded) && decoded.spec_number() == value),
            !spi_number_ok(value) ==> result == Err::<SpiIrq, u32>(value),
    {
        match value {
            32 => Ok(Self::Cpu0),
            33 => Ok(Self::Cpu1),
            34 => Ok(Self::L2Cache),
            35 => Ok(Self::Ocm),
            37 => Ok(Self::Pmu0),
            38 => Ok(Self::Pmu1),
            39 => Ok(Self::Xadc),
            40 => Ok(Self::DevC),
            41 => Ok(Self::Swdt),
            42 => Ok(Self::Ttc00),
            43 => Ok(Self::Ttc01),
            44 => Ok(Self::Ttc02),
            45 => Ok(Self::DmacAbort),
            46 => Ok(Self::Dmac0),
            47 => Ok(Self::Dmac1),
            48 => Ok(Self::Dmac2),
            49 => Ok(Self::Dmac3),
            50 => Ok(Self::Smc),
            51 => Ok(Self::QuadSpi),
            52 => Ok(Self::Gpio),
            53 => Ok(Self::Usb0),
            54 => Ok(Self::Ethernet0),
            55 => Ok(Self::Ethernet0Wakeup),
            56 => Ok(Self::Sdio0),
            57 => Ok(Self::I2c0),
            58 => Ok(Self::Spi0),
            59 => Ok(Self::Uart0),
            60 => Ok(Self::Can0),
            61 => Ok(Self::Pl0),
            62 => Ok(Self::Pl1),
            63 => Ok(Self::Pl2),
            64 => Ok(Self::Pl3),
            65 => Ok(Self::Pl4),
            66 => Ok(Self::Pl5),
            67 => Ok(Self::Pl6),
            68 => Ok(Self::Pl7),
            69 => Ok(Self::Ttc10),
            70 => Ok(Self::Ttc11),
            71 => Ok(Self::Ttc12),
            72 => Ok(Self::Dmac4),
            73 => Ok(Self::Dmac5),
            74 => Ok(Self::Dmac6),
            75 => Ok(Self::Dmac7),
            76 => Ok(Self::Usb1),
            77 => Ok(Self::Ethernet1),
            78 => Ok(Self::Ethernet1Wakeup),
            79 => Ok(Self::Sdio1),
            80 => Ok(Self::I2c1),
            81 => Ok(Self::Spi1),
            82 => Ok(Self::Uart1),
            83 => Ok(Self::Can1),
            84 => Ok(Self::Pl8),
            85 => Ok(Self::Pl9),
            86 => Ok(Self::Pl10),
            87 => Ok(Self::Pl11),
            88 => Ok(Self::Pl12),
            89 => Ok(Self::Pl13),
            90 => Ok(Self::Pl14),
            91 => Ok(Self::Pl15),
            92 => Ok(Self::Parity),
            unknown => Err(unknown),
        }
    }

    /// The flat numeric interrupt id of this source.
    pub fn as_u32(self) -> (result: u32)
        ensures
            result == self.spec_number(),
    {
        match self {
            Self::Cpu0 => 32,
            Self::Cpu1 => 33,
            Self::L2Cache => 34,
            Self::Ocm => 35,
            Self::Pmu0 => 37,
            Self::Pmu1 => 38,
            Self::Xadc => 39,
            Self::DevC => 40,
            Self::Swdt => 41,
            Self::Ttc00 => 42,
            Self::Ttc01 => 43,
            Self::Ttc02 => 44,
            Self::DmacAbort => 45,
            Self::Dmac0 => 46,
            Self::Dmac1 => 47,
            Self::Dmac2 => 48,
            Self::Dmac3 => 49,
            Self::Smc => 50,
            Self::QuadSpi => 51,
            Self::Gpio => 52,
            Self::Usb0 => 53,
            Self::Ethernet0 => 54,
            Self::Ethernet0Wakeup => 55,
            Self::Sdio0 => 56,
            Self::I2c0 => 57,
            Self::Spi0 => 58,
            Self::Uart0 => 59,
            Self::Can0 => 60,
            Self::Pl0 => 61,
            Self::Pl1 => 62,
            Self::Pl2 => 63,
            Self::Pl3 => 64,
            Self::Pl4 => 65,
            Self::Pl5 => 66,
            Self::Pl6 => 67,
            Self::Pl7 => 68,
            Self::Ttc10 => 69,
            Self::Ttc11 => 70,
            Self::Ttc12 => 71,
            Self::Dmac4 => 72,
            Self::Dmac5 => 73,
            Self::Dmac6 => 74,
            Self::Dmac7 => 75,
            Self::Usb1 => 76,
            Self::Ethernet1 => 77,
            Self::Ethernet1Wakeup => 78,
            Self::Sdio1 => 79,
            Self::I2c1 => 80,
            Self::Spi1 => 81,
            Self::Uart1 => 82,
            Self::Can1 => 83,
            Self::Pl8 => 84,
            Self::Pl9 => 85,
            Self::Pl10 => 86,
            Self::Pl11 => 87,
            Self::Pl12 => 88,
            Self::Pl13 => 89,
            Self::Pl14 => 90,
            Self::Pl15 => 91,
            Self::Parity => 92,
        }
    }
}

/// Interrupt request.
#[derive(Clone, Copy, Debug, PartialEq, Eq, Structural)]
pub enum Irq {
    /// Software generated interrupt.
    Sgi(SgiIrq),
    /// Private peripheral interrupt.
    Ppi(PpiIrq),
    /// Shared peripheral interrupt.
    Spi(SpiIrq),
}

impl Irq {
    /// The flat numeric interrupt id of this source.
    pub open spec fn spec_number(self) -> u32 {
        match self {
            Self::Sgi(sgi) => sgi.spec_number(),
            Self::Ppi(ppi) => ppi.spec_number(),
            Self::Spi(spi) => spi.spec_number(),
        }
    }

    /// Decode a flat numeric interrupt id, trying the software-generated,
    /// private and shared classes in that order.
    pub fn from_u32(value: u32) -> (result: Self)
        requires
            irq_number_ok(value),
        ensures
            result.spec_number() == value,
            sgi_number_ok(value) ==> result is Sgi,
            ppi_number_ok(value) ==> result is Ppi,
            spi_number_ok(value) ==> result is Spi,
    {
        if let Ok(sgi) = SgiIrq::from_u32(value) {
            Self::Sgi(sgi)
        } else if let Ok(ppi) = PpiIrq::from_u32(value) {
            Self::Ppi(ppi)
        } else {
            let spi = SpiIrq::from_u32(value).unwrap();
            Self::Spi(spi)
        }
    }

    /// The flat numeric interrupt id of this source.
    pub fn as_u32(self) -> (result: u32)
        ensures
            result == self.spec_number(),
    {
        match self {
            Self::Sgi(sgi) => sgi.as_u32(),
            Self::Ppi(ppi) => ppi.as_u32(),
            Self::Spi(spi) => spi.as_u32(),
        }
    }
}

/// Every interrupt source's id lies in its class's range, so re-encoding a
/// decoded id always reproduces the original number.
pub proof fn lemma_irq_number_in_class(irq: Irq)
    ensures
        irq_number_ok(irq.spec_number()),
        irq is Sgi <==> sgi_number_ok(irq.spec_number()),
        irq is Ppi <==> ppi_number_ok(irq.spec_number()),
        irq is Spi <==> spi_number_ok(irq.spec_number()),
{
}

/// Distinct interrupt sources have distinct numeric ids: decoding a valid id
/// determines the source uniquely.
pub proof fn lemma_irq_number_injective(first: Irq, second: Irq)
    requires
        first.spec_number() == second.spec_number(),
    ensures
        first == second,
{
}

} // verus!
