use vstd::prelude::*;

verus! {

/// One of the two groups of eight pins. Each bank has its own copy of every
/// per-pin register.
#[derive(Clone, Copy, PartialEq, Eq, Debug, Structural)]
pub enum Bank {
    /// Pins 0 to 7.
    A,
    /// Pins 8 to 15.
    B,
}

impl Bank {
    /// The bank that a pin belongs to.
    pub open spec fn of(pin: u8) -> Bank {
        if pin < 8 {
            Bank::A
        } else {
            Bank::B
        }
    }
}

/// The physical registers of the expander that the driver touches.
#[derive(Clone, Copy, PartialEq, Eq, Debug, Structural)]
pub enum Register {
    /// Pull-up enable, bank B.
    RegPullUpB,
    /// Pull-up enable, bank A.
    RegPullUpA,
    /// Pull-down enable, bank B.
    RegPullDownB,
    /// Pull-down enable, bank A.
    RegPullDownA,
    /// Open-drain enable, bank B.
    RegOpenDrainB,
    /// Open-drain enable, bank A.
    RegOpenDrainA,
    /// Direction, bank B.
    RegDirB,
    /// Direction, bank A.
    RegDirA,
    /// Data, bank B.
    RegDataB,
    /// Data, bank A.
    RegDataA,
    /// Oscillator and clock control.
    RegClock,
    /// Debounce time, shared by all sixteen pins.
    RegDebounceConfig,
    /// Debounce enable, bank B.
    RegDebounceEnableB,
    /// Debounce enable, bank A.
    RegDebounceEnableA,
    /// Software reset.
    RegReset,
}

impl Register {
    /// The address of the register on the chip.
    pub open spec fn spec_addr(self) -> u8 {
        match self {
            Register::RegPullUpB => 0x06,
            Register::RegPullUpA => 0x07,
            Register::RegPullDownB => 0x08,
            Register::RegPullDownA => 0x09,
            Register::RegOpenDrainB => 0x0A,
            Register::RegOpenDrainA => 0x0B,
            Register::RegDirB => 0x0E,
            Register::RegDirA => 0x0F,
            Register::RegDataB => 0x10,
            Register::RegDataA => 0x11,
            Register::RegClock => 0x1E,
            Register::RegDebounceConfig => 0x22,
            Register::RegDebounceEnableB => 0x23,
            Register::RegDebounceEnableA => 0x24,
            Register::RegReset => 0x7D,
        }
    }

    /// The bank of a per-pin register; `None` for a register of the whole chip.
    pub open spec fn bank(self) -> Option<Bank> {
        match self {
            Register::RegPullUpA
            | Register::RegPullDownA
            | Register::RegOpenDrainA
            | Register::RegDirA
            | Register::RegDataA
            | Register::RegDebounceEnableA => Some(Bank::A),
            Register::RegPullUpB
            | Register::RegPullDownB
            | Register::RegOpenDrainB
            | Register::RegDirB
            | Register::RegDataB
            | Register::RegDebounceEnableB => Some(Bank::B),
            Register::RegClock | Register::RegDebounceConfig | Register::RegReset => None,
        }
    }

    /// The address of the register on the chip.
    #[verifier::when_used_as_spec(spec_addr)]
    pub fn addr(self) -> (a: u8)
        ensures
            a == self.spec_addr(),
    {
        match self {
            Register::RegPullUpB => 0x06,
            Register::RegPullUpA => 0x07,
            Register::RegPullDownB => 0x08,
            Register::RegPullDownA => 0x09,
            Register::RegOpenDrainB => 0x0A,
            Register::RegOpenDrainA => 0x0B,
            Register::RegDirB => 0x0E,
            Register::RegDirA => 0x0F,
            Register::RegDataB => 0x10,
            Register::RegDataA => 0x11,
            Register::RegClock => 0x1E,
            Register::RegDebounceConfig => 0x22,
            Register::RegDebounceEnableB => 0x23,
            Register::RegDebounceEnableA => 0x24,
            Register::RegReset => 0x7D,
        }
    }

    /// No two registers share an address, and every address fits in seven
    /// bits.
    pub proof fn lemma_addr_distinct(a: Register, b: Register)
        ensures
            a.spec_addr() == b.spec_addr() <==> a == b,
            a.spec_addr() < 0x80,
    {
    }
}

} // verus!
