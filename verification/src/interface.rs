use crate::bits;
use crate::bus::{read_back, wrote, Bus};
use crate::error::Error;
use crate::lock;
use crate::reg::{Bank, Register};
use crate::steps::BitWrite;
use vstd::prelude::*;

verus! {

/// A per-pin register, named without its bank.
#[derive(Clone, Copy, PartialEq, Eq, Debug, Structural)]
pub enum BankAgnosticRegister {
    /// Direction: the bit is set while the pin is an output.
    Dir,
    /// Data: the level driven on an output, the level seen on an input.
    Data,
    /// Pull-up enable.
    PullUp,
    /// Pull-down enable.
    PullDown,
    /// Open-drain enable.
    OpenDrain,
    /// Debounce enable.
    DebounceEnable,
}

impl BankAgnosticRegister {
    /// The physical register that holds this per-pin register for one bank.
    pub open spec fn in_bank(self, bank: Bank) -> Register {
        match (self, bank) {
            (BankAgnosticRegister::Dir, Bank::A) => Register::RegDirA,
            (BankAgnosticRegister::Dir, Bank::B) => Register::RegDirB,
            (BankAgnosticRegister::Data, Bank::A) => Register::RegDataA,
            (BankAgnosticRegister::Data, Bank::B) => Register::RegDataB,
            (BankAgnosticRegister::PullUp, Bank::A) => Register::RegPullUpA,
            (BankAgnosticRegister::PullUp, Bank::B) => Register::RegPullUpB,
            (BankAgnosticRegister::PullDown, Bank::A) => Register::RegPullDownA,
            (BankAgnosticRegister::PullDown, Bank::B) => Register::RegPullDownB,
            (BankAgnosticRegister::OpenDrain, Bank::A) => Register::RegOpenDrainA,
            (BankAgnosticRegister::OpenDrain, Bank::B) => Register::RegOpenDrainB,
            (BankAgnosticRegister::DebounceEnable, Bank::A) => Register::RegDebounceEnableA,
            (BankAgnosticRegister::DebounceEnable, Bank::B) => Register::RegDebounceEnableB,
        }
    }

    /// The physical register that holds this per-pin register for a pin.
    pub open spec fn resolve(self, pin: u8) -> Register {
        self.in_bank(Bank::of(pin))
    }

    /// Resolves the physical register for the pin `PIN`: the one of bank A
    /// for a pin below eight, the one of bank B otherwise.
    pub fn into_register<const PIN: u8>(self) -> (register: Register)
        ensures
            register == self.resolve(PIN),
            register.bank() == Some(Bank::of(PIN)),
            register.logical() == Some(self),
    {
        if PIN < 8 {
            match self {
                BankAgnosticRegister::Dir => Register::RegDirA,
                BankAgnosticRegister::Data => Register::RegDataA,
                BankAgnosticRegister::PullUp => Register::RegPullUpA,
                BankAgnosticRegister::PullDown => Register::RegPullDownA,
                BankAgnosticRegister::OpenDrain => Register::RegOpenDrainA,
                BankAgnosticRegister::DebounceEnable => Register::RegDebounceEnableA,
            }
        } else {
            match self {
                BankAgnosticRegister::Dir => Register::RegDirB,
                BankAgnosticRegister::Data => Register::RegDataB,
                BankAgnosticRegister::PullUp => Register::RegPullUpB,
                BankAgnosticRegister::PullDown => Register::RegPullDownB,
                BankAgnosticRegister::OpenDrain => Register::RegOpenDrainB,
                BankAgnosticRegister::DebounceEnable => Register::RegDebounceEnableB,
            }
        }
    }

    /// Two per-pin registers resolve to one physical register only if they
    /// are the same register and the pins share a bank.
    pub proof fn lemma_resolve_distinct(
        a: BankAgnosticRegister,
        p: u8,
        b: BankAgnosticRegister,
        q: u8,
    )
        ensures
            a.resolve(p) == b.resolve(q) <==> a == b && Bank::of(p) == Bank::of(q),
            a.resolve(p).bank() == Some(Bank::of(p)),
            a.resolve(p).logical() == Some(a),
    {
    }
}

impl Register {
    /// The per-pin register that this physical register holds for its bank;
    /// `None` for a register of the whole chip.
    pub open spec fn logical(self) -> Option<BankAgnosticRegister> {
        match self {
            Register::RegDirA | Register::RegDirB => Some(BankAgnosticRegister::Dir),
            Register::RegDataA | Register::RegDataB => Some(BankAgnosticRegister::Data),
            Register::RegPullUpA | Register::RegPullUpB => Some(BankAgnosticRegister::PullUp),
            Register::RegPullDownA | Register::RegPullDownB => Some(
                BankAgnosticRegister::PullDown,
            ),
            Register::RegOpenDrainA | Register::RegOpenDrainB => Some(
                BankAgnosticRegister::OpenDrain,
            ),
            Register::RegDebounceEnableA | Register::RegDebounceEnableB => Some(
                BankAgnosticRegister::DebounceEnable,
            ),
            Register::RegClock | Register::RegDebounceConfig | Register::RegReset => None,
        }
    }
}

/// Debounce time, if enabled for a certain pin.
#[derive(Debug, Clone, Copy, PartialEq, Eq, Structural)]
pub enum DebounceTime {
    /// 0.5ms
    Ms0_5,
    /// 1ms
    Ms1,
    /// 2ms
    Ms2,
    /// 4ms
    Ms4,
    /// 8ms
    Ms8,
    /// 16ms
    Ms16,
    /// 32ms
    Ms32,
    /// 64ms
    Ms64,
}

impl DebounceTime {
    /// The three-bit code that selects this time in the debounce register.
    pub open spec fn spec_code(self) -> u8 {
        match self {
            DebounceTime::Ms0_5 => 0,
            DebounceTime::Ms1 => 1,
            DebounceTime::Ms2 => 2,
            DebounceTime::Ms4 => 3,
            DebounceTime::Ms8 => 4,
            DebounceTime::Ms16 => 5,
            DebounceTime::Ms32 => 6,
            DebounceTime::Ms64 => 7,
        }
    }

    /// The debounce time in microseconds: 500 doubled once for each step of
    /// the code.
    pub open spec fn micros(self) -> nat {
        match self {
            DebounceTime::Ms0_5 => 500,
            DebounceTime::Ms1 => 1_000,
            DebounceTime::Ms2 => 2_000,
            DebounceTime::Ms4 => 4_000,
            DebounceTime::Ms8 => 8_000,
            DebounceTime::Ms16 => 16_000,
            DebounceTime::Ms32 => 32_000,
            DebounceTime::Ms64 => 64_000,
        }
    }

    /// The three-bit code that selects this time in the debounce register.
    #[verifier::when_used_as_spec(spec_code)]
    pub fn code(self) -> (code: u8)
        ensures
            code == self.spec_code(),
            code <= 7,
            self.micros() == 500 * vstd::arithmetic::power2::pow2(code as nat),
    {
        proof {
            vstd::arithmetic::power2::lemma2_to64();
        }
        match self {
            DebounceTime::Ms0_5 => 0,
            DebounceTime::Ms1 => 1,
            DebounceTime::Ms2 => 2,
            DebounceTime::Ms4 => 3,
            DebounceTime::Ms8 => 4,
            DebounceTime::Ms16 => 5,
            DebounceTime::Ms32 => 6,
            DebounceTime::Ms64 => 7,
        }
    }
}

impl Default for DebounceTime {
    fn default() -> (time: Self)
        ensures
            time == DebounceTime::Ms0_5,
    {
        DebounceTime::Ms0_5
    }
}

/// The bytes of the transaction that writes `data` to a register: the
/// register's address, then the data.
pub open spec fn spec_write_frame(register: Register, data: u8) -> Seq<u8> {
    seq![register.spec_addr(), data]
}

/// The byte that selects a register before one byte is read back from it.
pub open spec fn spec_read_frame(register: Register) -> Seq<u8> {
    seq![register.spec_addr()]
}

/// The bytes of the transaction that writes `data` to a register.
pub fn write_frame(register: Register, data: u8) -> (frame: [u8; 2])
    ensures
        frame@ == spec_write_frame(register, data),
{
    let frame = [register.addr(), data];
    assert(frame@ =~= spec_write_frame(register, data));
    frame
}

/// The byte that selects a register before one byte is read back from it.
pub fn read_frame(register: Register) -> (frame: [u8; 1])
    ensures
        frame@ == spec_read_frame(register),
{
    let frame = [register.addr()];
    assert(frame@ =~= spec_read_frame(register));
    frame
}

/// The driver's end of the bus: the bus behind a guard that is taken for one
/// transaction at a time and never waited for, and the chip's address.
#[verifier::reject_recursive_types(B)]
pub struct Interface<B> {
    i2c: spin::Mutex<B>,
    address: u8,
}

impl<B: Bus> Interface<B> {
    /// The address of the chip on the bus. It is fixed when the interface is
    /// made.
    pub closed spec fn address(&self) -> u8 {
        self.address
    }

    /// The guarded bus.
    pub closed spec fn shared(&self) -> spin::Mutex<B> {
        self.i2c
    }

    /// `r` is a result of writing `data` to a register: `BusBusy` where the
    /// guard was not free, else what the bus returned for the one write of
    /// the register's address and the data, a failure wrapped as `Io`.
    pub open spec fn written(
        &self,
        register: Register,
        data: u8,
        r: Result<(), Error<B::Error>>,
    ) -> bool {
        ||| r == Err::<(), Error<B::Error>>(Error::BusBusy)
        ||| exists|outcome: Result<(), B::Error>|
            #[trigger] wrote::<B>(self.address(), spec_write_frame(register, data), outcome) && r
                == Error::spec_from_bus(outcome)
    }

    /// `r` is a result of reading a register: `BusBusy` where the guard was
    /// not free, else what the bus returned for the one transaction that
    /// sends the register's address and reads one byte: that byte, or the
    /// failure of the bus wrapped as `Io`.
    pub open spec fn fetched(&self, register: Register, r: Result<u8, Error<B::Error>>) -> bool {
        ||| r == Err::<u8, Error<B::Error>>(Error::BusBusy)
        ||| exists|outcome: Result<u8, B::Error>|
            #[trigger] read_back::<B>(self.address(), spec_read_frame(register), outcome) && r
                == Error::spec_from_bus(outcome)
    }

    /// `r` is a result of setting a pin's bit in a per-pin register to
    /// `value`: the register of the pin's bank is read; where that fails the
    /// result is its error and nothing is written; else the byte that was
    /// read, with the pin's bit assigned, is written to the same register,
    /// and the result is that of the write.
    pub open spec fn bit_written(
        &self,
        register: BankAgnosticRegister,
        pin: u8,
        value: bool,
        r: Result<(), Error<B::Error>>,
    ) -> bool {
        exists|read: Result<u8, Error<B::Error>>|
            #[trigger] self.fetched(register.resolve(pin), read) && match read {
                Ok(existing) => self.written(
                    register.resolve(pin),
                    bits::spec_assign(existing, pin, value),
                    r,
                ),
                Err(error) => r == Err::<(), Error<B::Error>>(error),
            }
    }

    /// `r` is a result of reading a pin's bit in a per-pin register: the
    /// register of the pin's bank is read, and the result is the pin's bit in
    /// the byte that was read, or the error of the read.
    pub open spec fn bit_read(
        &self,
        register: BankAgnosticRegister,
        pin: u8,
        r: Result<bool, Error<B::Error>>,
    ) -> bool {
        exists|read: Result<u8, Error<B::Error>>|
            #[trigger] self.fetched(register.resolve(pin), read) && r == match read {
                Ok(byte) => Ok::<bool, Error<B::Error>>(bits::spec_test(byte, pin)),
                Err(error) => Err(error),
            }
    }

    /// The first `n` steps were made for the pin, one after the other, and
    /// each went through.
    pub open spec fn passed(&self, pin: u8, steps: Seq<BitWrite>, n: nat) -> bool
        decreases n,
    {
        n == 0 || (self.passed(pin, steps, (n - 1) as nat) && self.bit_written(
            steps[n - 1].register,
            pin,
            steps[n - 1].value,
            Ok(()),
        ))
    }

    /// `r` is a result of making the steps for the pin in order: `Ok` where
    /// every step went through, else the error of the first step that
    /// failed, after all steps before it went through.
    pub open spec fn applied(
        &self,
        pin: u8,
        steps: Seq<BitWrite>,
        r: Result<(), Error<B::Error>>,
    ) -> bool {
        match r {
            Ok(_) => self.passed(pin, steps, steps.len()),
            Err(error) => exists|n: nat|
                n < steps.len() && #[trigger] self.passed(pin, steps, n) && self.bit_written(
                    steps[n as int].register,
                    pin,
                    steps[n as int].value,
                    Err(error),
                ),
        }
    }

    /// An interface to the chip at `address` over the guarded bus.
    pub fn new(i2c: spin::Mutex<B>, address: u8) -> (interface: Self)
        ensures
            interface.address() == address,
            interface.shared() == i2c,
    {
        Self { i2c, address }
    }

    /// Sets the direction bit of the pin: the pin is an output.
    pub fn set_output<const PIN: u8>(&self) -> (r: Result<(), Error<B::Error>>)
        ensures
            self.bit_written(BankAgnosticRegister::Dir, PIN, true, r),
    {
        self.set_bit::<PIN>(BankAgnosticRegister::Dir)
    }

    /// Clears the direction bit of the pin: the pin is an input.
    pub fn set_input<const PIN: u8>(&self) -> (r: Result<(), Error<B::Error>>)
        ensures
            self.bit_written(BankAgnosticRegister::Dir, PIN, false, r),
    {
        self.unset_bit::<PIN>(BankAgnosticRegister::Dir)
    }

    /// Sets the level that the pin drives.
    pub fn set_data<const PIN: u8>(&self, value: bool) -> (r: Result<(), Error<B::Error>>)
        ensures
            self.bit_written(BankAgnosticRegister::Data, PIN, value, r),
    {
        if value {
            self.set_bit::<PIN>(BankAgnosticRegister::Data)
        } else {
            self.unset_bit::<PIN>(BankAgnosticRegister::Data)
        }
    }

    /// Reads the data bit of the pin.
    pub fn get_data<const PIN: u8>(&self) -> (r: Result<bool, Error<B::Error>>)
        ensures
            self.bit_read(BankAgnosticRegister::Data, PIN, r),
    {
        self.get_bit::<PIN>(BankAgnosticRegister::Data)
    }

    /// Switches the pull-up of the pin.
    pub fn set_pull_up<const PIN: u8>(&self, value: bool) -> (r: Result<(), Error<B::Error>>)
        ensures
            self.bit_written(BankAgnosticRegister::PullUp, PIN, value, r),
    {
        if value {
            self.set_bit::<PIN>(BankAgnosticRegister::PullUp)
        } else {
            self.unset_bit::<PIN>(BankAgnosticRegister::PullUp)
        }
    }

    /// Switches the pull-down of the pin.
    pub fn set_pull_down<const PIN: u8>(&self, value: bool) -> (r: Result<(), Error<B::Error>>)
        ensures
            self.bit_written(BankAgnosticRegister::PullDown, PIN, value, r),
    {
        if value {
            self.set_bit::<PIN>(BankAgnosticRegister::PullDown)
        } else {
            self.unset_bit::<PIN>(BankAgnosticRegister::PullDown)
        }
    }

    /// Switches the pin between open-drain and push-pull.
    pub fn set_open_drain<const PIN: u8>(&self, value: bool) -> (r: Result<(), Error<B::Error>>)
        ensures
            self.bit_written(BankAgnosticRegister::OpenDrain, PIN, value, r),
    {
        if value {
            self.set_bit::<PIN>(BankAgnosticRegister::OpenDrain)
        } else {
            self.unset_bit::<PIN>(BankAgnosticRegister::OpenDrain)
        }
    }

    /// Switches the debounce of the pin.
    pub fn set_debounce_enable<const PIN: u8>(&self, value: bool) -> (r: Result<
        (),
        Error<B::Error>,
    >)
        ensures
            self.bit_written(BankAgnosticRegister::DebounceEnable, PIN, value, r),
    {
        if value {
            self.set_bit::<PIN>(BankAgnosticRegister::DebounceEnable)
        } else {
            self.unset_bit::<PIN>(BankAgnosticRegister::DebounceEnable)
        }
    }

    /// Sets the debounce time of the whole chip.
    pub fn set_debounce_time(&self, debounce_time: DebounceTime) -> (r: Result<
        (),
        Error<B::Error>,
    >)
        ensures
            self.written(Register::RegDebounceConfig, debounce_time.spec_code(), r),
    {
        self.write(Register::RegDebounceConfig, debounce_time.code())
    }

    /// Performs the writes of a mode change for the pin `PIN` in order, and
    /// stops at the first that fails: the writes after it are not made.
    pub fn apply<const PIN: u8>(&self, steps: &[BitWrite]) -> (r: Result<(), Error<B::Error>>)
        ensures
            self.applied(PIN, steps@, r),
    {
        let mut done: usize = 0;
        while done < steps.len()
            invariant
                done <= steps@.len(),
                self.passed(PIN, steps@, done as nat),
            decreases steps@.len() - done,
        {
            let step = steps[done];
            let outcome = if step.value {
                self.set_bit::<PIN>(step.register)
            } else {
                self.unset_bit::<PIN>(step.register)
            };
            match outcome {
                Ok(()) => {},
                Err(error) => {
                    assert(self.passed(PIN, steps@, done as nat));
                    return Err(error);
                },
            }
            done += 1;
        }
        Ok(())
    }

    /// Reads the register, sets the pin's bit and writes the byte back. The
    /// guard is taken for the read and again for the write, not across the
    /// two: a write by another pin in between is lost.
    fn set_bit<const PIN: u8>(&self, bar: BankAgnosticRegister) -> (r: Result<
        (),
        Error<B::Error>,
    >)
        ensures
            self.bit_written(bar, PIN, true, r),
    {
        let register = bar.into_register::<PIN>();
        let existing_data = self.read(register);
        match bits::updated(existing_data, PIN, true) {
            Ok(new_data) => self.write(register, new_data),
            Err(error) => Err(error),
        }
    }

    /// Reads the register, clears the pin's bit and writes the byte back.
    /// The guard is taken for the read and again for the write, not across
    /// the two.
    fn unset_bit<const PIN: u8>(&self, bar: BankAgnosticRegister) -> (r: Result<
        (),
        Error<B::Error>,
    >)
        ensures
            self.bit_written(bar, PIN, false, r),
    {
        let register = bar.into_register::<PIN>();
        let existing_data = self.read(register);
        match bits::updated(existing_data, PIN, false) {
            Ok(new_data) => self.write(register, new_data),
            Err(error) => Err(error),
        }
    }

    /// Reads the register and picks the pin's bit.
    fn get_bit<const PIN: u8>(&self, bar: BankAgnosticRegister) -> (r: Result<
        bool,
        Error<B::Error>,
    >)
        ensures
            self.bit_read(bar, PIN, r),
    {
        let register = bar.into_register::<PIN>();
        bits::level(self.read(register), PIN)
    }

    /// Writes one byte to a register, in one transaction under the guard.
    pub fn write(&self, register: Register, data: u8) -> (r: Result<(), Error<B::Error>>)
        ensures
            self.written(register, data, r),
    {
        let held = lock::try_lock(&self.i2c);
        let ghost free = held is Some;
        let r = Self::send(held, self.address, register, data);
        proof {
            if free {
                let outcome = choose|outcome: Result<(), B::Error>|
                    #[trigger] wrote::<B>(self.address, spec_write_frame(register, data), outcome)
                        && r == Error::spec_from_bus(outcome);
                assert(wrote::<B>(self.address(), spec_write_frame(register, data), outcome));
            }
        }
        r
    }

    /// Reads one byte from a register, in one transaction under the guard.
    pub fn read(&self, register: Register) -> (r: Result<u8, Error<B::Error>>)
        ensures
            self.fetched(register, r),
    {
        let held = lock::try_lock(&self.i2c);
        let ghost free = held is Some;
        let r = Self::receive(held, self.address, register);
        proof {
            if free {
                let outcome = choose|outcome: Result<u8, B::Error>|
                    #[trigger] read_back::<B>(self.address, spec_read_frame(register), outcome)
                        && r == Error::spec_from_bus(outcome);
                assert(read_back::<B>(self.address(), spec_read_frame(register), outcome));
            }
        }
        r
    }

    /// The write transaction, given what taking the guard returned. Without
    /// the guard there is no bus to talk to: the result is `BusBusy`, and it
    /// is `BusBusy` in that case only. The guard is released on return.
    pub fn send(
        held: Option<spin::MutexGuard<'_, B>>,
        address: u8,
        register: Register,
        data: u8,
    ) -> (r: Result<(), Error<B::Error>>)
        ensures
            held is None <==> r matches Err(Error::BusBusy),
            held is Some ==> exists|outcome: Result<(), B::Error>|
                #[trigger] wrote::<B>(address, spec_write_frame(register, data), outcome) && r
                    == Error::spec_from_bus(outcome),
    {
        match held {
            None => Err(Error::BusBusy),
            Some(mut guard) => {
                let frame = write_frame(register, data);
                let bytes = frame.as_slice();
                let bus = lock::guarded(&mut guard);
                let outcome = bus.write(address, bytes);
                assert(wrote::<B>(address, spec_write_frame(register, data), outcome));
                Error::from_bus(outcome)
            },
        }
    }

    /// The read transaction, given what taking the guard returned. Without
    /// the guard the result is `BusBusy`, and it is `BusBusy` in that case
    /// only. The guard is released on return.
    pub fn receive(held: Option<spin::MutexGuard<'_, B>>, address: u8, register: Register) -> (r:
        Result<u8, Error<B::Error>>)
        ensures
            held is None <==> r matches Err(Error::BusBusy),
            held is Some ==> exists|outcome: Result<u8, B::Error>|
                #[trigger] read_back::<B>(address, spec_read_frame(register), outcome) && r
                    == Error::spec_from_bus(outcome),
    {
        match held {
            None => Err(Error::BusBusy),
            Some(mut guard) => {
                let frame = read_frame(register);
                let bytes = frame.as_slice();
                let bus = lock::guarded(&mut guard);
                let outcome = bus.write_read(address, bytes);
                assert(read_back::<B>(address, spec_read_frame(register), outcome));
                Error::from_bus(outcome)
            },
        }
    }
}

} // verus!
