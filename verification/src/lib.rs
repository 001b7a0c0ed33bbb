use vstd::prelude::*;

pub use bus::Bus;
pub use interface::DebounceTime;
use interface::Interface;
pub use pin::{Input, Output, Pin};
use reg::Register;

/// Single bits inside a register byte.
pub mod bits;
/// The bus that the chip hangs on.
pub mod bus;
/// Error types.
pub mod error;
/// Register access over the guarded bus.
pub mod interface;
mod lock;
/// A model of the chip's registers, and what the driver's writes do to it.
pub mod model;
/// The pin handles.
pub mod pin;
/// The chip's registers.
pub mod reg;
/// State types for the pins.
pub mod states;
/// The writes of each mode change.
pub mod steps;

verus! {

/// The writes that bring the chip up, in order: the two values that unlock
/// and perform a software reset, then the one that switches the internal
/// oscillator on.
pub open spec fn spec_bring_up() -> Seq<(Register, u8)> {
    seq![
        (Register::RegReset, 0x12u8),
        (Register::RegReset, 0x34u8),
        (Register::RegClock, 0b0100_0000u8),
    ]
}

/// The writes that bring the chip up, in order.
pub fn bring_up() -> (writes: Vec<(Register, u8)>)
    ensures
        writes@ == spec_bring_up(),
{
    let writes = vec![
        (Register::RegReset, 0x12u8),
        (Register::RegReset, 0x34u8),
        (Register::RegClock, 0b0100_0000u8),
    ];
    assert(writes@ =~= spec_bring_up());
    writes
}

/// The bus returned success for each of the first `n` writes that bring the
/// chip at `address` up.
pub open spec fn brought_up<B: Bus>(address: u8, n: nat) -> bool
    decreases n,
{
    n == 0 || (brought_up::<B>(address, (n - 1) as nat) && bus::wrote::<B>(
        address,
        interface::spec_write_frame(spec_bring_up()[n - 1].0, spec_bring_up()[n - 1].1),
        Ok(()),
    ))
}

/// The SX1509 driver. Use [`new`](Self::new) to create a new instance of the
/// driver, and then [`split`](Self::split) to get individual pins.
#[verifier::reject_recursive_types(B)]
pub struct Sx1509<B> {
    interface: Interface<B>,
}

impl<B: Bus> Sx1509<B> {
    /// The interface that the driver and all its pins talk through.
    pub closed spec fn interface(self) -> Interface<B> {
        self.interface
    }

    /// Create a new instance of the SX1509 driver. This performs a reset of the
    /// device and may fail if the device is not present.
    ///
    /// # Errors
    /// This function will return an error if communication with I2C fails for
    /// any reason: the error of the first write that fails. The writes after
    /// it are not made, and no driver is returned.
    pub fn new(i2c: B, address: u8) -> (r: Result<Self, B::Error>)
        ensures
            match r {
                Ok(device) => {
                    &&& device.interface().address() == address
                    &&& brought_up::<B>(address, spec_bring_up().len())
                },
                Err(cause) => exists|n: nat|
                    n < spec_bring_up().len() && #[trigger] brought_up::<B>(address, n)
                        && bus::wrote::<B>(
                        address,
                        interface::spec_write_frame(
                            spec_bring_up()[n as int].0,
                            spec_bring_up()[n as int].1,
                        ),
                        Err(cause),
                    ),
            },
    {
        let mut i2c = i2c;
        let writes = bring_up();
        let mut done: usize = 0;
        while done < writes.len()
            invariant
                done <= writes@.len(),
                writes@ == spec_bring_up(),
                brought_up::<B>(address, done as nat),
            decreases writes@.len() - done,
        {
            let (register, data) = writes[done];
            let frame = interface::write_frame(register, data);
            let bytes = frame.as_slice();
            let outcome = i2c.write(address, bytes);
            assert(bus::wrote::<B>(address, interface::spec_write_frame(register, data), outcome));
            assert(spec_bring_up()[done as int] == (register, data));
            match outcome {
                Ok(()) => {
                    assert(outcome->Ok_0 == ());
                    assert(brought_up::<B>(address, (done + 1) as nat));
                },
                Err(cause) => {
                    return Err(cause);
                },
            }
            done += 1;
        }
        Ok(Self { interface: Interface::new(lock::new_lock(i2c), address) })
    }

    /// Set the debounce time for the expander. This will affect all pins on the
    /// chip.
    ///
    /// # Errors
    /// This function will return an error if communication with I2C fails.
    pub fn set_debounce_time(&mut self, debounce_time: DebounceTime) -> (r: Result<
        (),
        error::Error<B::Error>,
    >)
        ensures
            *final(self) == *old(self),
            old(self).interface().written(
                Register::RegDebounceConfig,
                debounce_time.spec_code(),
                r,
            ),
    {
        self.interface.set_debounce_time(debounce_time)
    }

    /// Split the expander into individual pins. This allows you to configure
    /// each pin as an input or output. A mutable reference is used to ensure
    /// multiple sets of pins cannot exist at the same time.
    pub fn split(&mut self) -> (pins: Pins<'_, B>)
        ensures
            *final(self) == *old(self),
            pins.all_through(old(self).interface()),
    {
        Pins {
            a0: Pin::new(&self.interface),
            a1: Pin::new(&self.interface),
            a2: Pin::new(&self.interface),
            a3: Pin::new(&self.interface),
            a4: Pin::new(&self.interface),
            a5: Pin::new(&self.interface),
            a6: Pin::new(&self.interface),
            a7: Pin::new(&self.interface),
            b0: Pin::new(&self.interface),
            b1: Pin::new(&self.interface),
            b2: Pin::new(&self.interface),
            b3: Pin::new(&self.interface),
            b4: Pin::new(&self.interface),
            b5: Pin::new(&self.interface),
            b6: Pin::new(&self.interface),
            b7: Pin::new(&self.interface),
        }
    }
}

/// The pins on the SX1509.
#[verifier::reject_recursive_types(B)]
pub struct Pins<'a, B> {
    /// Bank A, Pin 0
    pub a0: Pin<'a, 0, B>,
    /// Bank A, Pin 1
    pub a1: Pin<'a, 1, B>,
    /// Bank A, Pin 2
    pub a2: Pin<'a, 2, B>,
    /// Bank A, Pin 3
    pub a3: Pin<'a, 3, B>,
    /// Bank A, Pin 4
    pub a4: Pin<'a, 4, B>,
    /// Bank A, Pin 5
    pub a5: Pin<'a, 5, B>,
    /// Bank A, Pin 6
    pub a6: Pin<'a, 6, B>,
    /// Bank A, Pin 7
    pub a7: Pin<'a, 7, B>,
    /// Bank B, Pin 0
    pub b0: Pin<'a, 8, B>,
    /// Bank B, Pin 1
    pub b1: Pin<'a, 9, B>,
    /// Bank B, Pin 2
    pub b2: Pin<'a, 10, B>,
    /// Bank B, Pin 3
    pub b3: Pin<'a, 11, B>,
    /// Bank B, Pin 4
    pub b4: Pin<'a, 12, B>,
    /// Bank B, Pin 5
    pub b5: Pin<'a, 13, B>,
    /// Bank B, Pin 6
    pub b6: Pin<'a, 14, B>,
    /// Bank B, Pin 7
    pub b7: Pin<'a, 15, B>,
}

impl<'a, B> Pins<'a, B> {
    /// Every one of the sixteen handles talks through `interface`.
    pub open spec fn all_through(self, interface: Interface<B>) -> bool {
        &&& self.a0.interface() == interface
        &&& self.a1.interface() == interface
        &&& self.a2.interface() == interface
        &&& self.a3.interface() == interface
        &&& self.a4.interface() == interface
        &&& self.a5.interface() == interface
        &&& self.a6.interface() == interface
        &&& self.a7.interface() == interface
        &&& self.b0.interface() == interface
        &&& self.b1.interface() == interface
        &&& self.b2.interface() == interface
        &&& self.b3.interface() == interface
        &&& self.b4.interface() == interface
        &&& self.b5.interface() == interface
        &&& self.b6.interface() == interface
        &&& self.b7.interface() == interface
    }
}

} // verus!
