use crate::bus::Bus;
use crate::error::{Error, ModeChange};
use crate::interface::{BankAgnosticRegister, Interface};
use crate::model;
use crate::model::{Drive, Shape};
use crate::states;
use crate::states::{DebounceState, InputState, OutputState};
use crate::steps;
use crate::steps::Pull;
use core::marker::PhantomData;
use vstd::prelude::*;

verus! {

/// A pin on the SX1509. Use [`into_output`](Self::into_output) or
/// [`into_input`](Self::into_input) to configure the pin as an output or input,
/// respectively.
#[verifier::reject_recursive_types(B)]
pub struct Pin<'a, const PIN: u8, B> {
    interface: &'a Interface<B>,
}

/// An output pin on the SX1509.
#[verifier::reject_recursive_types(B)]
pub struct Output<'a, const PIN: u8, B, S> {
    interface: &'a Interface<B>,
    _state: PhantomData<S>,
}

/// An input pin on the SX1509.
#[verifier::reject_recursive_types(B)]
pub struct Input<'a, const PIN: u8, B, S, D> {
    interface: &'a Interface<B>,
    _state: PhantomData<S>,
    _debounce: PhantomData<D>,
}

impl<'a, const PIN: u8, B> Pin<'a, PIN, B> {
    /// The chip has sixteen pins.
    #[verifier::type_invariant]
    pub closed spec fn valid(self) -> bool {
        PIN < 16
    }

    /// The interface that the handle talks through.
    pub closed spec fn interface(self) -> Interface<B> {
        *self.interface
    }
}

impl<'a, const PIN: u8, B, S> Output<'a, PIN, B, S> {
    /// The chip has sixteen pins.
    #[verifier::type_invariant]
    pub closed spec fn valid(self) -> bool {
        PIN < 16
    }

    /// The interface that the handle talks through.
    pub closed spec fn interface(self) -> Interface<B> {
        *self.interface
    }
}

impl<'a, const PIN: u8, B, S, D> Input<'a, PIN, B, S, D> {
    /// The chip has sixteen pins.
    #[verifier::type_invariant]
    pub closed spec fn valid(self) -> bool {
        PIN < 16
    }

    /// The interface that the handle talks through.
    pub closed spec fn interface(self) -> Interface<B> {
        *self.interface
    }
}

impl<'a, const PIN: u8, B> Pin<'a, PIN, B> {
    /// The configuration that the handle stands for: none yet.
    pub open spec fn shape(self) -> Shape {
        Shape::Unconfigured
    }
}

impl<'a, const PIN: u8, B, S: OutputState> Output<'a, PIN, B, S> {
    /// The configuration that the handle stands for.
    pub open spec fn shape(self) -> Shape {
        Shape::Output(S::spec_drive())
    }
}

impl<'a, const PIN: u8, B, S: InputState, D: DebounceState> Input<'a, PIN, B, S, D> {
    /// The configuration that the handle stands for.
    pub open spec fn shape(self) -> Shape {
        Shape::Input(S::spec_pull(), D::spec_debounced())
    }
}

/// The opposite of a level that was read, and the error as it is where the
/// read failed.
pub open spec fn spec_opposite<E>(level: Result<bool, E>) -> Result<bool, E> {
    match level {
        Ok(high) => Ok(!high),
        Err(error) => Err(error),
    }
}

/// The opposite of a level that was read, and the error as it is where the
/// read failed.
pub fn opposite<E>(level: Result<bool, E>) -> (r: Result<bool, E>)
    ensures
        r == spec_opposite(level),
{
    match level {
        Ok(high) => Ok(!high),
        Err(error) => Err(error),
    }
}

impl<'a, const PIN: u8, B: Bus> Pin<'a, PIN, B> {
    /// A handle for the pin `PIN` that talks through `interface`.
    pub(crate) fn new(interface: &'a Interface<B>) -> (pin: Self)
        requires
            PIN < 16,
        ensures
            pin.interface() == *interface,
    {
        Self { interface }
    }

    /// The interface that the handle talks through.
    pub(crate) fn bus(&self) -> (interface: &'a Interface<B>)
        ensures
            *interface == self.interface(),
            PIN < 16,
    {
        proof {
            use_type_invariant(self);
        }
        self.interface
    }

    /// Configure the pin as an output. This will set the pin direction on-chip.
    ///
    /// # Errors
    /// This function will return an error if communication with I2C fails. If
    /// an error occurs, the (unchanged) pin can be extracted from the
    /// [`ModeChange`](ModeChange).
    pub fn into_output(self) -> (r: Result<
        Output<'a, PIN, B, states::PushPull>,
        ModeChange<Error<B::Error>, Self>,
    >)
        ensures
            match r {
                Ok(output) => {
                    &&& output.interface() == self.interface()
                    &&& model::spec_plan(self.shape(), output.shape()) == Some(steps::spec_output())
                    &&& self.interface().applied(PIN, steps::spec_output(), Ok(()))
                },
                Err(failure) => {
                    &&& failure.pin == self
                    &&& self.interface().applied(PIN, steps::spec_output(), Err(failure.error))
                },
            },
    {
        let bus = self.bus();
        let plan = model::plan(Shape::Unconfigured, Shape::Output(Drive::PushPull)).unwrap();
        let outcome = bus.apply::<PIN>(plan.as_slice());
        let next = Output::new(bus);
        ModeChange::settle(outcome, self, next)
    }

    /// Configure the pin as an input. This will set the pin direction on-chip.
    ///
    /// # Errors
    /// This function will return an error if communication with I2C fails. If
    /// an error occurs, the (unchanged) pin can be extracted from the
    /// [`ModeChange`](ModeChange).
    pub fn into_input(self) -> (r: Result<
        Input<'a, PIN, B, states::Floating, states::DebounceOff>,
        ModeChange<Error<B::Error>, Self>,
    >)
        ensures
            match r {
                Ok(input) => {
                    &&& input.interface() == self.interface()
                    &&& model::spec_plan(self.shape(), input.shape()) == Some(steps::spec_input())
                    &&& self.interface().applied(PIN, steps::spec_input(), Ok(()))
                },
                Err(failure) => {
                    &&& failure.pin == self
                    &&& self.interface().applied(PIN, steps::spec_input(), Err(failure.error))
                },
            },
    {
        let bus = self.bus();
        let plan = model::plan(Shape::Unconfigured, Shape::Input(Pull::Floating, false)).unwrap();
        let outcome = bus.apply::<PIN>(plan.as_slice());
        let next = Input::new(bus);
        ModeChange::settle(outcome, self, next)
    }
}

impl<'a, const PIN: u8, B: Bus, S> Output<'a, PIN, B, S> {
    /// A handle for the pin `PIN` as an output that talks through `interface`.
    pub(crate) fn new(interface: &'a Interface<B>) -> (output: Self)
        requires
            PIN < 16,
        ensures
            output.interface() == *interface,
    {
        Self { interface, _state: PhantomData }
    }

    /// The interface that the handle talks through.
    pub(crate) fn bus(&self) -> (interface: &'a Interface<B>)
        ensures
            *interface == self.interface(),
            PIN < 16,
    {
        proof {
            use_type_invariant(self);
        }
        self.interface
    }

    /// Drives the pin low.
    pub fn set_low(&mut self) -> (r: Result<(), Error<B::Error>>)
        ensures
            *final(self) == *old(self),
            old(self).interface().bit_written(BankAgnosticRegister::Data, PIN, false, r),
    {
        self.interface.set_data::<PIN>(false)
    }

    /// Drives the pin high.
    pub fn set_high(&mut self) -> (r: Result<(), Error<B::Error>>)
        ensures
            *final(self) == *old(self),
            old(self).interface().bit_written(BankAgnosticRegister::Data, PIN, true, r),
    {
        self.interface.set_data::<PIN>(true)
    }

    /// Is the pin driven high? Reads the data bit back from the chip.
    pub fn is_set_high(&mut self) -> (r: Result<bool, Error<B::Error>>)
        ensures
            *final(self) == *old(self),
            old(self).interface().bit_read(BankAgnosticRegister::Data, PIN, r),
    {
        self.interface.get_data::<PIN>()
    }

    /// Is the pin driven low? Reads the data bit back from the chip.
    pub fn is_set_low(&mut self) -> (r: Result<bool, Error<B::Error>>)
        ensures
            *final(self) == *old(self),
            old(self).interface().bit_read(BankAgnosticRegister::Data, PIN, spec_opposite(r)),
    {
        opposite(self.is_set_high())
    }
}

impl<'a, const PIN: u8, B: Bus, S, D> Input<'a, PIN, B, S, D> {
    /// A handle for the pin `PIN` as an input that talks through `interface`.
    pub(crate) fn new(interface: &'a Interface<B>) -> (input: Self)
        requires
            PIN < 16,
        ensures
            input.interface() == *interface,
    {
        Self { interface, _state: PhantomData, _debounce: PhantomData }
    }

    /// The interface that the handle talks through.
    pub(crate) fn bus(&self) -> (interface: &'a Interface<B>)
        ensures
            *interface == self.interface(),
            PIN < 16,
    {
        proof {
            use_type_invariant(self);
        }
        self.interface
    }

    /// Is the input high?
    pub fn is_high(&mut self) -> (r: Result<bool, Error<B::Error>>)
        ensures
            *final(self) == *old(self),
            old(self).interface().bit_read(BankAgnosticRegister::Data, PIN, r),
    {
        self.interface.get_data::<PIN>()
    }

    /// Is the input low?
    pub fn is_low(&mut self) -> (r: Result<bool, Error<B::Error>>)
        ensures
            *final(self) == *old(self),
            old(self).interface().bit_read(BankAgnosticRegister::Data, PIN, spec_opposite(r)),
    {
        opposite(self.is_high())
    }
}

} // verus!
