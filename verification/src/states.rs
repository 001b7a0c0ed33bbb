use crate::bus::Bus;
use crate::error::{Error, ModeChange};
use crate::model;
use crate::model::{Drive, Shape};
use crate::pin::{Input, Output};
use crate::steps;
use crate::steps::Pull;
use vstd::prelude::*;

verus! {

/// A push-pull output.
pub struct PushPull;

/// An open-drain output.
pub struct OpenDrain;

/// A pull-up input.
pub struct PullUp;

/// A pull-down input.
pub struct PullDown;

/// A floating input.
pub struct Floating;

/// A debounced input.
pub struct DebounceOn;

/// A non-debounced input.
pub struct DebounceOff;

/// A state of an output: how it drives its pin.
pub trait OutputState {
    /// How an output in this state drives its pin.
    spec fn spec_drive() -> Drive;

    /// How an output in this state drives its pin.
    fn drive() -> (drive: Drive)
        ensures
            drive == Self::spec_drive(),
    ;
}

/// A state of an input: how it is biased.
pub trait InputState {
    /// How an input in this state is biased.
    spec fn spec_pull() -> Pull;

    /// How an input in this state is biased.
    fn pull() -> (pull: Pull)
        ensures
            pull == Self::spec_pull(),
    ;
}

/// A debounce state of an input.
pub trait DebounceState {
    /// Whether an input in this state is debounced.
    spec fn spec_debounced() -> bool;

    /// Whether an input in this state is debounced.
    fn debounced() -> (debounced: bool)
        ensures
            debounced == Self::spec_debounced(),
    ;
}

impl OutputState for PushPull {
    open spec fn spec_drive() -> Drive {
        Drive::PushPull
    }

    fn drive() -> Drive {
        Drive::PushPull
    }
}

impl OutputState for OpenDrain {
    open spec fn spec_drive() -> Drive {
        Drive::OpenDrain
    }

    fn drive() -> Drive {
        Drive::OpenDrain
    }
}

impl InputState for Floating {
    open spec fn spec_pull() -> Pull {
        Pull::Floating
    }

    fn pull() -> Pull {
        Pull::Floating
    }
}

impl InputState for PullUp {
    open spec fn spec_pull() -> Pull {
        Pull::PullUp
    }

    fn pull() -> Pull {
        Pull::PullUp
    }
}

impl InputState for PullDown {
    open spec fn spec_pull() -> Pull {
        Pull::PullDown
    }

    fn pull() -> Pull {
        Pull::PullDown
    }
}

impl DebounceState for DebounceOn {
    open spec fn spec_debounced() -> bool {
        true
    }

    fn debounced() -> bool {
        true
    }
}

impl DebounceState for DebounceOff {
    open spec fn spec_debounced() -> bool {
        false
    }

    fn debounced() -> bool {
        false
    }
}

impl<'a, const PIN: u8, B: Bus, S: InputState, D: DebounceState> Input<'a, PIN, B, S, D> {
    /// Configure the pin as an output.
    ///
    /// # Errors
    /// See [`Pin::into_output`](crate::Pin::into_output).
    pub fn into_output(self) -> (r: Result<
        Output<'a, PIN, B, PushPull>,
        ModeChange<Error<B::Error>, Self>,
    >)
        ensures
            match r {
                Ok(output) => {
                    &&& output.interface() == self.interface()
                    &&& model::spec_plan(self.shape(), output.shape()) == Some(steps::spec_output())
                    &&& self.interface().applied(PIN, steps::spec_output(), Ok(()))
                },
                Err(failure) => {
                    &&& failure.pin == self
                    &&& self.interface().applied(PIN, steps::spec_output(), Err(failure.error))
                },
            },
    {
        let bus = self.bus();
        let plan = model::plan(
            Shape::Input(S::pull(), D::debounced()),
            Shape::Output(Drive::PushPull),
        ).unwrap();
        let outcome = bus.apply::<PIN>(plan.as_slice());
        let next = Output::new(bus);
        ModeChange::settle(outcome, self, next)
    }
}

impl<'a, const PIN: u8, B: Bus, S: OutputState> Output<'a, PIN, B, S> {
    /// Configure the pin as an input.
    ///
    /// # Errors
    /// See [`Pin::into_input`](crate::Pin::into_input).
    pub fn into_input(self) -> (r: Result<
        Input<'a, PIN, B, Floating, DebounceOff>,
        ModeChange<Error<B::Error>, Self>,
    >)
        ensures
            match r {
                Ok(input) => {
                    &&& input.interface() == self.interface()
                    &&& model::spec_plan(self.shape(), input.shape()) == Some(steps::spec_input())
                    &&& self.interface().applied(PIN, steps::spec_input(), Ok(()))
                },
                Err(failure) => {
                    &&& failure.pin == self
                    &&& self.interface().applied(PIN, steps::spec_input(), Err(failure.error))
                },
            },
    {
        let bus = self.bus();
        let plan = model::plan(
            Shape::Output(S::drive()),
            Shape::Input(Pull::Floating, false),
        ).unwrap();
        let outcome = bus.apply::<PIN>(plan.as_slice());
        let next = Input::new(bus);
        ModeChange::settle(outcome, self, next)
    }
}

impl<'a, const PIN: u8, B: Bus, D: DebounceState> Input<'a, PIN, B, Floating, D> {
    /// Configure the pin as a pull-up input.
    ///
    /// # Errors
    /// See [`Pin::into_input`](crate::Pin::into_input).
    pub fn pullup(self) -> (r: Result<
        Input<'a, PIN, B, PullUp, D>,
        ModeChange<Error<B::Error>, Self>,
    >)
        ensures
            match r {
                Ok(input) => {
                    &&& input.interface() == self.interface()
                    &&& model::spec_plan(self.shape(), input.shape()) == Some(
                        steps::spec_pull(Pull::Floating, Pull::PullUp),
                    )
                    &&& self.interface().applied(PIN, steps::spec_pull(Pull::Floating, Pull::PullUp), Ok(()))
                },
                Err(failure) => {
                    &&& failure.pin == self
                    &&& self.interface().applied(PIN, steps::spec_pull(Pull::Floating, Pull::PullUp), Err(failure.error))
                },
            },
    {
        let bus = self.bus();
        let plan = model::plan(
            Shape::Input(Pull::Floating, D::debounced()),
            Shape::Input(Pull::PullUp, D::debounced()),
        ).unwrap();
        let outcome = bus.apply::<PIN>(plan.as_slice());
        let next = Input::new(bus);
        ModeChange::settle(outcome, self, next)
    }

    /// Configure the pin as a pull-down input.
    ///
    /// # Errors
    /// See [`Pin::into_input`](crate::Pin::into_input).
    pub fn pulldown(self) -> (r: Result<
        Input<'a, PIN, B, PullDown, D>,
        ModeChange<Error<B::Error>, Self>,
    >)
        ensures
            match r {
                Ok(input) => {
                    &&& input.interface() == self.interface()
                    &&& model::spec_plan(self.shape(), input.shape()) == Some(
                        steps::spec_pull(Pull::Floating, Pull::PullDown),
                    )
                    &&& self.interface().applied(PIN, steps::spec_pull(Pull::Floating, Pull::PullDown), Ok(()))
                },
                Err(failure) => {
                    &&& failure.pin == self
                    &&& self.interface().applied(PIN, steps::spec_pull(Pull::Floating, Pull::PullDown), Err(failure.error))
                },
            },
    {
        let bus = self.bus();
        let plan = model::plan(
            Shape::Input(Pull::Floating, D::debounced()),
            Shape::Input(Pull::PullDown, D::debounced()),
        ).unwrap();
        let outcome = bus.apply::<PIN>(plan.as_slice());
        let next = Input::new(bus);
        ModeChange::settle(outcome, self, next)
    }
}

impl<'a, const PIN: u8, B: Bus, D: DebounceState> Input<'a, PIN, B, PullUp, D> {
    /// Configure the pin as a floating input.
    ///
    /// # Errors
    /// See [`Pin::into_input`](crate::Pin::into_input).
    pub fn floating(self) -> (r: Result<
        Input<'a, PIN, B, Floating, D>,
        ModeChange<Error<B::Error>, Self>,
    >)
        ensures
            match r {
                Ok(input) => {
                    &&& input.interface() == self.interface()
                    &&& model::spec_plan(self.shape(), input.shape()) == Some(
                        steps::spec_pull(Pull::PullUp, Pull::Floating),
                    )
                    &&& self.interface().applied(PIN, steps::spec_pull(Pull::PullUp, Pull::Floating), Ok(()))
                },
                Err(failure) => {
                    &&& failure.pin == self
                    &&& self.interface().applied(PIN, steps::spec_pull(Pull::PullUp, Pull::Floating), Err(failure.error))
                },
            },
    {
        let bus = self.bus();
        let plan = model::plan(
            Shape::Input(Pull::PullUp, D::debounced()),
            Shape::Input(Pull::Floating, D::debounced()),
        ).unwrap();
        let outcome = bus.apply::<PIN>(plan.as_slice());
        let next = Input::new(bus);
        ModeChange::settle(outcome, self, next)
    }

    /// Configure the pin as a pull-down input.
    ///
    /// # Errors
    /// See [`Pin::into_input`](crate::Pin::into_input).
    pub fn pulldown(self) -> (r: Result<
        Input<'a, PIN, B, PullDown, D>,
        ModeChange<Error<B::Error>, Self>,
    >)
        ensures
            match r {
                Ok(input) => {
                    &&& input.interface() == self.interface()
                    &&& model::spec_plan(self.shape(), input.shape()) == Some(
                        steps::spec_pull(Pull::PullUp, Pull::PullDown),
                    )
                    &&& self.interface().applied(PIN, steps::spec_pull(Pull::PullUp, Pull::PullDown), Ok(()))
                },
                Err(failure) => {
                    &&& failure.pin == self
                    &&& self.interface().applied(PIN, steps::spec_pull(Pull::PullUp, Pull::PullDown), Err(failure.error))
                },
            },
    {
        let bus = self.bus();
        let plan = model::plan(
            Shape::Input(Pull::PullUp, D::debounced()),
            Shape::Input(Pull::PullDown, D::debounced()),
        ).unwrap();
        let outcome = bus.apply::<PIN>(plan.as_slice());
        let next = Input::new(bus);
        ModeChange::settle(outcome, self, next)
    }
}

impl<'a, const PIN: u8, B: Bus, D: DebounceState> Input<'a, PIN, B, PullDown, D> {
    /// Configure the pin as a floating input.
    ///
    /// # Errors
    /// See [`Pin::into_input`](crate::Pin::into_input).
    pub fn floating(self) -> (r: Result<
        Input<'a, PIN, B, Floating, D>,
        ModeChange<Error<B::Error>, Self>,
    >)
        ensures
            match r {
                Ok(input) => {
                    &&& input.interface() == self.interface()
                    &&& model::spec_plan(self.shape(), input.shape()) == Some(
                        steps::spec_pull(Pull::PullDown, Pull::Floating),
                    )
                    &&& self.interface().applied(PIN, steps::spec_pull(Pull::PullDown, Pull::Floating), Ok(()))
                },
                Err(failure) => {
                    &&& failure.pin == self
                    &&& self.interface().applied(PIN, steps::spec_pull(Pull::PullDown, Pull::Floating), Err(failure.error))
                },
            },
    {
        let bus = self.bus();
        let plan = model::plan(
            Shape::Input(Pull::PullDown, D::debounced()),
            Shape::Input(Pull::Floating, D::debounced()),
        ).unwrap();
        let outcome = bus.apply::<PIN>(plan.as_slice());
        let next = Input::new(bus);
        ModeChange::settle(outcome, self, next)
    }

    /// Configure the pin as a pull-up input.
    ///
    /// # Errors
    /// See [`Pin::into_input`](crate::Pin::into_input).
    pub fn pullup(self) -> (r: Result<
        Input<'a, PIN, B, PullUp, D>,
        ModeChange<Error<B::Error>, Self>,
    >)
        ensures
            match r {
                Ok(input) => {
                    &&& input.interface() == self.interface()
                    &&& model::spec_plan(self.shape(), input.shape()) == Some(
                        steps::spec_pull(Pull::PullDown, Pull::PullUp),
                    )
                    &&& self.interface().applied(PIN, steps::spec_pull(Pull::PullDown, Pull::PullUp), Ok(()))
                },
                Err(failure) => {
                    &&& failure.pin == self
                    &&& self.interface().applied(PIN, steps::spec_pull(Pull::PullDown, Pull::PullUp), Err(failure.error))
                },
            },
    {
        let bus = self.bus();
        let plan = model::plan(
            Shape::Input(Pull::PullDown, D::debounced()),
            Shape::Input(Pull::PullUp, D::debounced()),
        ).unwrap();
        let outcome = bus.apply::<PIN>(plan.as_slice());
        let next = Input::new(bus);
        ModeChange::settle(outcome, self, next)
    }
}

impl<'a, const PIN: u8, B: Bus, S: InputState> Input<'a, PIN, B, S, DebounceOff> {
    /// Enable debounce for the pin.
    ///
    /// # Errors
    /// See [`Pin::into_input`](crate::Pin::into_input).
    pub fn debounce_on(self) -> (r: Result<
        Input<'a, PIN, B, S, DebounceOn>,
        ModeChange<Error<B::Error>, Self>,
    >)
        ensures
            match r {
                Ok(input) => {
                    &&& input.interface() == self.interface()
                    &&& model::spec_plan(self.shape(), input.shape()) == Some(steps::spec_debounce(true))
                    &&& self.interface().applied(PIN, steps::spec_debounce(true), Ok(()))
                },
                Err(failure) => {
                    &&& failure.pin == self
                    &&& self.interface().applied(PIN, steps::spec_debounce(true), Err(failure.error))
                },
            },
    {
        let bus = self.bus();
        let plan = model::plan(
            Shape::Input(S::pull(), false),
            Shape::Input(S::pull(), true),
        ).unwrap();
        let outcome = bus.apply::<PIN>(plan.as_slice());
        let next = Input::new(bus);
        ModeChange::settle(outcome, self, next)
    }
}

impl<'a, const PIN: u8, B: Bus, S: InputState> Input<'a, PIN, B, S, DebounceOn> {
    /// Disable debounce for the pin.
    ///
    /// # Errors
    /// See [`Pin::into_input`](crate::Pin::into_input).
    pub fn debounce_off(self) -> (r: Result<
        Input<'a, PIN, B, S, DebounceOff>,
        ModeChange<Error<B::Error>, Self>,
    >)
        ensures
            match r {
                Ok(input) => {
                    &&& input.interface() == self.interface()
                    &&& model::spec_plan(self.shape(), input.shape()) == Some(steps::spec_debounce(false))
                    &&& self.interface().applied(PIN, steps::spec_debounce(false), Ok(()))
                },
                Err(failure) => {
                    &&& failure.pin == self
                    &&& self.interface().applied(PIN, steps::spec_debounce(false), Err(failure.error))
                },
            },
    {
        let bus = self.bus();
        let plan = model::plan(
            Shape::Input(S::pull(), true),
            Shape::Input(S::pull(), false),
        ).unwrap();
        let outcome = bus.apply::<PIN>(plan.as_slice());
        let next = Input::new(bus);
        ModeChange::settle(outcome, self, next)
    }
}

impl<'a, const PIN: u8, B: Bus> Output<'a, PIN, B, PushPull> {
    /// Configure the pin as an open-drain output.
    ///
    /// # Errors
    /// See [`Pin::into_output`](crate::Pin::into_output).
    pub fn open_drain(self) -> (r: Result<
        Output<'a, PIN, B, OpenDrain>,
        ModeChange<Error<B::Error>, Self>,
    >)
        ensures
            match r {
                Ok(output) => {
                    &&& output.interface() == self.interface()
                    &&& model::spec_plan(self.shape(), output.shape()) == Some(steps::spec_drive(true))
                    &&& self.interface().applied(PIN, steps::spec_drive(true), Ok(()))
                },
                Err(failure) => {
                    &&& failure.pin == self
                    &&& self.interface().applied(PIN, steps::spec_drive(true), Err(failure.error))
                },
            },
    {
        let bus = self.bus();
        let plan = model::plan(
            Shape::Output(Drive::PushPull),
            Shape::Output(Drive::OpenDrain),
        ).unwrap();
        let outcome = bus.apply::<PIN>(plan.as_slice());
        let next = Output::new(bus);
        ModeChange::settle(outcome, self, next)
    }
}

impl<'a, const PIN: u8, B: Bus> Output<'a, PIN, B, OpenDrain> {
    /// Configure the pin as a push-pull output.
    ///
    /// # Errors
    /// See [`Pin::into_output`](crate::Pin::into_output).
    pub fn push_pull(self) -> (r: Result<
        Output<'a, PIN, B, PushPull>,
        ModeChange<Error<B::Error>, Self>,
    >)
        ensures
            match r {
                Ok(output) => {
                    &&& output.interface() == self.interface()
                    &&& model::spec_plan(self.shape(), output.shape()) == Some(steps::spec_drive(false))
                    &&& self.interface().applied(PIN, steps::spec_drive(false), Ok(()))
                },
                Err(failure) => {
                    &&& failure.pin == self
                    &&& self.interface().applied(PIN, steps::spec_drive(false), Err(failure.error))
                },
            },
    {
        let bus = self.bus();
        let plan = model::plan(
            Shape::Output(Drive::OpenDrain),
            Shape::Output(Drive::PushPull),
        ).unwrap();
        let outcome = bus.apply::<PIN>(plan.as_slice());
        let next = Output::new(bus);
        ModeChange::settle(outcome, self, next)
    }
}

} // verus!
