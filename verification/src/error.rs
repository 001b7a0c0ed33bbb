use vstd::prelude::*;

verus! {

/// An error that occurs when communicating with the expander.
#[derive(Debug)]
pub enum Error<EI2C> {
    /// The bus transaction itself failed.
    Io(EI2C),
    /// The bus is busy, that is used by another pin at the same time.
    BusBusy,
}

impl<EI2C> Error<EI2C> {
    /// What a bus transaction returned, as the driver's result: a value
    /// passes through, a failure of the bus is wrapped as [`Error::Io`].
    pub open spec fn spec_from_bus<T>(outcome: Result<T, EI2C>) -> Result<T, Error<EI2C>> {
        match outcome {
            Ok(value) => Ok(value),
            Err(cause) => Err(Error::Io(cause)),
        }
    }

    /// Turns what a bus transaction returned into the driver's result: a
    /// value passes through, a failure of the bus is wrapped as [`Error::Io`].
    pub fn from_bus<T>(outcome: Result<T, EI2C>) -> (r: Result<T, Error<EI2C>>)
        ensures
            r == Self::spec_from_bus(outcome),
    {
        match outcome {
            Ok(value) => Ok(value),
            Err(cause) => Err(Error::Io(cause)),
        }
    }
}

/// An error that occurs when changing the mode of a pin.
pub struct ModeChange<E, P> {
    /// The inner error that occurred, preventing the mode change.
    pub error: E,
    /// The pin that failed to change mode.
    pub pin: P,
}

impl<E, P> ModeChange<E, P> {
    /// Ends a mode change. When every write went through the caller gets the
    /// handle of the new shape; when one failed the caller gets the error
    /// together with the handle that was given, so the pin is never lost.
    pub fn settle<Q>(outcome: Result<(), E>, pin: P, next: Q) -> (r: Result<Q, ModeChange<E, P>>)
        ensures
            r == match outcome {
                Ok(_) => Ok::<Q, ModeChange<E, P>>(next),
                Err(error) => Err(ModeChange { error, pin }),
            },
    {
        match outcome {
            Ok(_) => Ok(next),
            Err(error) => Err(ModeChange { error, pin }),
        }
    }
}

} // verus!
