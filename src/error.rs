//! Errors of the driver.
use vstd::prelude::*;

verus! {

/// All possible errors in this crate.
#[derive(Debug)]
pub enum Error<E> {
    /// I²C bus error.
    I2C(E),
}

/// Error of a mode change. It gives the unchanged device back.
#[derive(Debug)]
pub enum ModeChangeError<E, DEV> {
    /// I²C bus error during the mode change, with the unchanged device.
    I2C(E, DEV),
}

/// The outcome of a bus transfer with its error wrapped.
pub fn bus_result<T, E>(outcome: Result<T, E>) -> (r: Result<T, Error<E>>)
    ensures
        match outcome {
            Ok(v) => r == Ok::<T, Error<E>>(v),
            Err(e) => r == Err::<T, Error<E>>(Error::I2C(e)),
        },
{
    match outcome {
        Ok(v) => Ok(v),
        Err(e) => Err(Error::I2C(e)),
    }
}

} // verus!
