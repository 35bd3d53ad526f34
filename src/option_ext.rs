//! Taking the value out of an `Option` as a `Result`, for code that reports
//! a missing value as an error.
use vstd::prelude::*;

verus! {

/// The value asked for is not there.
#[derive(Clone, Copy, Debug, PartialEq, Eq, Structural)]
pub struct EmptyValue;

pub trait OptionGet<T>: Sized {
    /// The value, borrowed, or `EmptyValue`.
    fn get(&self) -> Result<&T, EmptyValue>;

    /// The value, moved out, or `EmptyValue`.
    fn get_move(self) -> Result<T, EmptyValue>;
}

impl<T> OptionGet<T> for Option<T> {
    fn get(&self) -> (r: Result<&T, EmptyValue>)
        ensures
            match self {
                Some(v) => r == Ok::<&T, EmptyValue>(v),
                None => r == Err::<&T, EmptyValue>(EmptyValue),
            },
    {
        match self {
            Some(v) => Ok(v),
            None => Err(EmptyValue),
        }
    }

    fn get_move(self) -> (r: Result<T, EmptyValue>)
        ensures
            match self {
                Some(v) => r == Ok::<T, EmptyValue>(v),
                None => r == Err::<T, EmptyValue>(EmptyValue),
            },
    {
        match self {
            Some(v) => Ok(v),
            None => Err(EmptyValue),
        }
    }
}

} // verus!
