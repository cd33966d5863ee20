//! Validation rules for launch parameters.
use crate::error::PumpfunError;
use vstd::prelude::*;

verus! {

/// A rule that a candidate value must satisfy: an inclusive range whose
/// bounds are each optional, or a closed list of allowed values.
#[derive(Debug)]
pub enum AmountConfig<T> {
    Range { min: Option<T>, max: Option<T> },
    Enum(Vec<T>),
}

/// The verdict of a range rule on `value`: below `min` is too small, else
/// above `max` is too large, else accepted.
pub open spec fn range_verdict(min: Option<int>, max: Option<int>, value: int) -> Result<
    (),
    PumpfunError,
> {
    if min is Some && value < min->0 {
        Err(PumpfunError::ValueTooSmall)
    } else if max is Some && value > max->0 {
        Err(PumpfunError::ValueTooLarge)
    } else {
        Ok(())
    }
}

/// The verdict of a list rule on `value`: accepted exactly when listed.
pub open spec fn enum_verdict<T>(options: Seq<T>, value: T) -> Result<(), PumpfunError> {
    if options.contains(value) {
        Ok(())
    } else {
        Err(PumpfunError::ValueInvalid)
    }
}

pub open spec fn option_as_int_u64(o: Option<u64>) -> Option<int> {
    match o {
        Some(v) => Some(v as int),
        None => None,
    }
}

pub open spec fn option_as_int_u8(o: Option<u8>) -> Option<int> {
    match o {
        Some(v) => Some(v as int),
        None => None,
    }
}

impl AmountConfig<u64> {
    /// What `validate` returns for `value`.
    pub open spec fn verdict_u64(&self, value: u64) -> Result<(), PumpfunError> {
        match self {
            AmountConfig::Range { min, max } => range_verdict(
                option_as_int_u64(*min),
                option_as_int_u64(*max),
                value as int,
            ),
            AmountConfig::Enum(options) => enum_verdict(options@, value),
        }
    }

    /// Checks `value` against this rule.
    pub fn validate(&self, value: &u64) -> (r: Result<(), PumpfunError>)
        ensures
            r == self.verdict_u64(*value),
    {
        match self {
            AmountConfig::Range { min, max } => {
                if let Some(lo) = min {
                    if *value < *lo {
                        return Err(PumpfunError::ValueTooSmall);
                    }
                }
                if let Some(hi) = max {
                    if *value > *hi {
                        return Err(PumpfunError::ValueTooLarge);
                    }
                }
                Ok(())
            },
            AmountConfig::Enum(options) => {
                let mut i: usize = 0;
                while i < options.len()
                    invariant
                        0 <= i <= options@.len(),
                        self.verdict_u64(*value) == enum_verdict(options@, *value),
                        forall|j: int| 0 <= j < i ==> options@[j] != *value,
                    decreases options@.len() - i,
                {
                    if options[i] == *value {
                        assert(options@[i as int] == *value);
                        return Ok(());
                    }
                    i = i + 1;
                }
                Err(PumpfunError::ValueInvalid)
            },
        }
    }
}

impl AmountConfig<u8> {
    /// What `validate` returns for `value`.
    pub open spec fn verdict_u8(&self, value: u8) -> Result<(), PumpfunError> {
        match self {
            AmountConfig::Range { min, max } => range_verdict(
                option_as_int_u8(*min),
                option_as_int_u8(*max),
                value as int,
            ),
            AmountConfig::Enum(options) => enum_verdict(options@, value),
        }
    }

    /// Checks `value` against this rule.
    pub fn validate(&self, value: &u8) -> (r: Result<(), PumpfunError>)
        ensures
            r == self.verdict_u8(*value),
    {
        match self {
            AmountConfig::Range { min, max } => {
                if let Some(lo) = min {
                    if *value < *lo {
                        return Err(PumpfunError::ValueTooSmall);
                    }
                }
                if let Some(hi) = max {
                    if *value > *hi {
                        return Err(PumpfunError::ValueTooLarge);
                    }
                }
                Ok(())
            },
            AmountConfig::Enum(options) => {
                let mut i: usize = 0;
                while i < options.len()
                    invariant
                        0 <= i <= options@.len(),
                        self.verdict_u8(*value) == enum_verdict(options@, *value),
                        forall|j: int| 0 <= j < i ==> options@[j] != *value,
                    decreases options@.len() - i,
                {
                    if options[i] == *value {
                        assert(options@[i as int] == *value);
                        return Ok(());
                    }
                    i = i + 1;
                }
                Err(PumpfunError::ValueInvalid)
            },
        }
    }
}

} // verus!
