//! The transformation between a source value and a target value.

use vstd::prelude::*;
use crate::source::ControlValue;

verus! {

/// A mapping's transformation. It passes absolute control values through,
/// remembers the last value it saw, and declines to act when the target
/// already holds the incoming value, so that redundant writes are skipped.
#[derive(Copy, Clone, Debug, PartialEq, Eq, Structural)]
pub struct Mode {
    /// The last control value this mode transformed, if any.
    pub last_value: Option<ControlValue>,
}

impl Mode {
    /// The last control value fed to this mode, if any.
    pub open spec fn spec_last_value(self) -> Option<ControlValue> {
        self.last_value
    }

    /// Creates a mode that has seen no value.
    pub fn new() -> (r: Mode)
        ensures
            r.spec_last_value() is None,
    {
        Mode { last_value: None }
    }

    /// What the mode returns for an incoming value and the target's current
    /// value: nothing when the target already holds the value, else the
    /// value itself.
    pub open spec fn spec_control(v: ControlValue, target_current: Option<ControlValue>) -> Option<
        ControlValue,
    > {
        if target_current == Some(v) {
            None
        } else {
            Some(v)
        }
    }

    /// Transforms an incoming control value, given the target's current
    /// value. Remembers the incoming value either way.
    pub fn control(&mut self, v: ControlValue, target_current: Option<ControlValue>) -> (r: Option<
        ControlValue,
    >)
        ensures
            final(self).spec_last_value() == Some(v),
            r == Mode::spec_control(v, target_current),
    {
        self.last_value = Some(v);
        match target_current {
            Some(c) => {
                if c.value == v.value && c.max == v.max {
                    None
                } else {
                    Some(v)
                }
            },
            None => Some(v),
        }
    }
}

} // verus!
