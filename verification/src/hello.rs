//! A minimal counter instance: the smallest example of the
//! operation-handler shape the other instances share.

use vstd::prelude::*;

verus! {

/// Operations the counter accepts.
#[derive(Clone, Copy, Debug)]
pub enum Operation {
    Increment { by: u64 },
}

/// Static configuration of the counter instance (none is needed).
#[derive(Clone, Copy, Debug)]
pub struct Parameters;

/// Opaque acknowledgement returned by the operation ABI: an empty
/// payload.
#[derive(Clone, Debug)]
pub struct ResponseBytes(pub Vec<u8>);

/// Marker tying the counter to its operation and response types.
#[derive(Clone, Copy, Debug)]
pub struct HelloAbi;

/// The full state of the counter instance: one value.
#[derive(Clone, Copy, PartialEq, Eq, Structural, Debug)]
pub struct HelloStateData {
    pub value: u64,
}

impl HelloStateData {
    /// A fresh counter, at zero.
    pub fn new() -> (s: HelloStateData)
        ensures
            s.value == 0,
    {
        HelloStateData { value: 0 }
    }

    /// Runs one operation: incrementing adds `by` to the value,
    /// saturating at the largest representable value.
    pub fn execute_operation(&mut self, operation: Operation)
        ensures
            match operation {
                Operation::Increment { by } => final(self).value == old(self).value.saturating_add(
                    by,
                ),
            },
    {
        match operation {
            Operation::Increment { by } => {
                self.value = self.value.saturating_add(by);
            },
        }
    }
}

} // verus!
