//! Appending a record to a counter.

use vstd::prelude::*;

verus! {

/// A request to advance a counter by a step.
#[derive(Clone, Copy, Debug, PartialEq, Eq, Structural)]
pub struct AddPayload {
    counter_id: i32,
    /// By how much the counter advances.
    pub step: i32,
}

/// A record of one advance of a counter: where it began and where it ended.
#[derive(Clone, Copy, Debug, PartialEq, Eq, Structural)]
pub struct RecordEntry {
    /// The counter that advanced.
    pub counter_id: i32,
    /// By how much it advanced.
    pub step: i32,
    /// Its value before.
    pub begin: i32,
    /// Its value after.
    pub end: i32,
}

impl AddPayload {
    /// A request to advance the counter `counter_id` by `step`.
    pub fn new(counter_id: i32, step: i32) -> (p: AddPayload)
        ensures
            p.counter_id_spec() == counter_id,
            p.step_spec() == step,
    {
        AddPayload { counter_id, step }
    }

    /// The counter to advance.
    pub closed spec fn counter_id_spec(self) -> i32 {
        self.counter_id
    }

    /// The counter to advance.
    pub fn counter_id(&self) -> (r: i32)
        ensures
            r == self.counter_id_spec(),
    {
        self.counter_id
    }

    /// By how much the counter advances.
    pub closed spec fn step_spec(self) -> i32 {
        self.step
    }

    /// By how much the counter advances.
    pub fn step(&self) -> (r: i32)
        ensures
            r == self.step_spec(),
    {
        self.step
    }

    /// The record of this advance for a counter that stands at `value`, or
    /// `None` where the new value would not fit an `i32`.
    pub open spec fn record_spec(self, value: i32) -> Option<RecordEntry> {
        if i32::MIN <= value + self.step_spec() <= i32::MAX {
            Some(
                RecordEntry {
                    counter_id: self.counter_id_spec(),
                    step: self.step_spec(),
                    begin: value,
                    end: (value + self.step_spec()) as i32,
                },
            )
        } else {
            None
        }
    }

    /// The record of this advance for a counter that stands at `value`, or
    /// `None` where the new value would not fit an `i32`. The counter's new
    /// value is the record's `end`.
    pub fn record(&self, value: i32) -> (r: Option<RecordEntry>)
        ensures
            r == self.record_spec(value),
    {
        match value.checked_add(self.step) {
            Some(end) => Some(
                RecordEntry { counter_id: self.counter_id, step: self.step, begin: value, end },
            ),
            None => None,
        }
    }
}

} // verus!
