//! The digital-output contract consumed by the shift register driver, and a
//! recording fake implementation of it for tests.
//!
//! A pin is modelled by the sequence of logic levels that have been written to
//! it (`true` = high, `false` = low). A write either succeeds and appends
//! exactly the commanded level to that sequence, or fails and leaves the
//! sequence unchanged.

use vstd::prelude::*;

verus! {

/// A single digital output line.
///
/// Implementations drive real or simulated hardware. The abstract state of a
/// pin is the full history of levels successfully written to it; `set_high`
/// and `set_low` may fail (hardware fault, bus error), in which case the
/// history is unchanged and the implementation's error value is returned.
pub trait OutputPin: Sized {
    /// The implementation's failure type.
    type Error;

    /// The levels successfully written to this pin so far, oldest first.
    spec fn writes(&self) -> Seq<bool>;

    /// Drive the line high.
    fn set_high(&mut self) -> (r: Result<(), Self::Error>)
        ensures
            r is Ok ==> final (self).writes() == old(self).writes().push(true),
            r is Err ==> final (self).writes() == old(self).writes(),
    ;

    /// Drive the line low.
    fn set_low(&mut self) -> (r: Result<(), Self::Error>)
        ensures
            r is Ok ==> final (self).writes() == old(self).writes().push(false),
            r is Err ==> final (self).writes() == old(self).writes(),
    ;
}

/// The failure value reported by [`FakePin`] when a scheduled fault fires.
#[derive(Clone, Copy, Debug, PartialEq, Eq, Structural)]
pub struct PinFault;

/// A simulated output pin that records every level written to it and can be
/// scheduled to fail one write.
///
/// The fault schedule is a position in the write history: the write attempted
/// while the history has exactly that length fails with [`PinFault`], records
/// nothing, and disarms the fault, so a retried write goes through.
pub struct FakePin {
    log: Vec<bool>,
    fail_at: Option<usize>,
}

impl FakePin {
    /// The scheduled fault position, if any.
    pub closed spec fn fault_index(&self) -> Option<int> {
        match self.fail_at {
            Some(k) => Some(k as int),
            None => None,
        }
    }

    /// True if the next write attempt will fail.
    pub open spec fn fails_next(&self) -> bool {
        self.fault_index() == Some(self.writes().len() as int)
    }

    /// A pin that never fails, with an empty write history.
    pub fn new() -> (r: FakePin)
        ensures
            r.writes() == Seq::<bool>::empty(),
            r.fault_index() == Option::<int>::None,
    {
        FakePin { log: Vec::new(), fail_at: None }
    }

    /// A pin with an empty write history whose write at position `k` fails.
    pub fn failing_at(k: usize) -> (r: FakePin)
        ensures
            r.writes() == Seq::<bool>::empty(),
            r.fault_index() == Some(k as int),
    {
        FakePin { log: Vec::new(), fail_at: Some(k) }
    }

    /// The recorded write history, oldest first.
    pub fn log(&self) -> (r: &Vec<bool>)
        ensures
            r@ == self.writes(),
    {
        &self.log
    }

    fn write(&mut self, level: bool) -> (r: Result<(), PinFault>)
        ensures
            r is Ok <==> !old(self).fails_next(),
            r is Ok ==> final (self).writes() == old(self).writes().push(level),
            r is Ok ==> final (self).fault_index() == old(self).fault_index(),
            r is Err ==> final (self).writes() == old(self).writes(),
            r is Err ==> final (self).fault_index() == Option::<int>::None,
    {
        match self.fail_at {
            Some(k) if k == self.log.len() => {
                self.fail_at = None;
                Err(PinFault)
            },
            _ => {
                self.log.push(level);
                Ok(())
            },
        }
    }
}

impl OutputPin for FakePin {
    type Error = PinFault;

    closed spec fn writes(&self) -> Seq<bool> {
        self.log@
    }

    fn set_high(&mut self) -> (r: Result<(), PinFault>)
        ensures
            r is Ok <==> !old(self).fails_next(),
            r is Ok ==> final (self).fault_index() == old(self).fault_index(),
            r is Err ==> final (self).fault_index() == Option::<int>::None,
    {
        self.write(true)
    }

    fn set_low(&mut self) -> (r: Result<(), PinFault>)
        ensures
            r is Ok <==> !old(self).fails_next(),
            r is Ok ==> final (self).fault_index() == old(self).fault_index(),
            r is Err ==> final (self).fault_index() == Option::<int>::None,
    {
        self.write(false)
    }
}

} // verus!
