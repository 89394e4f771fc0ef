//! Frame timing: how long the last frame took.
//!
//! The clock itself is the one outside dependency of this module; the
//! arithmetic on its readings is ordinary verified code, split out into
//! [`FrameRate::advance`] so that it is proved for every reading the
//! clock could hand back.

use vstd::prelude::*;
use crate::Error;

verus! {

/// The time the last frame ended, and how long it lasted, both in
/// microseconds.
#[derive(Clone, Copy, Debug)]
pub struct FrameRate {
    pub last: u64,
    pub duration: u64,
}

/// The current time in microseconds since the system epoch.
///
/// Relies on `std::time::SystemTime::now` and
/// `SystemTime::duration_since`: a clock reading, different on every
/// call, so nothing is promised of the result.
#[verifier::external_body]
fn now_micros() -> u64 {
    match std::time::SystemTime::now().duration_since(std::time::SystemTime::UNIX_EPOCH) {
        Ok(d) => d.as_micros() as u64,
        Err(_) => 0,
    }
}

impl FrameRate {
    /// A frame-rate tracker starting now, with a zero duration.
    pub fn start() -> (r: FrameRate)
        ensures
            r.duration == 0,
    {
        FrameRate { last: now_micros(), duration: 0 }
    }

    /// Fold a clock reading in: if the clock did not go backwards, the
    /// duration becomes the time since the previous reading; a backwards
    /// reading is refused and changes nothing.
    pub fn advance(&mut self, now: u64) -> (r: Result<(), Error>)
        ensures
            now >= old(self).last ==> (r matches Ok(())
                && final(self).last == now
                && final(self).duration == now - old(self).last),
            now < old(self).last ==> (r matches Err(e)
                && e == Error::ClockWentBackwards
                && *final(self) == *old(self)),
    {
        if now >= self.last {
            self.duration = now - self.last;
            self.last = now;
            Ok(())
        } else {
            Err(Error::ClockWentBackwards)
        }
    }

    /// Read the clock and fold the reading in.  On success the duration
    /// spans exactly from the previous reading to the new one; if the
    /// clock went backwards, nothing changes and the error says so.
    pub fn update(&mut self) -> (r: Result<(), Error>)
        ensures
            r matches Ok(()) ==> (final(self).last >= old(self).last
                && final(self).duration == final(self).last - old(self).last),
            r matches Err(e) ==> (e == Error::ClockWentBackwards
                && *final(self) == *old(self)),
    {
        let now = now_micros();
        self.advance(now)
    }
}

impl Default for FrameRate {
    /// A tracker starting now, with a zero duration.
    fn default() -> (r: FrameRate)
        ensures
            r.duration == 0,
    {
        FrameRate::start()
    }
}

} // verus!
