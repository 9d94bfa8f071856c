//! Phase-frequency detector: how far the local timer's tick is from the
//! reference given by packet arrival.

use vstd::prelude::*;

verus! {

/// The times of the last reference event and of the last local event, and the
/// signed distance between them.
#[allow(non_snake_case)]
#[derive(Clone, Copy, Debug, PartialEq, Eq, Structural)]
pub struct PFD {
    pub intEventTime: u32,
    pub extEventTime: u32,
    pub result: i32,
    pub gotExtEvent: bool,
    pub gotIntEvent: bool,
}

/// The distance from `int_time` to `ext_time` on a 32-bit counter that wraps,
/// as a signed number.
pub open spec fn signed_distance(ext_time: u32, int_time: u32) -> int {
    let d = (ext_time - int_time) % 0x1_0000_0000;
    if d >= 0x8000_0000 {
        d - 0x1_0000_0000
    } else {
        d
    }
}

impl Default for PFD {
    fn default() -> (r: Self)
        ensures
            r == (PFD { intEventTime: 0, extEventTime: 0, result: 0, gotExtEvent: false, gotIntEvent: false }),
    {
        PFD { intEventTime: 0, extEventTime: 0, result: 0, gotExtEvent: false, gotIntEvent: false }
    }
}

#[allow(non_snake_case)]
impl PFD {
    /// Record an event of the reference.
    pub fn extEvent(&mut self, time: u32)
        ensures
            *final(self) == (PFD { extEventTime: time, gotExtEvent: true, ..*old(self) }),
    {
        self.extEventTime = time;
        self.gotExtEvent = true;
    }

    /// Record an event of the local timer.
    pub fn intEvent(&mut self, time: u32)
        ensures
            *final(self) == (PFD { intEventTime: time, gotIntEvent: true, ..*old(self) }),
    {
        self.intEventTime = time;
        self.gotIntEvent = true;
    }

    /// Forget that either event was seen.
    pub fn reset(&mut self)
        ensures
            *final(self) == (PFD { gotExtEvent: false, gotIntEvent: false, ..*old(self) }),
    {
        self.gotExtEvent = false;
        self.gotIntEvent = false;
    }

    /// Set the result: the signed distance from the local event to the
    /// reference event if both were seen, zero otherwise.
    pub fn calcResult(&mut self)
        ensures
            *final(self) == (PFD {
                result: if old(self).gotExtEvent && old(self).gotIntEvent {
                    signed_distance(old(self).extEventTime, old(self).intEventTime) as i32
                } else {
                    0
                },
                ..*old(self)
            }),
            i32::MIN <= signed_distance(old(self).extEventTime, old(self).intEventTime) <= i32::MAX,
    {
        self.result =
        if self.gotExtEvent && self.gotIntEvent {
            if self.extEventTime >= self.intEventTime {
                let d: u32 = self.extEventTime - self.intEventTime;
                if d >= 0x8000_0000 {
                    (d as i64 - 0x1_0000_0000) as i32
                } else {
                    d as i32
                }
            } else {
                let back: u32 = self.intEventTime - self.extEventTime;
                if back > 0x8000_0000 {
                    (0x1_0000_0000 - back as i64) as i32
                } else {
                    (-(back as i64)) as i32
                }
            }
        } else {
            0
        };
    }
}

} // verus!
