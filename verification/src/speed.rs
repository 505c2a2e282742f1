//! Playback speed, counted in tenths.

use crate::mpv::{fraction, fraction_text, set_property, setting, ArgView, MpvArg, MpvCommand};
use vstd::prelude::*;
use vstd::string::*;

verus! {

pub const MIN_TENTHS: u8 = 1;

pub const NORMAL_TENTHS: u8 = 10;

pub const MAX_TENTHS: u8 = 40;

/// A playback speed between a tenth and four times the normal one.
#[derive(Debug, Clone, Copy, PartialEq, Eq, Structural)]
pub struct Speed {
    pub tenths: u8,
}

/// The nearest speed that can be set.
pub open spec fn settable(tenths: int) -> int {
    if tenths < MIN_TENTHS {
        MIN_TENTHS as int
    } else if tenths > MAX_TENTHS {
        MAX_TENTHS as int
    } else {
        tenths
    }
}

impl Speed {
    pub open spec fn wf(self) -> bool {
        MIN_TENTHS <= self.tenths <= MAX_TENTHS
    }

    /// A speed as it is written: "1.5" for half as fast again.
    pub open spec fn written(self) -> Seq<char> {
        fraction_text((self.tenths * 100) as nat)
    }

    pub fn normal() -> (r: Self)
        ensures
            r.wf(),
            r.tenths == NORMAL_TENTHS,
    {
        Speed { tenths: NORMAL_TENTHS }
    }

    pub fn from_tenths(tenths: u8) -> (r: Option<Self>)
        ensures
            r == (if MIN_TENTHS <= tenths <= MAX_TENTHS {
                Some(Speed { tenths })
            } else {
                None
            }),
    {
        if MIN_TENTHS <= tenths && tenths <= MAX_TENTHS {
            Some(Speed { tenths })
        } else {
            None
        }
    }

    /// The speed `steps` tenths away, or the end that lies in that direction.
    pub fn stepped(self, steps: i8) -> (r: Self)
        ensures
            r.wf(),
            r.tenths == settable(self.tenths + steps),
    {
        let next: i32 = self.tenths as i32 + steps as i32;
        if next < MIN_TENTHS as i32 {
            Speed { tenths: MIN_TENTHS }
        } else if next > MAX_TENTHS as i32 {
            Speed { tenths: MAX_TENTHS }
        } else {
            Speed { tenths: next as u8 }
        }
    }

    pub fn label(self) -> (r: String)
        ensures
            r@ == self.written() + "x"@,
    {
        let mut out = fraction(self.tenths as u64 * 100);
        out.append("x");
        out
    }

    /// The argument to start the player with. Normal speed needs none.
    pub fn launch_arg(self) -> (r: Option<String>)
        ensures
            r is None <==> self.tenths == NORMAL_TENTHS,
            r matches Some(arg) ==> arg@ == "--speed="@ + self.written(),
    {
        if self.tenths == NORMAL_TENTHS {
            return None;
        }
        let mut out = "--speed=".to_owned();
        out.append(fraction(self.tenths as u64 * 100).as_str());
        Some(out)
    }

    /// The command that sets the speed.
    pub open spec fn order(self) -> Seq<ArgView> {
        setting("speed"@, ArgView::Thousandths((self.tenths * 100) as u64))
    }

    pub fn command(self) -> (r: MpvCommand)
        ensures
            r@ == self.order(),
            r.request_id is None,
    {
        set_property("speed", MpvArg::Thousandths(self.tenths as u64 * 100))
    }
}

/// A speed that the player reported, moved to the nearest one that can be set.
#[derive(Debug, Clone, Copy, PartialEq, Eq, Structural)]
pub struct Polled {
    pub speed: Speed,
    /// The player plays at a speed outside the range.
    pub clamped: bool,
}

/// The tenths nearest to a number of thousandths, halves up.
pub open spec fn nearest_tenths(millis: int) -> int {
    (millis + 50) / 100
}

impl Polled {
    /// From the reported speed in thousandths.
    pub fn from_millis(millis: u64) -> (r: Self)
        ensures
            r.speed.wf(),
            r.speed.tenths == settable(nearest_tenths(millis as int)),
            r.clamped == (settable(nearest_tenths(millis as int)) != nearest_tenths(millis as int)),
    {
        let tenths: u64 = if millis % 100 >= 50 {
            millis / 100 + 1
        } else {
            millis / 100
        };
        if tenths < MIN_TENTHS as u64 {
            Polled { speed: Speed { tenths: MIN_TENTHS }, clamped: true }
        } else if tenths > MAX_TENTHS as u64 {
            Polled { speed: Speed { tenths: MAX_TENTHS }, clamped: true }
        } else {
            Polled { speed: Speed { tenths: tenths as u8 }, clamped: false }
        }
    }
}

/// A step back undoes a step, as long as neither meets an end.
pub proof fn law_speed_steps_back(tenths: int, steps: int)
    requires
        MIN_TENTHS <= tenths <= MAX_TENTHS,
        MIN_TENTHS <= tenths + steps <= MAX_TENTHS,
    ensures
        settable(settable(tenths + steps) - steps) == tenths,
{
}

/// A speed lies between a tenth and four times the normal one; what is asked for beyond is
/// that end, and what is asked for within is what is set.
pub proof fn law_speed_has_two_ends(tenths: int)
    ensures
        1 <= settable(tenths) <= 40,
        1 <= tenths <= 40 ==> settable(tenths) == tenths,
        tenths <= 1 ==> settable(tenths) == 1,
        tenths >= 40 ==> settable(tenths) == 40,
        (Speed { tenths: 10 }).wf() && !(Speed { tenths: 0 }).wf() && !(Speed { tenths: 41 }).wf(),
        NORMAL_TENTHS == 10,
{
}

/// A reported speed is taken as the nearest tenth, and a half as the faster one.
pub proof fn law_tenths_are_nearest(millis: int)
    requires
        millis >= 0,
    ensures
        -50 <= millis - nearest_tenths(millis) * 100 < 50,
{
}

/// A speed is written as what it is: tenths behind the point, ones before it.
pub proof fn law_speed_is_written_in_tenths(speed: Speed)
    requires
        speed.wf(),
    ensures
        speed.written() == crate::text::decimal((speed.tenths / 10) as nat) + "."@
            + crate::text::decimal((speed.tenths % 10) as nat),
        speed.order() == setting("speed"@, ArgView::Thousandths((speed.tenths * 100) as u64)),
{
    let n = (speed.tenths * 100) as nat;
    assert(n / 1000 == speed.tenths / 10);
    assert(n % 1000 / 100 == speed.tenths % 10);
    assert(n % 1000 % 100 == 0);
}

} // verus!
