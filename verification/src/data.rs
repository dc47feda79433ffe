//! The data model shared by every part of the system.

use vstd::prelude::*;
use vstd::std_specs::convert::FromSpecImpl;
use vstd::string::StringExecFns;

verus! {

/// A single switch.
#[derive(Debug, Clone, PartialEq)]
pub struct Switch {
    pub id: i32,
    pub name: String,
    pub on_code: i32,
    pub off_code: i32,
}

/// A flip that recurs on the weekdays of its mask.
#[derive(Debug, Clone, Copy, PartialEq, Eq, Structural)]
pub struct ScheduledFlip {
    pub id: i32,
    pub hour: i32,
    pub minute: i32,
    pub dow: DayOfTheWeek,
    pub direction: Direction,
    pub kind: FlipKind,
}

/// What a scheduled flip is tied to: a fixed time, or a phase of the sun.
#[derive(Debug, Clone, Copy, PartialEq, Eq, Structural)]
pub enum FlipKind {
    Custom,
    PreDawn,
    Sunrise,
    Dusk,
    Sunset,
}

/// One flip to carry out: the code to transmit and the minute it is due.
#[derive(Debug, Clone, Copy, PartialEq, Eq, Structural)]
pub struct Flip {
    pub hour: i32,
    pub minute: i32,
    pub code: i32,
}

/// Which way a switch is flipped.
#[derive(Debug, Clone, Copy, PartialEq, Eq, Structural)]
pub enum Direction {
    On,
    Off,
}

/// A day of the week.
#[derive(Debug, Clone, Copy, PartialEq, Eq, Structural)]
pub enum Weekday {
    Mon,
    Tue,
    Wed,
    Thu,
    Fri,
    Sat,
    Sun,
}

/// The weekdays on which a flip recurs.
///
/// On the wire this is a single integer whose bit `i` (0 for Monday up to 6
/// for Sunday) is set exactly when the day is included.
#[derive(Debug, Clone, Copy, PartialEq, Eq, Structural)]
pub struct DayOfTheWeek {
    pub monday: bool,
    pub tuesday: bool,
    pub wednesday: bool,
    pub thursday: bool,
    pub friday: bool,
    pub saturday: bool,
    pub sunday: bool,
}

/// The state of an authorized user's token.
#[derive(Debug, Clone, Copy, PartialEq, Eq, Structural)]
pub enum TokenState {
    /// This token is valid.
    Valid,
    /// This token is not valid.
    Invalid,
    /// This token is valid but should be regenerated.
    Expired,
}

/// A point in time: whole seconds since the start of 1970, and the
/// nanoseconds since that second, which stay below a thousand million in
/// every time that a clock or the store gives.
#[derive(Debug, Clone, Copy, PartialEq, Eq, Structural)]
pub struct Timestamp {
    pub seconds: i64,
    pub nanos: u32,
}

/// A grant of access: the code that was handed out, and when.
#[derive(Debug, Clone, Copy, PartialEq, Eq, Structural)]
pub struct Authorization {
    pub created: Timestamp,
    pub code: u128,
}

/// `weight` if the day is included, else nothing.
pub open spec fn day_bit(included: bool, weight: int) -> int {
    if included {
        weight
    } else {
        0
    }
}

impl DayOfTheWeek {
    /// The wire value: the sum of `2^i` over the included days.
    pub open spec fn mask(self) -> int {
        day_bit(self.monday, 1) + day_bit(self.tuesday, 2) + day_bit(self.wednesday, 4) + day_bit(
            self.thursday,
            8,
        ) + day_bit(self.friday, 16) + day_bit(self.saturday, 32) + day_bit(self.sunday, 64)
    }

    /// The days whose bits are set in `v`. Bits above the seventh are ignored.
    pub open spec fn of_mask(v: i32) -> DayOfTheWeek {
        DayOfTheWeek {
            monday: v & 1 > 0,
            tuesday: v & 2 > 0,
            wednesday: v & 4 > 0,
            thursday: v & 8 > 0,
            friday: v & 16 > 0,
            saturday: v & 32 > 0,
            sunday: v & 64 > 0,
        }
    }

    /// The mask that holds `day` and no other day.
    pub open spec fn only(day: Weekday) -> DayOfTheWeek {
        DayOfTheWeek {
            monday: day is Mon,
            tuesday: day is Tue,
            wednesday: day is Wed,
            thursday: day is Thu,
            friday: day is Fri,
            saturday: day is Sat,
            sunday: day is Sun,
        }
    }
}

impl From<i32> for DayOfTheWeek {
    /// Decodes a wire value.
    fn from(v: i32) -> (days: DayOfTheWeek) {
        DayOfTheWeek {
            monday: v & 1 > 0,
            tuesday: v & 2 > 0,
            wednesday: v & 4 > 0,
            thursday: v & 8 > 0,
            friday: v & 16 > 0,
            saturday: v & 32 > 0,
            sunday: v & 64 > 0,
        }
    }
}

impl FromSpecImpl<i32> for DayOfTheWeek {
    open spec fn obeys_from_spec() -> bool {
        true
    }

    open spec fn from_spec(v: i32) -> DayOfTheWeek {
        DayOfTheWeek::of_mask(v)
    }
}

impl From<DayOfTheWeek> for i32 {
    /// Encodes the days as their wire value.
    fn from(days: DayOfTheWeek) -> (v: i32) {
        let mut ret: i32 = 0;
        if days.monday {
            ret += 1;
        }
        if days.tuesday {
            ret += 2;
        }
        if days.wednesday {
            ret += 4;
        }
        if days.thursday {
            ret += 8;
        }
        if days.friday {
            ret += 16;
        }
        if days.saturday {
            ret += 32;
        }
        if days.sunday {
            ret += 64;
        }
        ret
    }
}

impl FromSpecImpl<DayOfTheWeek> for i32 {
    open spec fn obeys_from_spec() -> bool {
        true
    }

    open spec fn from_spec(days: DayOfTheWeek) -> i32 {
        days.mask() as i32
    }
}

impl From<Weekday> for DayOfTheWeek {
    /// The mask that holds `day` alone.
    fn from(day: Weekday) -> (days: DayOfTheWeek) {
        let v: i32 = match day {
            Weekday::Mon => 1i32,
            Weekday::Tue => 2i32,
            Weekday::Wed => 4i32,
            Weekday::Thu => 8i32,
            Weekday::Fri => 16i32,
            Weekday::Sat => 32i32,
            Weekday::Sun => 64i32,
        };
        proof {
            lemma_single_day_masks();
        }
        DayOfTheWeek::from(v)
    }
}

impl FromSpecImpl<Weekday> for DayOfTheWeek {
    open spec fn obeys_from_spec() -> bool {
        true
    }

    open spec fn from_spec(day: Weekday) -> DayOfTheWeek {
        DayOfTheWeek::only(day)
    }
}

/// A mask with one bit set decodes to that day alone.
pub proof fn lemma_single_day_masks()
    ensures
        DayOfTheWeek::of_mask(1i32) == DayOfTheWeek::only(Weekday::Mon),
        DayOfTheWeek::of_mask(2i32) == DayOfTheWeek::only(Weekday::Tue),
        DayOfTheWeek::of_mask(4i32) == DayOfTheWeek::only(Weekday::Wed),
        DayOfTheWeek::of_mask(8i32) == DayOfTheWeek::only(Weekday::Thu),
        DayOfTheWeek::of_mask(16i32) == DayOfTheWeek::only(Weekday::Fri),
        DayOfTheWeek::of_mask(32i32) == DayOfTheWeek::only(Weekday::Sat),
        DayOfTheWeek::of_mask(64i32) == DayOfTheWeek::only(Weekday::Sun),
{
    assert(1i32 & 1 == 1 && 1i32 & 2 == 0 && 1i32 & 4 == 0 && 1i32 & 8 == 0 && 1i32 & 16 == 0 && 1i32
        & 32 == 0 && 1i32 & 64 == 0) by (bit_vector);
    assert(2i32 & 1 == 0 && 2i32 & 2 == 2 && 2i32 & 4 == 0 && 2i32 & 8 == 0 && 2i32 & 16 == 0 && 2i32
        & 32 == 0 && 2i32 & 64 == 0) by (bit_vector);
    assert(4i32 & 1 == 0 && 4i32 & 2 == 0 && 4i32 & 4 == 4 && 4i32 & 8 == 0 && 4i32 & 16 == 0 && 4i32
        & 32 == 0 && 4i32 & 64 == 0) by (bit_vector);
    assert(8i32 & 1 == 0 && 8i32 & 2 == 0 && 8i32 & 4 == 0 && 8i32 & 8 == 8 && 8i32 & 16 == 0 && 8i32
        & 32 == 0 && 8i32 & 64 == 0) by (bit_vector);
    assert(16i32 & 1 == 0 && 16i32 & 2 == 0 && 16i32 & 4 == 0 && 16i32 & 8 == 0 && 16i32 & 16 == 16
        && 16i32 & 32 == 0 && 16i32 & 64 == 0) by (bit_vector);
    assert(32i32 & 1 == 0 && 32i32 & 2 == 0 && 32i32 & 4 == 0 && 32i32 & 8 == 0 && 32i32 & 16 == 0
        && 32i32 & 32 == 32 && 32i32 & 64 == 0) by (bit_vector);
    assert(64i32 & 1 == 0 && 64i32 & 2 == 0 && 64i32 & 4 == 0 && 64i32 & 8 == 0 && 64i32 & 16 == 0
        && 64i32 & 32 == 0 && 64i32 & 64 == 64) by (bit_vector);
}

/// Decoding a wire value and encoding the days again keeps the seven low
/// bits of the value and drops the rest.
pub proof fn law_decode_then_encode(v: i32)
    ensures
        DayOfTheWeek::of_mask(v).mask() == v & 127,
        0 <= v < 128 ==> DayOfTheWeek::of_mask(v).mask() == v,
{
    assert((v & 1 == 0 || v & 1 == 1) && (v & 2 == 0 || v & 2 == 2) && (v & 4 == 0 || v & 4 == 4) && (
    v & 8 == 0 || v & 8 == 8) && (v & 16 == 0 || v & 16 == 16) && (v & 32 == 0 || v & 32 == 32) && (v
        & 64 == 0 || v & 64 == 64)) by (bit_vector);
    assert((v & 1) + (v & 2) + (v & 4) + (v & 8) + (v & 16) + (v & 32) + (v & 64) == v & 127)
        by (bit_vector);
    assert(0 <= v < 128 ==> v & 127 == v) by (bit_vector);
}

/// Encoding a set of days and decoding the value again gives the same days,
/// and the encoded value lies in `0..=127`.
pub proof fn law_encode_then_decode(days: DayOfTheWeek)
    ensures
        0 <= days.mask() < 128,
        DayOfTheWeek::of_mask(days.mask() as i32) == days,
{
    let back = DayOfTheWeek::of_mask(days.mask() as i32);
    law_decode_then_encode(days.mask() as i32);
    law_mask_is_injective(back, days);
}

/// Two sets of days with the same wire value are the same set.
pub proof fn law_mask_is_injective(a: DayOfTheWeek, b: DayOfTheWeek)
    requires
        a.mask() == b.mask(),
    ensures
        a == b,
{
    // The low bit of the sum decides Monday; what is left, halved, decides
    // Tuesday; and so on up to Sunday.
    let ra = a.mask();
    let rb = b.mask();
    assert(a.monday == (ra % 2 == 1));
    assert(b.monday == (rb % 2 == 1));
    assert(a.tuesday == ((ra / 2) % 2 == 1));
    assert(b.tuesday == ((rb / 2) % 2 == 1));
    assert(a.wednesday == ((ra / 4) % 2 == 1));
    assert(b.wednesday == ((rb / 4) % 2 == 1));
    assert(a.thursday == ((ra / 8) % 2 == 1));
    assert(b.thursday == ((rb / 8) % 2 == 1));
    assert(a.friday == ((ra / 16) % 2 == 1));
    assert(b.friday == ((rb / 16) % 2 == 1));
    assert(a.saturday == ((ra / 32) % 2 == 1));
    assert(b.saturday == ((rb / 32) % 2 == 1));
    assert(a.sunday == ((ra / 64) % 2 == 1));
    assert(b.sunday == ((rb / 64) % 2 == 1));
}

impl DayOfTheWeek {
    /// The letters that `to_string` prints, one for each day that decides a
    /// letter: `M`, `T`, `W`, `R`, `F` for Monday to Friday, and for Saturday
    /// both `S` and `U`. Sunday prints nothing.
    pub open spec fn letters(self) -> Seq<char> {
        (if self.monday {
            seq!['M']
        } else {
            seq![]
        }) + (if self.tuesday {
            seq!['T']
        } else {
            seq![]
        }) + (if self.wednesday {
            seq!['W']
        } else {
            seq![]
        }) + (if self.thursday {
            seq!['R']
        } else {
            seq![]
        }) + (if self.friday {
            seq!['F']
        } else {
            seq![]
        }) + (if self.saturday {
            seq!['S', 'U']
        } else {
            seq![]
        })
    }

    /// The days as single letters.
    pub fn to_string(&self) -> (text: String)
        ensures
            text@ == self.letters(),
    {
        proof {
            reveal_strlit("M");
            reveal_strlit("T");
            reveal_strlit("W");
            reveal_strlit("R");
            reveal_strlit("F");
            reveal_strlit("S");
            reveal_strlit("U");
        }
        let mut s = String::new();
        if self.monday {
            s.append("M");
        }
        if self.tuesday {
            s.append("T");
        }
        if self.wednesday {
            s.append("W");
        }
        if self.thursday {
            s.append("R");
        }
        if self.friday {
            s.append("F");
        }
        if self.saturday {
            s.append("S");
        }
        if self.saturday {
            s.append("U");
        }
        assert(s@ =~= self.letters());
        s
    }
}

impl From<bool> for Direction {
    /// `On` for `true`, `Off` for `false`.
    fn from(on: bool) -> (direction: Direction) {
        match on {
            false => Direction::Off,
            true => Direction::On,
        }
    }
}

impl FromSpecImpl<bool> for Direction {
    open spec fn obeys_from_spec() -> bool {
        true
    }

    open spec fn from_spec(on: bool) -> Direction {
        if on {
            Direction::On
        } else {
            Direction::Off
        }
    }
}

impl From<Direction> for bool {
    /// `true` for `On`, `false` for `Off`.
    fn from(direction: Direction) -> (on: bool) {
        match direction {
            Direction::Off => false,
            Direction::On => true,
        }
    }
}

impl FromSpecImpl<Direction> for bool {
    open spec fn obeys_from_spec() -> bool {
        true
    }

    open spec fn from_spec(direction: Direction) -> bool {
        direction is On
    }
}

} // verus!
