//! The daily refresh of the times of sunrise and sunset: what the weather
//! service reports, and the four special times that follow from it.

use crate::error::Error;
use vstd::prelude::*;
use vstd::string::StringExecFns;

verus! {

/// A time of day as the weather service reports it.
#[derive(Debug, Clone, Copy, PartialEq, Eq, Structural)]
pub struct ApiTime {
    pub hour: i32,
    pub minute: i32,
}

/// The four times of a day that flips can be tied to.
#[derive(Debug, Clone, Copy, PartialEq, Eq, Structural)]
pub struct SpecialTimes {
    pub pre_dawn: ApiTime,
    pub sunrise: ApiTime,
    pub dusk: ApiTime,
    pub sunset: ApiTime,
}

/// Where a refresh can fail.
#[derive(Debug, Clone, Copy, PartialEq, Eq, Structural)]
pub enum Stage {
    /// The weather service could not be reached.
    Request,
    /// Its answer could not be read.
    Deserialize,
    /// The store did not take the new times.
    Update,
}

impl Stage {
    /// The exit code of a refresh that failed at this stage.
    pub open spec fn code(self) -> i32 {
        match self {
            Stage::Request => 1,
            Stage::Deserialize => 2,
            Stage::Update => 3,
        }
    }

    /// The exit code of a refresh that failed at this stage. Before it
    /// exits, a failed refresh announces a change of the stored schedule.
    pub fn exit_code(self) -> (code: i32)
        ensures
            code == self.code(),
    {
        match self {
            Stage::Request => 1,
            Stage::Deserialize => 2,
            Stage::Update => 3,
        }
    }
}

/// The value of a decimal digit, and nothing for any other character.
pub open spec fn digit_value(c: char) -> Option<int> {
    if '0' <= c <= '9' {
        Some(c as int - '0' as int)
    } else {
        None
    }
}

/// The number that a run of decimal digits spells, and nothing for an empty
/// run or one with another character in it.
pub open spec fn digits_value(digits: Seq<char>) -> Option<int>
    decreases digits.len(),
{
    if digits.len() == 0 {
        None
    } else if digits.len() == 1 {
        digit_value(digits[0])
    } else {
        match (digits_value(digits.drop_last()), digit_value(digits.last())) {
            (Some(front), Some(last)) => Some(10 * front + last),
            _ => None,
        }
    }
}

/// The number that a text spells: decimal digits, with a plus or minus sign
/// before them or none.
pub open spec fn number_of(text: Seq<char>) -> Option<int> {
    if text.len() > 0 && text[0] == '-' {
        match digits_value(text.drop_first()) {
            Some(n) => Some(-n),
            None => None,
        }
    } else if text.len() > 0 && text[0] == '+' {
        digits_value(text.drop_first())
    } else {
        digits_value(text)
    }
}

/// Calls `str::parse::<i32>`. The standard library takes an optional sign
/// and then decimal digits, nothing else, and refuses a number that an `i32`
/// cannot hold. A text that is refused gives what the library prints for it.
#[verifier::external_body]
fn parse_i32(text: &str) -> (r: Result<i32, String>)
    ensures
        r is Ok <==> (number_of(text@) matches Some(n) && i32::MIN <= n <= i32::MAX),
        r matches Ok(n) ==> number_of(text@) == Some(n as int),
{
    match text.parse::<i32>() {
        Ok(n) => Ok(n),
        Err(e) => Err(e.to_string()),
    }
}

/// The text spells a number that an `i32` can hold.
pub open spec fn is_i32(text: Seq<char>) -> bool {
    number_of(text) matches Some(n) && i32::MIN <= n <= i32::MAX
}

/// One number of a reported time, read from its text.
fn parse_part(text: &str) -> (r: Result<i32, Error>)
    ensures
        is_i32(text@) ==> (r matches Ok(n) && number_of(text@) == Some(n as int)),
        !is_i32(text@) ==> (r matches Err(e) && is_parse_failure(e)),
{
    match parse_i32(text) {
        Ok(n) => Ok(n),
        Err(why) => {
            let mut message = String::from_str("Failed to parse i32 ");
            proof {
                reveal_strlit("Failed to parse i32 ");
            }
            message.append(why.as_str());
            assert(message@.take(20) =~= "Failed to parse i32 "@);
            Err(Error::Json(message))
        },
    }
}

/// What the texts of an hour and a minute, each of which may be missing,
/// amount to. The hour is looked at first.
pub enum Reading {
    MissingHour,
    BadHour,
    MissingMinute,
    BadMinute,
    Time { hour: int, minute: int },
}

/// Reads the texts of an hour and a minute.
pub open spec fn reading(hour: Option<&str>, minute: Option<&str>) -> Reading {
    match hour {
        None => Reading::MissingHour,
        Some(h) => if !is_i32(h@) {
            Reading::BadHour
        } else {
            match minute {
                None => Reading::MissingMinute,
                Some(m) => if !is_i32(m@) {
                    Reading::BadMinute
                } else {
                    Reading::Time {
                        hour: number_of(h@).unwrap(),
                        minute: number_of(m@).unwrap(),
                    }
                },
            }
        },
    }
}

/// The error is a `Json` error whose text starts with `Failed to parse i32 `.
pub open spec fn is_parse_failure(e: Error) -> bool {
    e is Json && e.text().len() >= 20 && e.text().take(20) == "Failed to parse i32 "@
}

/// A reported time, read from the texts of its hour and its minute, each of
/// which may be missing. A missing text is answered with ``missing field
/// `hour` `` or ``missing field `minute` ``, and one that is no number with
/// `Failed to parse i32` and the reason.
pub fn read_time(hour: Option<&str>, minute: Option<&str>) -> (r: Result<ApiTime, Error>)
    ensures
        match reading(hour, minute) {
            Reading::MissingHour => r matches Err(e) && e is Json && e.text()
                == "missing field `hour`"@,
            Reading::BadHour => r matches Err(e) && is_parse_failure(e),
            Reading::MissingMinute => r matches Err(e) && e is Json && e.text()
                == "missing field `minute`"@,
            Reading::BadMinute => r matches Err(e) && is_parse_failure(e),
            Reading::Time { hour, minute } => r matches Ok(time) && time.hour == hour
                && time.minute == minute,
        },
{
    let hour = match hour {
        Some(text) => text,
        None => {
            return Err(Error::Json(String::from_str("missing field `hour`")));
        },
    };
    let hour: i32 = match parse_part(hour) {
        Ok(n) => n,
        Err(e) => {
            return Err(e);
        },
    };
    let minute = match minute {
        Some(text) => text,
        None => {
            return Err(Error::Json(String::from_str("missing field `minute`")));
        },
    };
    let minute: i32 = match parse_part(minute) {
        Ok(n) => n,
        Err(e) => {
            return Err(e);
        },
    };
    Ok(ApiTime { hour, minute })
}

/// The special times of a day: sunrise and sunset as reported, and pre-dawn
/// and dusk an hour before them at the same minute. The hour before is not
/// brought into the day: an hour of 0 gives -1.
pub fn special_times(sunrise: ApiTime, sunset: ApiTime) -> (times: SpecialTimes)
    requires
        sunrise.hour > i32::MIN,
        sunset.hour > i32::MIN,
    ensures
        times.pre_dawn == (ApiTime { hour: (sunrise.hour - 1) as i32, minute: sunrise.minute }),
        times.sunrise == sunrise,
        times.dusk == (ApiTime { hour: (sunset.hour - 1) as i32, minute: sunset.minute }),
        times.sunset == sunset,
{
    SpecialTimes {
        pre_dawn: ApiTime { hour: sunrise.hour - 1, minute: sunrise.minute },
        sunrise,
        dusk: ApiTime { hour: sunset.hour - 1, minute: sunset.minute },
        sunset,
    }
}

} // verus!
