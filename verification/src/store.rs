//! The store, seen from this side: what is asked of it, and what is made of
//! its answers. Nothing here talks to the store; a request is a value that
//! the caller carries there, and an answer comes back as plain rows.

use crate::clock::now;
use crate::data::{
    DayOfTheWeek, Direction, Flip, FlipKind, ScheduledFlip, Switch, Timestamp, TokenState, Weekday,
};
use crate::error::Error;
use vstd::prelude::*;

verus! {

/// The channel on which a change of the stored schedule is announced.
pub const DATABASE_QUEUE: &'static str = "database";

/// The statement that makes a switch and returns it.
pub const NEW_SWITCH: &'static str = "SELECT id, name, on_code, off_code FROM new_switch($1, $2, $3)";

/// The statement that makes a scheduled flip and returns it.
pub const NEW_FLIP: &'static str =
    "SELECT id, hour, minute, dow, direction, kind FROM new_flip($1, $2, $3, $4, $5, $6)";

/// The statement that makes a token and returns it.
pub const NEW_TOKEN: &'static str = "SELECT * FROM new_token()";

/// The statement that returns the flips of one minute of one weekday.
pub const GET_FLIPS_FOR_MINUTE: &'static str =
    "SELECT hour, minute, code FROM get_flips_for_minute($1, $2, $3)";

/// The statement that returns the flips of one weekday.
pub const GET_FLIPS_FOR_DAY: &'static str = "SELECT hour, minute, code FROM get_flips_for_day($1)";

/// The statement that returns every switch.
pub const GET_ALL_SWITCHES: &'static str = "SELECT id, name, on_code, off_code FROM get_all_switches()";

/// The statement that returns the scheduled flips of one switch.
pub const GET_SWITCH_FLIPS: &'static str =
    "SELECT id, hour, minute, dow, direction, kind FROM get_switch_flips($1)";

/// The statement that returns the time at which a grant was made.
pub const GET_AUTH: &'static str = "SELECT * FROM get_auth($1)";

/// The statement that returns a user's token and the time it was made.
pub const GET_TOKEN: &'static str = "SELECT token, timestamp FROM get_token($1)";

/// The statement that changes a switch and returns it.
pub const UPDATE_SWITCH: &'static str =
    "SELECT id, name, on_code, off_code FROM update_switch($1, $2, $3, $4)";

/// The statement that changes a scheduled flip and returns it.
pub const UPDATE_FLIP: &'static str =
    "SELECT id, hour, minute, dow, direction, kind FROM update_flip($1, $2, $3, $4, $5, $6)";

/// The statement that removes a switch and returns how many it removed.
pub const REMOVE_SWITCH: &'static str = "SELECT * FROM remove_switch($1)";

/// The statement that removes a scheduled flip and returns how many it removed.
pub const REMOVE_FLIP: &'static str = "SELECT * FROM remove_flip($1)";

/// The nanoseconds of one day.
pub const DAY_NANOS: i128 = 86_400_000_000_000;

/// One value handed to the store with a request.
#[derive(Debug, Clone, Copy, PartialEq)]
pub enum Param<'a> {
    Int(i32),
    UInt(u32),
    Text(&'a str),
    Direction(Direction),
    Kind(FlipKind),
    Token(u128),
}

/// A request whose answer is every row that the store returns.
#[derive(Debug, Clone, PartialEq)]
pub struct Query<'a> {
    /// The statement, with `$1`, `$2`, ... for the parameters.
    pub statement: &'static str,
    /// The parameters, in the order of their numbers.
    pub params: Vec<Param<'a>>,
}

/// A request whose answer is one row, the first that the store returns.
#[derive(Debug, Clone, PartialEq)]
pub struct Call<'a> {
    pub query: Query<'a>,
    /// What to report when the store returns no row.
    pub missing: &'static str,
    /// Whether a change is to be announced on `DATABASE_QUEUE` once the store
    /// has answered.
    pub announce: bool,
}

/// A row that describes a switch: id, name, on code, off code.
pub type SwitchRow = (i32, String, i32, i32);

/// A row that describes a scheduled flip: id, hour, minute, the wire value
/// of its weekdays, direction, kind.
pub type ScheduledFlipRow = (i32, i32, i32, i32, Direction, FlipKind);

/// A row that describes a flip: hour, minute, code.
pub type FlipRow = (i32, i32, i32);

impl<'a> Query<'a> {
    /// The request is `statement` with exactly `params`.
    pub open spec fn asks(self, statement: &str, params: Seq<Param<'a>>) -> bool {
        self.statement@ == statement@ && self.params@ =~= params
    }
}

impl<'a> Call<'a> {
    /// The request is `statement` with exactly `params`, reports `missing`
    /// when no row comes back, and announces a change or not.
    pub open spec fn asks(
        self,
        statement: &str,
        params: Seq<Param<'a>>,
        missing: &str,
        announce: bool,
    ) -> bool {
        self.query.asks(statement, params) && self.missing@ == missing@ && self.announce
            == announce
    }

    /// The answer to the request: the first of `rows`, or the failure that
    /// the request names for an empty answer.
    pub fn first<T>(&self, rows: Vec<T>) -> (answer: Result<T, Error>)
        ensures
            rows@.len() > 0 ==> answer == Ok::<T, Error>(rows@[0]),
            rows@.len() == 0 ==> (answer matches Err(e) && e is Other && e.text() == self.missing@),
    {
        let mut rows = rows;
        if rows.len() == 0 {
            Err(Error::new(self.missing))
        } else {
            Ok(rows.remove(0))
        }
    }
}

/// The wire value of a set of weekdays, as the store takes it.
pub fn dow_param<'a>(dow: DayOfTheWeek) -> (param: Param<'a>)
    ensures
        param == Param::<'a>::Int(dow.mask() as i32),
{
    Param::Int(i32::from(dow))
}

/// Asks for a new switch.
pub fn new_switch<'a>(name: &'a str, on_code: i32, off_code: i32) -> (call: Call<'a>)
    ensures
        call.asks(
            NEW_SWITCH,
            seq![Param::Text(name), Param::Int(on_code), Param::Int(off_code)],
            "nothing returned from new_switch",
            false,
        ),
{
    let mut params: Vec<Param<'a>> = Vec::new();
    params.push(Param::Text(name));
    params.push(Param::Int(on_code));
    params.push(Param::Int(off_code));
    Call {
        query: Query { statement: NEW_SWITCH, params },
        missing: "nothing returned from new_switch",
        announce: false,
    }
}

/// Asks for a new scheduled flip of the switch `sw_id`.
pub fn new_scheduled_flip<'a>(
    sw_id: i32,
    hour: i32,
    minute: i32,
    dow: DayOfTheWeek,
    direction: Direction,
    kind: FlipKind,
) -> (call: Call<'a>)
    ensures
        call.asks(
            NEW_FLIP,
            seq![
                Param::Int(sw_id),
                Param::Int(hour),
                Param::Int(minute),
                Param::Int(dow.mask() as i32),
                Param::Direction(direction),
                Param::Kind(kind),
            ],
            "nothing returned from new_flip",
            false,
        ),
{
    let mut params: Vec<Param<'a>> = Vec::new();
    params.push(Param::Int(sw_id));
    params.push(Param::Int(hour));
    params.push(Param::Int(minute));
    params.push(dow_param(dow));
    params.push(Param::Direction(direction));
    params.push(Param::Kind(kind));
    Call {
        query: Query { statement: NEW_FLIP, params },
        missing: "nothing returned from new_flip",
        announce: false,
    }
}

/// Asks for a new token.
pub fn new_token<'a>() -> (call: Call<'a>)
    ensures
        call.asks(NEW_TOKEN, seq![], "Unable to create token", false),
{
    Call {
        query: Query { statement: NEW_TOKEN, params: Vec::new() },
        missing: "Unable to create token",
        announce: false,
    }
}

/// `query` asks for the flips of `day` that are scheduled at `hour:minute`.
pub open spec fn asks_flips_for_minute(query: Query, hour: u32, minute: u32, day: Weekday) -> bool {
    query.asks(
        GET_FLIPS_FOR_MINUTE,
        seq![
            Param::UInt(hour),
            Param::UInt(minute),
            Param::Int(DayOfTheWeek::only(day).mask() as i32),
        ],
    )
}

/// `query` asks for the flips that recur on `day`.
pub open spec fn asks_flips_for_day(query: Query, day: Weekday) -> bool {
    query.asks(GET_FLIPS_FOR_DAY, seq![Param::Int(DayOfTheWeek::only(day).mask() as i32)])
}

/// Asks for the flips of `day` that are scheduled at `hour:minute`.
pub fn flips_for_minute<'a>(hour: u32, minute: u32, day: Weekday) -> (query: Query<'a>)
    ensures
        asks_flips_for_minute(query, hour, minute, day),
{
    let mut params: Vec<Param<'a>> = Vec::new();
    params.push(Param::UInt(hour));
    params.push(Param::UInt(minute));
    params.push(dow_param(DayOfTheWeek::from(day)));
    Query { statement: GET_FLIPS_FOR_MINUTE, params }
}

/// Asks for the flips of the minute that the wall clock shows. Whatever it
/// shows, the request is the one for that weekday, hour and minute.
pub fn get_flips_this_minute<'a>() -> (query: Query<'a>)
    ensures
        exists|hour: u32, minute: u32, day: Weekday|
            hour < 24 && minute < 60 && #[trigger] asks_flips_for_minute(query, hour, minute, day),
{
    let clock = now();
    let query = flips_for_minute(clock.hour, clock.minute, clock.weekday);
    assert(asks_flips_for_minute(query, clock.hour, clock.minute, clock.weekday));
    query
}

/// Asks for the flips that recur on `day`.
pub fn flips_for_day<'a>(day: Weekday) -> (query: Query<'a>)
    ensures
        asks_flips_for_day(query, day),
{
    let mut params: Vec<Param<'a>> = Vec::new();
    params.push(dow_param(DayOfTheWeek::from(day)));
    Query { statement: GET_FLIPS_FOR_DAY, params }
}

/// Asks for the flips of the day that the wall clock shows. Whatever it
/// shows, the request is the one for that weekday alone.
pub fn get_flips_for_today<'a>() -> (query: Query<'a>)
    ensures
        exists|day: Weekday| #[trigger] asks_flips_for_day(query, day),
{
    let clock = now();
    let query = flips_for_day(clock.weekday);
    assert(asks_flips_for_day(query, clock.weekday));
    query
}

/// Asks for every switch.
pub fn get_all_switches<'a>() -> (query: Query<'a>)
    ensures
        query.asks(GET_ALL_SWITCHES, seq![]),
{
    Query { statement: GET_ALL_SWITCHES, params: Vec::new() }
}

/// Asks for the scheduled flips of one switch.
pub fn get_flips_for_switch<'a>(switch_id: i32) -> (query: Query<'a>)
    ensures
        query.asks(GET_SWITCH_FLIPS, seq![Param::Int(switch_id)]),
{
    let mut params: Vec<Param<'a>> = Vec::new();
    params.push(Param::Int(switch_id));
    Query { statement: GET_SWITCH_FLIPS, params }
}

/// Asks when the grant with the code `token` was made.
pub fn check_auth<'a>(token: u128) -> (query: Query<'a>)
    ensures
        query.asks(GET_AUTH, seq![Param::Token(token)]),
{
    let mut params: Vec<Param<'a>> = Vec::new();
    params.push(Param::Token(token));
    Query { statement: GET_AUTH, params }
}

/// Asks for the token of the user `name` and the time it was made.
pub fn check_token<'a>(name: &'a str) -> (query: Query<'a>)
    ensures
        query.asks(GET_TOKEN, seq![Param::Text(name)]),
{
    let mut params: Vec<Param<'a>> = Vec::new();
    params.push(Param::Text(name));
    Query { statement: GET_TOKEN, params }
}

impl Timestamp {
    /// The nanoseconds from the start of 1970 to this point in time.
    pub open spec fn nanos_since_epoch(self) -> int {
        self.seconds * 1_000_000_000 + self.nanos
    }
}

/// From `now` to `stamp` it is less than `days` days. A `stamp` that lies
/// before `now` is within any number of days that is not negative.
pub open spec fn within_days(stamp: Timestamp, now: Timestamp, days: int) -> bool {
    stamp.nanos_since_epoch() - now.nanos_since_epoch() < days * DAY_NANOS
}

/// Whether from `now` to `stamp` it is less than `days` days.
pub fn is_within_days(stamp: Timestamp, now: Timestamp, days: u8) -> (within: bool)
    ensures
        within == within_days(stamp, now, days as int),
{
    let stamp_nanos: i128 = stamp.seconds as i128 * 1_000_000_000 + stamp.nanos as i128;
    let now_nanos: i128 = now.seconds as i128 * 1_000_000_000 + now.nanos as i128;
    stamp_nanos - now_nanos < days as i128 * DAY_NANOS
}

/// What the answer to `check_auth` means at `now`: a grant is good while
/// less than a day lies between `now` and the time it was made, and no grant
/// is no good.
pub open spec fn auth_holds(found: Option<Timestamp>, now: Timestamp) -> bool {
    match found {
        Some(created) => within_days(created, now, 1),
        None => false,
    }
}

/// Judges the answer to `check_auth` at `now`.
pub fn auth_is_fresh_at(found: Option<Timestamp>, now: Timestamp) -> (fresh: bool)
    ensures
        fresh == auth_holds(found, now),
{
    match found {
        Some(created) => is_within_days(created, now, 1),
        None => false,
    }
}

/// Judges the answer to `check_auth` by the wall clock. With no grant found
/// the answer is `false` whatever the clock shows.
pub fn auth_is_fresh(found: Option<Timestamp>) -> (fresh: bool)
    ensures
        exists|at: Timestamp| fresh == #[trigger] auth_holds(found, at),
        found is None ==> !fresh,
{
    let clock = now();
    let fresh = auth_is_fresh_at(found, clock.at);
    assert(fresh == auth_holds(found, clock.at));
    fresh
}

/// What the answer to `check_token` means for `token` at `now`: invalid with
/// no stored token or another one, valid while less than seven days lie
/// between `now` and the time the stored token was made, expired after that.
pub open spec fn state_of_token(token: u128, found: Option<(u128, Timestamp)>, now: Timestamp) -> TokenState {
    match found {
        Some((stored, created)) => if token == stored {
            if within_days(created, now, 7) {
                TokenState::Valid
            } else {
                TokenState::Expired
            }
        } else {
            TokenState::Invalid
        },
        None => TokenState::Invalid,
    }
}

/// Judges the answer to `check_token` for `token` at `now`.
pub fn token_state_at(token: u128, found: Option<(u128, Timestamp)>, now: Timestamp) -> (state:
    TokenState)
    ensures
        state == state_of_token(token, found, now),
{
    match found {
        Some((stored, created)) => {
            if token == stored {
                if is_within_days(created, now, 7) {
                    TokenState::Valid
                } else {
                    TokenState::Expired
                }
            } else {
                TokenState::Invalid
            }
        },
        None => TokenState::Invalid,
    }
}

/// Judges the answer to `check_token` for `token` by the wall clock. With no
/// stored token, or another one, the state is `Invalid` whatever the clock
/// shows.
pub fn token_state(token: u128, found: Option<(u128, Timestamp)>) -> (state: TokenState)
    ensures
        exists|at: Timestamp| state == #[trigger] state_of_token(token, found, at),
        (found matches Some((stored, _)) && stored == token) || state is Invalid,
{
    let clock = now();
    let state = token_state_at(token, found, clock.at);
    assert(state == state_of_token(token, found, clock.at));
    state
}

/// Asks to change the switch `id`, and announces the change.
pub fn update_switch<'a>(id: i32, name: &'a str, on_code: i32, off_code: i32) -> (call: Call<'a>)
    ensures
        call.asks(
            UPDATE_SWITCH,
            seq![Param::Int(id), Param::Text(name), Param::Int(on_code), Param::Int(off_code)],
            "Nothing returned from switch update",
            true,
        ),
{
    let mut params: Vec<Param<'a>> = Vec::new();
    params.push(Param::Int(id));
    params.push(Param::Text(name));
    params.push(Param::Int(on_code));
    params.push(Param::Int(off_code));
    Call {
        query: Query { statement: UPDATE_SWITCH, params },
        missing: "Nothing returned from switch update",
        announce: true,
    }
}

/// Asks to change the scheduled flip `id`, and announces the change.
pub fn update_flip<'a>(
    id: i32,
    hour: i32,
    minute: i32,
    dow: DayOfTheWeek,
    direction: Direction,
    kind: FlipKind,
) -> (call: Call<'a>)
    ensures
        call.asks(
            UPDATE_FLIP,
            seq![
                Param::Int(id),
                Param::Int(hour),
                Param::Int(minute),
                Param::Int(dow.mask() as i32),
                Param::Direction(direction),
                Param::Kind(kind),
            ],
            "Nothing returned from flip update",
            true,
        ),
{
    let mut params: Vec<Param<'a>> = Vec::new();
    params.push(Param::Int(id));
    params.push(Param::Int(hour));
    params.push(Param::Int(minute));
    params.push(dow_param(dow));
    params.push(Param::Direction(direction));
    params.push(Param::Kind(kind));
    Call {
        query: Query { statement: UPDATE_FLIP, params },
        missing: "Nothing returned from flip update",
        announce: true,
    }
}

/// Asks to remove the switch `id`, and announces the change. The answer is
/// the number of switches removed.
pub fn remove_switch<'a>(id: i32) -> (call: Call<'a>)
    ensures
        call.asks(REMOVE_SWITCH, seq![Param::Int(id)], "Unable to get remove count", true),
{
    let mut params: Vec<Param<'a>> = Vec::new();
    params.push(Param::Int(id));
    Call {
        query: Query { statement: REMOVE_SWITCH, params },
        missing: "Unable to get remove count",
        announce: true,
    }
}

/// Asks to remove the scheduled flip `id`, and announces the change. The
/// answer is the number of flips removed.
pub fn remove_flip<'a>(id: i32) -> (call: Call<'a>)
    ensures
        call.asks(REMOVE_FLIP, seq![Param::Int(id)], "Unable to get remove count", true),
{
    let mut params: Vec<Param<'a>> = Vec::new();
    params.push(Param::Int(id));
    Call {
        query: Query { statement: REMOVE_FLIP, params },
        missing: "Unable to get remove count",
        announce: true,
    }
}

/// The switch that a row describes.
pub fn map_switch(row: SwitchRow) -> (switch: Switch)
    ensures
        switch == (Switch { id: row.0, name: row.1, on_code: row.2, off_code: row.3 }),
{
    Switch { id: row.0, name: row.1, on_code: row.2, off_code: row.3 }
}

/// The scheduled flip that a row describes, its weekdays decoded.
pub fn map_scheduled_flip(row: ScheduledFlipRow) -> (flip: ScheduledFlip)
    ensures
        flip == (ScheduledFlip {
            id: row.0,
            hour: row.1,
            minute: row.2,
            dow: DayOfTheWeek::of_mask(row.3),
            direction: row.4,
            kind: row.5,
        }),
{
    ScheduledFlip {
        id: row.0,
        hour: row.1,
        minute: row.2,
        dow: DayOfTheWeek::from(row.3),
        direction: row.4,
        kind: row.5,
    }
}

/// The flip that a row describes.
pub fn map_flip(row: FlipRow) -> (flip: Flip)
    ensures
        flip == (Flip { hour: row.0, minute: row.1, code: row.2 }),
{
    Flip { hour: row.0, minute: row.1, code: row.2 }
}

} // verus!
