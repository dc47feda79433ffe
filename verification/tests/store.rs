use robohome::data::{
    DayOfTheWeek, Direction, Flip, FlipKind, ScheduledFlip, Switch, Timestamp, TokenState, Weekday,
};
use robohome::error::Error;
use robohome::store::{
    auth_is_fresh, auth_is_fresh_at, check_auth, check_token, dow_param, flips_for_day,
    flips_for_minute, get_all_switches, get_flips_for_switch, get_flips_for_today,
    get_flips_this_minute, is_within_days, map_flip, map_scheduled_flip, map_switch, new_scheduled_flip,
    new_switch, new_token, remove_flip, remove_switch, token_state, token_state_at, update_flip,
    update_switch, Call, Param, ScheduledFlipRow, SwitchRow, DATABASE_QUEUE, DAY_NANOS,
    GET_ALL_SWITCHES, GET_AUTH, GET_FLIPS_FOR_DAY, GET_FLIPS_FOR_MINUTE, GET_SWITCH_FLIPS, GET_TOKEN,
    NEW_FLIP, NEW_SWITCH, NEW_TOKEN, REMOVE_FLIP, REMOVE_SWITCH, UPDATE_FLIP, UPDATE_SWITCH,
};

/// Plays the store for the requests of one test: it hands out ids, keeps
/// what was written and answers as the stored procedures do.
struct Store {
    switches: Vec<SwitchRow>,
    flips: Vec<ScheduledFlipRow>,
    next_id: i32,
}

fn as_int(param: &Param) -> i32 {
    match param {
        Param::Int(v) => *v,
        other => panic!("not an integer: {:?}", other),
    }
}

fn as_text(param: &Param) -> String {
    match param {
        Param::Text(v) => v.to_string(),
        other => panic!("not a text: {:?}", other),
    }
}

fn as_direction(param: &Param) -> Direction {
    match param {
        Param::Direction(v) => *v,
        other => panic!("not a direction: {:?}", other),
    }
}

fn as_kind(param: &Param) -> FlipKind {
    match param {
        Param::Kind(v) => *v,
        other => panic!("not a kind: {:?}", other),
    }
}

impl Store {
    fn new() -> Store {
        Store { switches: Vec::new(), flips: Vec::new(), next_id: 1 }
    }

    fn switch_rows(&mut self, call: &Call) -> Vec<SwitchRow> {
        let p = &call.query.params;
        if call.query.statement == NEW_SWITCH {
            let row = (self.next_id, as_text(&p[0]), as_int(&p[1]), as_int(&p[2]));
            self.next_id += 1;
            self.switches.push(row.clone());
            vec![row]
        } else if call.query.statement == UPDATE_SWITCH {
            let row = (as_int(&p[0]), as_text(&p[1]), as_int(&p[2]), as_int(&p[3]));
            match self.switches.iter_mut().find(|s| s.0 == row.0) {
                Some(stored) => {
                    *stored = row.clone();
                    vec![row]
                }
                None => vec![],
            }
        } else {
            panic!("not a request for a switch: {}", call.query.statement)
        }
    }

    fn flip_rows(&mut self, call: &Call) -> Vec<ScheduledFlipRow> {
        let p = &call.query.params;
        if call.query.statement == NEW_FLIP {
            let row =
                (self.next_id, as_int(&p[1]), as_int(&p[2]), as_int(&p[3]), as_direction(&p[4]), as_kind(&p[5]));
            self.next_id += 1;
            self.flips.push(row);
            vec![row]
        } else if call.query.statement == UPDATE_FLIP {
            let row = (as_int(&p[0]), as_int(&p[1]), as_int(&p[2]), as_int(&p[3]), as_direction(&p[4]), as_kind(&p[5]));
            match self.flips.iter_mut().find(|f| f.0 == row.0) {
                Some(stored) => {
                    *stored = row;
                    vec![row]
                }
                None => vec![],
            }
        } else {
            panic!("not a request for a flip: {}", call.query.statement)
        }
    }

    fn count_rows(&mut self, call: &Call) -> Vec<i32> {
        let id = as_int(&call.query.params[0]);
        if call.query.statement == REMOVE_FLIP {
            let before = self.flips.len();
            self.flips.retain(|f| f.0 != id);
            vec![(before - self.flips.len()) as i32]
        } else if call.query.statement == REMOVE_SWITCH {
            let before = self.switches.len();
            self.switches.retain(|s| s.0 != id);
            vec![(before - self.switches.len()) as i32]
        } else {
            panic!("not a removal: {}", call.query.statement)
        }
    }

    fn new_switch(&mut self, name: &str, on_code: i32, off_code: i32) -> Result<Switch, Error> {
        let call = new_switch(name, on_code, off_code);
        let rows = self.switch_rows(&call);
        call.first(rows).map(map_switch)
    }

    fn update_switch(
        &mut self,
        id: i32,
        name: &str,
        on_code: i32,
        off_code: i32,
    ) -> Result<Switch, Error> {
        let call = update_switch(id, name, on_code, off_code);
        let rows = self.switch_rows(&call);
        call.first(rows).map(map_switch)
    }

    fn new_scheduled_flip(
        &mut self,
        sw_id: i32,
        hour: i32,
        minute: i32,
        dow: DayOfTheWeek,
        direction: Direction,
        kind: FlipKind,
    ) -> Result<ScheduledFlip, Error> {
        let call = new_scheduled_flip(sw_id, hour, minute, dow, direction, kind);
        let rows = self.flip_rows(&call);
        call.first(rows).map(map_scheduled_flip)
    }

    fn update_flip(
        &mut self,
        id: i32,
        hour: i32,
        minute: i32,
        dow: DayOfTheWeek,
        direction: Direction,
        kind: FlipKind,
    ) -> Result<ScheduledFlip, Error> {
        let call = update_flip(id, hour, minute, dow, direction, kind);
        let rows = self.flip_rows(&call);
        call.first(rows).map(map_scheduled_flip)
    }

    fn remove_flip(&mut self, id: i32) -> Result<i32, Error> {
        let call = remove_flip(id);
        let rows = self.count_rows(&call);
        call.first(rows)
    }

    fn remove_switch(&mut self, id: i32) -> Result<i32, Error> {
        let call = remove_switch(id);
        let rows = self.count_rows(&call);
        call.first(rows)
    }
}

#[test]
fn db_round_trip() {
    let mut db = Store::new();
    println!("Creating test switch");
    let sw1 = db.new_switch("test switch", 44444, 55555).expect("failed to insert new switch");
    println!("Updating test switch");
    let sw2 = db
        .update_switch(sw1.id, "updated test switch", sw1.on_code, 99999)
        .expect("failed to update switch");
    println!("Checking switches don't match");
    assert!(sw1 != sw2);
    assert!(sw1.id == sw2.id);
    println!("Creating new flip");
    let fl1 = db
        .new_scheduled_flip(sw2.id, 10, 0, 64.into(), Direction::On, FlipKind::Custom)
        .expect("failed to insert new flip");
    println!("Updating flip");
    let fl2 = db
        .update_flip(fl1.id, fl1.hour, 30, 128.into(), Direction::Off, FlipKind::PreDawn)
        .expect("failed to update flip");
    println!("Checking flips don't match");
    assert!(fl1 != fl2);
    assert!(fl1.id == fl2.id);
    println!("Removing flip");
    db.remove_flip(fl1.id).expect("failed to remove flip");
    println!("Removing switch");
    db.remove_switch(sw1.id).expect("failed to remove switch");
}

#[test]
fn new_switch_asks_with_name_and_codes() {
    let call = new_switch("porch", 101, 102);
    assert_eq!(call.query.statement, "SELECT id, name, on_code, off_code FROM new_switch($1, $2, $3)");
    assert_eq!(call.query.statement, NEW_SWITCH);
    assert_eq!(call.query.params, vec![Param::Text("porch"), Param::Int(101), Param::Int(102)]);
    assert_eq!(call.missing, "nothing returned from new_switch");
    assert!(!call.announce);
}

#[test]
fn new_scheduled_flip_sends_the_days_as_their_mask() {
    let dow = DayOfTheWeek::from(1 + 4 + 64);
    let call = new_scheduled_flip(3, 7, 30, dow, Direction::On, FlipKind::Sunrise);
    assert_eq!(
        call.query.statement,
        "SELECT id, hour, minute, dow, direction, kind FROM new_flip($1, $2, $3, $4, $5, $6)"
    );
    assert_eq!(call.query.statement, NEW_FLIP);
    assert_eq!(
        call.query.params,
        vec![
            Param::Int(3),
            Param::Int(7),
            Param::Int(30),
            Param::Int(69),
            Param::Direction(Direction::On),
            Param::Kind(FlipKind::Sunrise),
        ]
    );
    assert_eq!(call.missing, "nothing returned from new_flip");
    assert!(!call.announce);
}

#[test]
fn new_token_asks_with_nothing() {
    let call = new_token();
    assert_eq!(call.query.statement, "SELECT * FROM new_token()");
    assert_eq!(call.query.statement, NEW_TOKEN);
    assert_eq!(call.query.params, vec![]);
    assert_eq!(call.missing, "Unable to create token");
    assert!(!call.announce);
    assert_eq!(call.first(vec![7u128, 8u128]), Ok(7u128));
    assert_eq!(call.first(Vec::<u128>::new()), Err(Error::Other("Unable to create token".to_string())));
}

#[test]
fn flips_for_a_day_are_asked_by_its_bit() {
    let expected =
        [(Weekday::Mon, 1), (Weekday::Tue, 2), (Weekday::Wed, 4), (Weekday::Thu, 8), (Weekday::Fri, 16), (Weekday::Sat, 32), (Weekday::Sun, 64)];
    for (day, bit) in expected {
        let query = flips_for_day(day);
        assert_eq!(query.statement, "SELECT hour, minute, code FROM get_flips_for_day($1)");
        assert_eq!(query.statement, GET_FLIPS_FOR_DAY);
        assert_eq!(query.params, vec![Param::Int(bit)]);
    }
}

#[test]
fn flips_for_today_are_asked_by_one_bit() {
    let query = get_flips_for_today();
    assert_eq!(query.statement, GET_FLIPS_FOR_DAY);
    assert_eq!(query.params.len(), 1);
    match query.params[0] {
        Param::Int(bit) => assert!([1, 2, 4, 8, 16, 32, 64].contains(&bit)),
        other => panic!("not an integer: {:?}", other),
    }
}

#[test]
fn flips_for_a_minute_are_asked_by_hour_minute_and_day() {
    let query = flips_for_minute(7, 5, Weekday::Wed);
    assert_eq!(query.statement, "SELECT hour, minute, code FROM get_flips_for_minute($1, $2, $3)");
    assert_eq!(query.statement, GET_FLIPS_FOR_MINUTE);
    assert_eq!(query.params, vec![Param::UInt(7), Param::UInt(5), Param::Int(4)]);
}

#[test]
fn flips_for_this_minute_are_asked_by_the_clock() {
    let query = get_flips_this_minute();
    assert_eq!(query.statement, GET_FLIPS_FOR_MINUTE);
    assert_eq!(query.params.len(), 3);
    match (query.params[0], query.params[1], query.params[2]) {
        (Param::UInt(hour), Param::UInt(minute), Param::Int(bit)) => {
            assert!(hour < 24);
            assert!(minute < 60);
            assert!([1, 2, 4, 8, 16, 32, 64].contains(&bit));
        }
        other => panic!("unexpected parameters: {:?}", other),
    }
}

#[test]
fn reads_ask_with_their_key() {
    let query = get_all_switches();
    assert_eq!(query.statement, "SELECT id, name, on_code, off_code FROM get_all_switches()");
    assert_eq!(query.statement, GET_ALL_SWITCHES);
    assert_eq!(query.params, vec![]);

    let query = get_flips_for_switch(12);
    assert_eq!(
        query.statement,
        "SELECT id, hour, minute, dow, direction, kind FROM get_switch_flips($1)"
    );
    assert_eq!(query.statement, GET_SWITCH_FLIPS);
    assert_eq!(query.params, vec![Param::Int(12)]);

    let query = check_auth(0x1234_5678_9abc_def0_1122_3344_5566_7788);
    assert_eq!(query.statement, "SELECT * FROM get_auth($1)");
    assert_eq!(query.statement, GET_AUTH);
    assert_eq!(query.params, vec![Param::Token(0x1234_5678_9abc_def0_1122_3344_5566_7788)]);

    let query = check_token("alice");
    assert_eq!(query.statement, "SELECT token, timestamp FROM get_token($1)");
    assert_eq!(query.statement, GET_TOKEN);
    assert_eq!(query.params, vec![Param::Text("alice")]);
}

#[test]
fn updates_and_removals_announce_the_change() {
    let call = update_switch(4, "hall", 1, 2);
    assert_eq!(
        call.query.statement,
        "SELECT id, name, on_code, off_code FROM update_switch($1, $2, $3, $4)"
    );
    assert_eq!(call.query.statement, UPDATE_SWITCH);
    assert_eq!(
        call.query.params,
        vec![Param::Int(4), Param::Text("hall"), Param::Int(1), Param::Int(2)]
    );
    assert_eq!(call.missing, "Nothing returned from switch update");
    assert!(call.announce);

    let call = update_flip(9, 22, 15, DayOfTheWeek::from(127), Direction::Off, FlipKind::Dusk);
    assert_eq!(
        call.query.statement,
        "SELECT id, hour, minute, dow, direction, kind FROM update_flip($1, $2, $3, $4, $5, $6)"
    );
    assert_eq!(call.query.statement, UPDATE_FLIP);
    assert_eq!(
        call.query.params,
        vec![
            Param::Int(9),
            Param::Int(22),
            Param::Int(15),
            Param::Int(127),
            Param::Direction(Direction::Off),
            Param::Kind(FlipKind::Dusk),
        ]
    );
    assert_eq!(call.missing, "Nothing returned from flip update");
    assert!(call.announce);

    let call = remove_switch(4);
    assert_eq!(call.query.statement, "SELECT * FROM remove_switch($1)");
    assert_eq!(call.query.statement, REMOVE_SWITCH);
    assert_eq!(call.query.params, vec![Param::Int(4)]);
    assert_eq!(call.missing, "Unable to get remove count");
    assert!(call.announce);

    let call = remove_flip(9);
    assert_eq!(call.query.statement, "SELECT * FROM remove_flip($1)");
    assert_eq!(call.query.statement, REMOVE_FLIP);
    assert_eq!(call.query.params, vec![Param::Int(9)]);
    assert_eq!(call.missing, "Unable to get remove count");
    assert!(call.announce);

    assert_eq!(DATABASE_QUEUE, "database");
}

#[test]
fn the_answer_is_the_first_row() {
    let call = remove_flip(1);
    assert_eq!(call.first(vec![3, 2, 1]), Ok(3));
    assert_eq!(call.first(vec![0]), Ok(0));
}

#[test]
fn no_row_is_the_error_of_the_request() {
    let none: Vec<SwitchRow> = Vec::new();
    assert_eq!(
        new_switch("x", 1, 2).first(none.clone()),
        Err(Error::Other("nothing returned from new_switch".to_string()))
    );
    assert_eq!(
        update_switch(1, "x", 1, 2).first(none),
        Err(Error::Other("Nothing returned from switch update".to_string()))
    );
    let dow = DayOfTheWeek::from(0);
    let none: Vec<ScheduledFlipRow> = Vec::new();
    assert_eq!(
        new_scheduled_flip(1, 1, 1, dow, Direction::On, FlipKind::Custom).first(none.clone()),
        Err(Error::Other("nothing returned from new_flip".to_string()))
    );
    assert_eq!(
        update_flip(1, 1, 1, dow, Direction::On, FlipKind::Custom).first(none),
        Err(Error::Other("Nothing returned from flip update".to_string()))
    );
    assert_eq!(
        remove_switch(1).first(Vec::<i32>::new()),
        Err(Error::Other("Unable to get remove count".to_string()))
    );
    assert_eq!(
        remove_flip(1).first(Vec::<i32>::new()),
        Err(Error::Other("Unable to get remove count".to_string()))
    );
}

#[test]
fn the_days_go_out_as_an_integer() {
    assert_eq!(dow_param(DayOfTheWeek::from(0)), Param::Int(0));
    assert_eq!(dow_param(DayOfTheWeek::from(85)), Param::Int(85));
    assert_eq!(dow_param(DayOfTheWeek::from(128 + 3)), Param::Int(3));
}

#[test]
fn rows_become_values() {
    assert_eq!(
        map_switch((5, "lamp".to_string(), 11, 12)),
        Switch { id: 5, name: "lamp".to_string(), on_code: 11, off_code: 12 }
    );
    assert_eq!(map_flip((7, 0, 101)), Flip { hour: 7, minute: 0, code: 101 });
    assert_eq!(
        map_scheduled_flip((8, 6, 45, 96, Direction::Off, FlipKind::Sunset)),
        ScheduledFlip {
            id: 8,
            hour: 6,
            minute: 45,
            dow: DayOfTheWeek {
                monday: false,
                tuesday: false,
                wednesday: false,
                thursday: false,
                friday: false,
                saturday: true,
                sunday: true,
            },
            direction: Direction::Off,
            kind: FlipKind::Sunset,
        }
    );
}

fn at(seconds: i64, nanos: u32) -> Timestamp {
    Timestamp { seconds, nanos }
}

#[test]
fn within_days_is_strict_and_exact() {
    let now = at(1_000_000, 500);
    assert_eq!(DAY_NANOS, 86_400_000_000_000);
    assert!(is_within_days(at(1_000_000, 500), now, 1));
    assert!(is_within_days(at(1_000_000 + 86_399, 999_999_999), now, 1));
    assert!(is_within_days(at(1_000_000 + 86_400, 499), now, 1));
    assert!(!is_within_days(at(1_000_000 + 86_400, 500), now, 1));
    assert!(!is_within_days(at(1_000_000 + 86_400, 501), now, 1));
    assert!(is_within_days(at(1_000_000 + 86_400, 500), now, 7));
    assert!(!is_within_days(at(1_000_000 + 7 * 86_400, 500), now, 7));
    assert!(is_within_days(at(0, 0), now, 1));
    assert!(!is_within_days(at(1_000_000, 500), now, 0));
    assert!(is_within_days(at(1_000_000, 499), now, 0));
    assert!(is_within_days(at(i64::MIN, 0), at(i64::MAX, u32::MAX), 255));
    assert!(!is_within_days(at(i64::MAX, u32::MAX), at(i64::MIN, 0), 255));
}

#[test]
fn a_grant_holds_for_less_than_a_day_ahead() {
    let now = at(2_000_000, 0);
    assert!(!auth_is_fresh_at(None, now));
    assert!(auth_is_fresh_at(Some(at(2_000_000, 0)), now));
    assert!(auth_is_fresh_at(Some(at(1_000_000, 0)), now));
    assert!(auth_is_fresh_at(Some(at(2_000_000 + 86_399, 0)), now));
    assert!(!auth_is_fresh_at(Some(at(2_000_000 + 86_400, 0)), now));
}

#[test]
fn a_grant_by_the_wall_clock() {
    assert!(!auth_is_fresh(None));
    assert!(auth_is_fresh(Some(at(0, 0))));
    assert!(!auth_is_fresh(Some(at(i64::MAX, 0))));
}

#[test]
fn a_token_is_valid_expired_or_invalid() {
    let now = at(5_000_000, 0);
    assert_eq!(token_state_at(7, None, now), TokenState::Invalid);
    assert_eq!(token_state_at(7, Some((8, at(5_000_000, 0))), now), TokenState::Invalid);
    assert_eq!(token_state_at(7, Some((7, at(5_000_000, 0))), now), TokenState::Valid);
    assert_eq!(token_state_at(7, Some((7, at(0, 0))), now), TokenState::Valid);
    assert_eq!(
        token_state_at(7, Some((7, at(5_000_000 + 7 * 86_400 - 1, 999_999_999))), now),
        TokenState::Valid
    );
    assert_eq!(
        token_state_at(7, Some((7, at(5_000_000 + 7 * 86_400, 0))), now),
        TokenState::Expired
    );
    assert_eq!(
        token_state_at(7, Some((8, at(5_000_000 + 7 * 86_400, 0))), now),
        TokenState::Invalid
    );
}

#[test]
fn a_token_by_the_wall_clock() {
    assert_eq!(token_state(7, None), TokenState::Invalid);
    assert_eq!(token_state(7, Some((8, at(0, 0)))), TokenState::Invalid);
    assert_eq!(token_state(7, Some((7, at(0, 0)))), TokenState::Valid);
    assert_eq!(token_state(7, Some((7, at(i64::MAX, 0)))), TokenState::Expired);
}
