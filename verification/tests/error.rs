use robohome::error::Error;

#[test]
fn new_makes_an_other() {
    assert_eq!(Error::new("boom"), Error::Other("boom".to_string()));
    assert_eq!(Error::new(""), Error::Other(String::new()));
}

#[test]
fn every_variant_prints_its_text() {
    assert_eq!(Error::Bin("a".to_string()).to_string(), "a");
    assert_eq!(Error::Json("b".to_string()).to_string(), "b");
    assert_eq!(Error::Mq("c".to_string()).to_string(), "c");
    assert_eq!(Error::Other("d".to_string()).to_string(), "d");
    assert_eq!(Error::Pg("e".to_string()).to_string(), "e");
    assert_eq!(Error::Recv("f".to_string()).to_string(), "f");
    assert_eq!(Error::Uuid("g".to_string()).to_string(), "g");
    assert_eq!(Error::U8("h".to_string()).to_string(), "h");
    assert_eq!(Error::new("nothing returned from new_switch").to_string(), "nothing returned from new_switch");
}
