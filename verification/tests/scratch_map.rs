use beatbind::scratch::{Data, TempKind, TempValue};

#[test]
fn never_inserted_key_yields_nothing() {
    let d = Data::new();
    assert!(d.get_temp_value("score", TempKind::Int).is_none());
    assert!(d.get_temp_value("score", TempKind::FloatBits).is_none());
    assert!(d.get_temp_value("score", TempKind::Text).is_none());
}

#[test]
fn set_then_get_returns_the_value() {
    let mut d = Data::new();
    d.set_temp_value("score", TempValue::Int(42));
    assert!(matches!(d.get_temp_value("score", TempKind::Int), Some(TempValue::Int(42))));
}

#[test]
fn get_at_wrong_kind_yields_nothing() {
    let mut d = Data::new();
    d.set_temp_value("score", TempValue::Int(42));
    assert!(d.get_temp_value("score", TempKind::FloatBits).is_none());
    assert!(d.get_temp_value("score", TempKind::Text).is_none());
}

#[test]
fn remove_then_get_yields_nothing() {
    let mut d = Data::new();
    d.set_temp_value("score", TempValue::Int(42));
    d.remove_temp_value("score");
    assert!(d.get_temp_value("score", TempKind::Int).is_none());
}

#[test]
fn removing_an_absent_key_is_harmless() {
    let mut d = Data::new();
    d.remove_temp_value("never-there");
    assert!(d.get_temp_value("never-there", TempKind::Int).is_none());
}

#[test]
fn set_overwrites_the_earlier_entry() {
    let mut d = Data::new();
    d.set_temp_value("score", TempValue::Int(1));
    d.set_temp_value("score", TempValue::Int(2));
    assert!(matches!(d.get_temp_value("score", TempKind::Int), Some(TempValue::Int(2))));
}

#[test]
fn set_overwrites_across_kinds() {
    let mut d = Data::new();
    d.set_temp_value("slot", TempValue::Int(5));
    d.set_temp_value("slot", TempValue::Text(String::from("five")));
    assert!(d.get_temp_value("slot", TempKind::Int).is_none());
    match d.get_temp_value("slot", TempKind::Text) {
        Some(TempValue::Text(s)) => assert_eq!(s, "five"),
        _ => panic!("expected the stored text"),
    }
}

#[test]
fn float_values_round_trip_through_bits() {
    let mut d = Data::new();
    d.set_temp_value("speed", TempValue::FloatBits(3.5f32.to_bits()));
    match d.get_temp_value("speed", TempKind::FloatBits) {
        Some(TempValue::FloatBits(b)) => assert_eq!(f32::from_bits(b), 3.5f32),
        _ => panic!("expected the stored float bits"),
    }
    assert!(d.get_temp_value("speed", TempKind::Int).is_none());
}

#[test]
fn keys_are_independent() {
    let mut d = Data::new();
    d.set_temp_value("a", TempValue::Int(1));
    d.set_temp_value("b", TempValue::Int(2));
    d.remove_temp_value("a");
    assert!(d.get_temp_value("a", TempKind::Int).is_none());
    assert!(matches!(d.get_temp_value("b", TempKind::Int), Some(TempValue::Int(2))));
}

#[test]
fn empty_key_and_empty_text_work() {
    let mut d = Data::new();
    d.set_temp_value("", TempValue::Text(String::new()));
    match d.get_temp_value("", TempKind::Text) {
        Some(TempValue::Text(s)) => assert_eq!(s, ""),
        _ => panic!("expected the stored empty text"),
    }
}
