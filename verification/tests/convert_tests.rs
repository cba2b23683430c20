use easy_sqlx_core::value::Value;

fn s(text: &str) -> String {
    text.to_string()
}

#[test]
fn values_from_numbers() {
    assert_eq!(Value::from(true), Value::Bool(Some(true)));
    assert_eq!(Value::from(&false), Value::Bool(Some(false)));
    assert_eq!(Value::from(None::<bool>), Value::Bool(None));
    assert_eq!(Value::from(-7i16), Value::Short(Some(-7)));
    assert_eq!(Value::from(&7i32), Value::Int(Some(7)));
    assert_eq!(Value::from(Some(7i64)), Value::Long(Some(7)));
    assert_eq!(Value::from(None::<i64>), Value::Long(None));
}

#[test]
fn values_from_unsigned_numbers_keep_the_bits() {
    assert_eq!(Value::from(7u16), Value::Short(Some(7)));
    assert_eq!(Value::from(65535u16), Value::Short(Some(-1)));
    assert_eq!(Value::from(&40000u16), Value::Short(Some(40000u16 as i16)));
    assert_eq!(Value::from(u32::MAX), Value::Int(Some(-1)));
    assert_eq!(Value::from(Some(u64::MAX)), Value::Long(Some(-1)));
    assert_eq!(Value::from(None::<u32>), Value::Int(None));
    assert_eq!(Value::from(&9u64), Value::Long(Some(9)));
}

#[test]
fn values_from_texts_bytes_and_times() {
    assert_eq!(Value::from(s("x")), Value::Text(Some(s("x"))));
    assert_eq!(Value::from(&s("x")), Value::Text(Some(s("x"))));
    assert_eq!(Value::from(None::<String>), Value::Text(None));
    assert_eq!(Value::from(vec![1u8, 2]), Value::Binary(Some(vec![1, 2])));
    assert_eq!(Value::from(&vec![1u8, 2]), Value::Binary(Some(vec![1, 2])));
    assert_eq!(Value::from(None::<Vec<u8>>), Value::Binary(None));
    let when = chrono::NaiveDate::from_ymd_opt(2024, 1, 2).unwrap().and_hms_opt(3, 4, 5).unwrap();
    assert_eq!(Value::from(when), Value::ChronoDate(Some(when)));
    assert_eq!(Value::from(&when), Value::ChronoDate(Some(when)));
    assert_eq!(Value::from(Some(when)), Value::ChronoDate(Some(when)));
}

#[test]
fn values_from_lists() {
    assert_eq!(
        Value::from(vec![1i64, 2, 3]),
        Value::Array(vec![Value::Long(Some(1)), Value::Long(Some(2)), Value::Long(Some(3))])
    );
    assert_eq!(Value::from(Vec::<i32>::new()), Value::Array(vec![]));
    assert_eq!(Value::from(vec![true]), Value::Array(vec![Value::Bool(Some(true))]));
    assert_eq!(Value::from(vec![1i16]), Value::Array(vec![Value::Short(Some(1))]));
    assert_eq!(Value::from(vec![u16::MAX]), Value::Array(vec![Value::Short(Some(-1))]));
    assert_eq!(Value::from(vec![1u32]), Value::Array(vec![Value::Int(Some(1))]));
    assert_eq!(Value::from(vec![1u64]), Value::Array(vec![Value::Long(Some(1))]));
    assert_eq!(
        Value::from(vec![s("a"), s("b")]),
        Value::Array(vec![Value::Text(Some(s("a"))), Value::Text(Some(s("b")))])
    );
    assert_eq!(Value::from(vec![1i32, 2]).len(), 2);
}
