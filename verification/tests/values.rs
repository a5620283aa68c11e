use context_logger::ContextValue;

#[test]
fn render_null() {
    assert_eq!(ContextValue::null().render(), "None");
}

#[test]
fn render_strings() {
    assert_eq!(ContextValue::from("outer_value").render(), "outer_value");
    assert_eq!(ContextValue::from(String::from("owned")).render(), "owned");
    assert_eq!(ContextValue::from("").render(), "");
}

#[test]
fn render_booleans_and_chars() {
    assert_eq!(ContextValue::from(true).render(), "true");
    assert_eq!(ContextValue::from(false).render(), "false");
    assert_eq!(ContextValue::from('x').render(), "x");
}

#[test]
fn render_integers() {
    assert_eq!(ContextValue::from(0).render(), "0");
    assert_eq!(ContextValue::from(42).render(), "42");
    assert_eq!(ContextValue::from(-7).render(), "-7");
    assert_eq!(ContextValue::from(10u32).render(), "10");
    assert_eq!(ContextValue::from(5u8).render(), "5");
    assert_eq!(ContextValue::from(6u16).render(), "6");
    assert_eq!(ContextValue::from(-2i8).render(), "-2");
    assert_eq!(ContextValue::from(-3i16).render(), "-3");
    assert_eq!(ContextValue::from(u64::MAX).render(), "18446744073709551615");
    assert_eq!(ContextValue::from(i64::MIN).render(), "-9223372036854775808");
    assert_eq!(ContextValue::from(i64::MAX).render(), "9223372036854775807");
    assert_eq!(
        ContextValue::from(u128::MAX).render(),
        "340282366920938463463374607431768211455"
    );
    assert_eq!(ContextValue::from(i128::MIN).render(), "-170141183460469231731687303715884105728");
}

#[test]
fn render_payloads() {
    assert_eq!(ContextValue::debug(vec![1, 2, 3]).render(), "[1, 2, 3]");
    assert_eq!(ContextValue::display("shown").render(), "shown");
    let err = std::io::Error::new(std::io::ErrorKind::Other, "boom");
    assert_eq!(ContextValue::error(err).render(), "boom");
    assert_eq!(ContextValue::serde(5i32).render(), "5");
}

#[test]
fn log_values_render_through_the_sink_protocol() {
    assert_eq!(ContextValue::from(42).as_log_value().to_string(), "42");
    assert_eq!(ContextValue::from("text").as_log_value().to_string(), "text");
    assert_eq!(ContextValue::from(true).as_log_value().to_string(), "true");
    assert_eq!(ContextValue::null().as_log_value().to_string(), "None");
    assert_eq!(ContextValue::debug(7u8).as_log_value().to_string(), "7");
    assert_eq!(ContextValue::serde(9i64).as_log_value().to_string(), "9");
    assert_eq!(ContextValue::from(-3i64).as_log_value().to_i64(), Some(-3));
    assert_eq!(ContextValue::from(8u64).as_log_value().to_u64(), Some(8));
}
