use pullpiri::persistency::{
    after_failed_attempt, collect_pairs, connection_failure, decimal, has_forbidden_char,
    has_prefix, interpret_ack, interpret_get, interpret_listing, is_forbidden_char, key_fault,
    kvs_value_to_string, service_address, string_to_kvs_value, validate_key, KeyFault, KvsValue,
    PersistencyError, RetryStep, Value, KV, MAX_KEY_LENGTH, MAX_RETRIES, PERSISTENCY_PORT,
    RETRY_DELAY_MS,
};

fn wrap(value: Value) -> KvsValue {
    KvsValue { value: Some(value) }
}

fn invalid_args(result: Result<(), PersistencyError>) -> String {
    match result {
        Err(PersistencyError::InvalidArgs(text)) => text,
        other => panic!("expected an argument error, got {:?}", other),
    }
}

#[test]
fn invalid_keys_are_rejected() {
    assert_eq!(invalid_args(validate_key("", true)), "Key cannot be empty");
    assert_eq!(
        invalid_args(validate_key("key<with>invalid?chars{}", false)),
        "Key contains invalid special characters"
    );
    let long_key = "a".repeat(2048);
    assert_eq!(
        invalid_args(validate_key(&long_key, false)),
        "Key exceeds maximum allowed length of 1024 characters"
    );
    assert!(validate_key("unit_test_key", true).is_ok());
    assert!(validate_key("unit_test_key", false).is_ok());
}

#[test]
fn empty_key_counts_only_for_reads() {
    assert_eq!(key_fault("", true), Some(KeyFault::Empty));
    assert_eq!(key_fault("", false), None);
    assert!(validate_key("", false).is_ok());
}

#[test]
fn key_length_is_counted_in_bytes() {
    assert_eq!(MAX_KEY_LENGTH, 1024);
    assert_eq!(key_fault(&"a".repeat(1024), true), None);
    assert_eq!(key_fault(&"a".repeat(1025), true), Some(KeyFault::TooLong));
    assert_eq!(key_fault(&"é".repeat(512), true), None);
    assert_eq!(key_fault(&"é".repeat(513), true), Some(KeyFault::TooLong));
}

#[test]
fn faults_are_found_in_order() {
    let long_and_bad = format!("{}<", "a".repeat(1024));
    assert_eq!(key_fault(&long_and_bad, true), Some(KeyFault::TooLong));
    assert_eq!(key_fault("ok/<", false), Some(KeyFault::ForbiddenCharacter));
    assert_eq!(KeyFault::Empty.describe(), "Key cannot be empty");
}

#[test]
fn five_characters_are_forbidden() {
    for c in ['<', '>', '?', '{', '}'] {
        assert!(is_forbidden_char(c));
        assert!(has_forbidden_char(&format!("abc{}def", c)));
        assert!(has_forbidden_char(&format!("ééé{}", c)));
    }
    for c in ['a', '/', '[', ']', '(', ')', '=', '!', '\0', 'é', ' '] {
        assert!(!is_forbidden_char(c));
    }
    assert!(!has_forbidden_char(""));
    assert!(!has_forbidden_char("Scenario/helloworld-1.0_é"));
}

#[test]
fn service_address_uses_the_persistency_port() {
    let address = service_address("192.168.0.7");
    assert_eq!(address, "192.168.0.7:47007");
    assert!(address.contains(":47007"));
    assert_eq!(PERSISTENCY_PORT, 47007);
    assert_eq!(service_address("::1"), "::1:47007");
}

#[test]
fn integers_read_in_decimal() {
    assert_eq!(decimal(0), "0");
    assert_eq!(decimal(7), "7");
    assert_eq!(decimal(10), "10");
    assert_eq!(decimal(-1), "-1");
    assert_eq!(decimal(1234567890), "1234567890");
    assert_eq!(decimal(-9_223_372_036_854_775_808), "-9223372036854775808");
    assert_eq!(decimal(18_446_744_073_709_551_615), "18446744073709551615");
    assert_eq!(decimal(i128::MAX), i128::MAX.to_string());
    assert_eq!(decimal(i128::MIN), i128::MIN.to_string());
    for value in [-1000i128, -999, -101, -100, -99, -11, -10, -9, 9, 11, 99, 100, 101, 1000] {
        assert_eq!(decimal(value), value.to_string());
    }
}

#[test]
fn stored_values_read_as_text() {
    let read = |value: Value| kvs_value_to_string(&wrap(value)).unwrap();
    assert_eq!(read(Value::StringValue("hello".to_string())), "hello");
    assert_eq!(read(Value::I32Value(-42)), "-42");
    assert_eq!(read(Value::I32Value(i32::MIN)), "-2147483648");
    assert_eq!(read(Value::U32Value(u32::MAX)), "4294967295");
    assert_eq!(read(Value::I64Value(i64::MIN)), "-9223372036854775808");
    assert_eq!(read(Value::U64Value(u64::MAX)), "18446744073709551615");
    assert_eq!(read(Value::F64Value((1.5f64).to_string())), "1.5");
    assert_eq!(read(Value::BooleanValue(true)), "true");
    assert_eq!(read(Value::BooleanValue(false)), "false");
    assert_eq!(read(Value::NullValue), "null");
    assert_eq!(kvs_value_to_string(&string_to_kvs_value("yaml: text")).unwrap(), "yaml: text");
}

#[test]
fn complex_and_empty_values_have_no_text() {
    for value in [wrap(Value::ArrayValue), wrap(Value::ObjectValue)] {
        match kvs_value_to_string(&value) {
            Err(PersistencyError::Conversion(why)) => {
                assert_eq!(why, "Complex types not supported in string conversion")
            }
            other => panic!("unexpected {:?}", other),
        }
    }
    match kvs_value_to_string(&KvsValue { value: None }) {
        Err(PersistencyError::Conversion(why)) => assert_eq!(why, "Empty value"),
        other => panic!("unexpected {:?}", other),
    }
}

#[test]
fn errors_print_with_their_kind() {
    let text = |error: PersistencyError| error.message();
    assert_eq!(text(PersistencyError::Transport("refused".into())), "Transport error: refused");
    assert_eq!(text(PersistencyError::Grpc("unavailable".into())), "gRPC error: unavailable");
    assert_eq!(text(PersistencyError::Conversion("Empty value".into())), "Conversion error: Empty value");
    assert_eq!(text(PersistencyError::NotFound), "Key not found");
    assert_eq!(text(PersistencyError::InvalidArgs("bad".into())), "Invalid arguments: bad");
}

#[test]
fn acknowledgements_succeed_or_carry_the_complaint() {
    assert!(interpret_ack(true, String::new()).is_ok());
    assert!(interpret_ack(true, "ignored".to_string()).is_ok());
    assert_eq!(invalid_args(interpret_ack(false, "Failed to set value".to_string())), "Failed to set value");
}

#[test]
fn reads_give_the_text_or_not_found() {
    assert_eq!(interpret_get(true, Some(wrap(Value::I32Value(5)))).unwrap(), "5");
    assert!(matches!(interpret_get(true, None), Err(PersistencyError::NotFound)));
    assert!(matches!(
        interpret_get(false, Some(wrap(Value::I32Value(5)))),
        Err(PersistencyError::NotFound)
    ));
    assert!(matches!(interpret_get(false, None), Err(PersistencyError::NotFound)));
    assert!(matches!(
        interpret_get(true, Some(wrap(Value::ArrayValue))),
        Err(PersistencyError::Conversion(_))
    ));
}

#[test]
fn listings_keep_the_readable_pairs_in_order() {
    let entries = vec![
        ("Scenario/a".to_string(), wrap(Value::StringValue("one".into()))),
        ("Scenario/b".to_string(), wrap(Value::ArrayValue)),
        ("Scenario/c".to_string(), wrap(Value::U64Value(3))),
        ("Scenario/d".to_string(), KvsValue { value: None }),
        ("Scenario/e".to_string(), wrap(Value::NullValue)),
    ];
    let pairs: Vec<(String, String)> =
        collect_pairs(entries.clone()).into_iter().map(|KV { key, value }| (key, value)).collect();
    let expected: Vec<(String, String)> = [("Scenario/a", "one"), ("Scenario/c", "3"), ("Scenario/e", "null")]
        .iter()
        .map(|(k, v)| (k.to_string(), v.to_string()))
        .collect();
    assert_eq!(pairs, expected);
    assert!(collect_pairs(Vec::new()).is_empty());
    let listed = interpret_listing(true, entries.clone(), "unused".to_string()).unwrap();
    assert_eq!(listed.len(), 3);
    assert_eq!(listed[1].key, "Scenario/c");
    match interpret_listing(false, entries, "Failed to get keys".to_string()) {
        Err(PersistencyError::InvalidArgs(text)) => assert_eq!(text, "Failed to get keys"),
        other => panic!("unexpected {:?}", other),
    }
}

#[test]
fn prefixes_are_compared_byte_by_byte() {
    assert!(has_prefix("unit_test_key1", "unit_test_"));
    assert!(has_prefix("unit_test_", "unit_test_"));
    assert!(has_prefix("anything", ""));
    assert!(has_prefix("", ""));
    assert!(!has_prefix("other_key", "unit_test_"));
    assert!(!has_prefix("unit", "unit_test_"));
    assert!(!has_prefix("", "a"));
    assert!(!has_prefix("Unit_test", "unit"));
    assert!(has_prefix("éa", "é"));
    for (key, prefix) in [("abc", "ab"), ("abc", "abd"), ("é", "e"), ("ab", "abc")] {
        assert_eq!(has_prefix(key, prefix), key.starts_with(prefix));
    }
}

#[test]
fn connecting_is_tried_ten_times_a_second_apart() {
    assert_eq!(MAX_RETRIES, 10);
    assert_eq!(RETRY_DELAY_MS, 1000);
    for attempt in 0..9 {
        assert_eq!(after_failed_attempt(attempt), RetryStep::RetryAfter(1000));
    }
    assert_eq!(after_failed_attempt(9), RetryStep::GiveUp);
    assert_eq!(after_failed_attempt(10), RetryStep::GiveUp);
    assert_eq!(after_failed_attempt(u32::MAX), RetryStep::GiveUp);
    let mut attempts = 0u32;
    let mut waited = 0u64;
    loop {
        let step = after_failed_attempt(attempts);
        attempts += 1;
        match step {
            RetryStep::RetryAfter(delay) => waited += delay,
            RetryStep::GiveUp => break,
        }
    }
    assert_eq!((attempts, waited), (10, 9_000));
}

#[test]
fn giving_up_reports_the_last_failure() {
    match connection_failure(Some(PersistencyError::Transport("refused".into()))) {
        PersistencyError::Transport(text) => assert_eq!(text, "refused"),
        other => panic!("unexpected {:?}", other),
    }
    match connection_failure(None) {
        PersistencyError::InvalidArgs(text) => {
            assert_eq!(text, "Failed to connect to persistency service after multiple attempts")
        }
        other => panic!("unexpected {:?}", other),
    }
}
