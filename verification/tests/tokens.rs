use token_service::backup_auth::OfflineAuth;
use token_service::cache::{Cache, Failure, RedisFault};
use token_service::database::{expected_rows_affected, DBError, SqlxFault};
use token_service::redis_auth::{
    _separate_user_result, create_token_to_user_entry, create_user_to_token_entry,
    separate_token_result, RedisAuth, DAY_IN_SECONDS,
};
use token_service::text::{decimal_string, parse_u64};
use token_service::token::Token;

fn remote_auth() -> RedisAuth {
    RedisAuth::new(Cache::new("redis://store", true).unwrap())
}

fn absent() -> Failure {
    Failure::Fault(RedisFault { connection_dropped: false, unrecoverable: false, type_error: true })
}

fn broken() -> Failure {
    Failure::Fault(RedisFault { connection_dropped: false, unrecoverable: false, type_error: false })
}

#[test]
fn token_text_is_hyphenated_lower_case_hex() {
    let token = Token { bits: 0x550E8400_E29B_41D4_A716_446655440000 };
    assert_eq!(token.to_string(), "550e8400-e29b-41d4-a716-446655440000");
    assert_eq!(Token { bits: 0 }.to_string(), "00000000-0000-0000-0000-000000000000");
    assert_eq!(
        Token { bits: 0x0123456789abcdef_fedcba9876543210 }.to_string(),
        "01234567-89ab-cdef-fedc-ba9876543210"
    );
    assert_eq!(Token { bits: u128::MAX }.to_string(), "ffffffff-ffff-ffff-ffff-ffffffffffff");
}

#[test]
fn token_parses_its_forms_and_nothing_else() {
    let token = Token { bits: 0x550e8400_e29b_41d4_a716_446655440000 };
    assert_eq!(Token::parse_str("550e8400-e29b-41d4-a716-446655440000"), Some(token));
    assert_eq!(Token::parse_str("550E8400-E29B-41D4-A716-446655440000"), Some(token));
    assert_eq!(Token::parse_str("550e8400e29b41d4a716446655440000"), Some(token));
    assert_eq!(Token::parse_str("{550e8400-e29b-41d4-a716-446655440000}"), Some(token));
    assert_eq!(Token::parse_str("urn:uuid:550e8400-e29b-41d4-a716-446655440000"), Some(token));
    assert_eq!(Token::parse_str(""), None);
    assert_eq!(Token::parse_str("not-a-uuid"), None);
    assert_eq!(Token::parse_str("550e8400-e29b-41d4-a716-44665544000"), None);
    assert_eq!(Token::parse_str("550e8400-e29b-41d4-a716_446655440000"), None);
    assert_eq!(Token::parse_str("42"), None);
}

#[test]
fn token_text_reads_back() {
    for _ in 0..20 {
        let token = Token::generate();
        assert_eq!(token.to_string().len(), 36);
        assert_eq!(Token::parse_str(&token.to_string()), Some(token));
    }
}

#[test]
fn generated_token_is_random_version_four() {
    let a = Token::generate();
    let b = Token::generate();
    assert_ne!(a, b);
    for token in [a, b] {
        assert_eq!((token.bits >> 76) & 0xf, 4);
        assert_eq!((token.bits >> 62) & 0x3, 2);
        assert_eq!(token.to_string().as_bytes()[14], b'4');
    }
}

#[test]
fn decimal_string_writes_numbers() {
    assert_eq!(decimal_string(0), "0");
    assert_eq!(decimal_string(7), "7");
    assert_eq!(decimal_string(10), "10");
    assert_eq!(decimal_string(42), "42");
    assert_eq!(decimal_string(1000), "1000");
    assert_eq!(decimal_string(u64::MAX), "18446744073709551615");
}

#[test]
fn parse_u64_reads_literals() {
    assert_eq!(parse_u64("0"), Some(0));
    assert_eq!(parse_u64("42"), Some(42));
    assert_eq!(parse_u64("+42"), Some(42));
    assert_eq!(parse_u64("007"), Some(7));
    assert_eq!(parse_u64("18446744073709551615"), Some(u64::MAX));
    assert_eq!(parse_u64("18446744073709551616"), None);
    assert_eq!(parse_u64("99999999999999999999"), None);
    assert_eq!(parse_u64(""), None);
    assert_eq!(parse_u64("+"), None);
    assert_eq!(parse_u64("-1"), None);
    assert_eq!(parse_u64("++1"), None);
    assert_eq!(parse_u64("1+"), None);
    assert_eq!(parse_u64(" 1"), None);
    assert_eq!(parse_u64("12a"), None);
    assert_eq!(parse_u64("١٢"), None);
}

#[test]
fn parse_u64_agrees_with_std() {
    for text in ["0", "1", "+0", "+18446744073709551615", "18446744073709551616", "0000000000000000000000001", "1_000", "", "+", "-0", "٣", "9 "] {
        assert_eq!(parse_u64(text), text.parse::<u64>().ok(), "{}", text);
    }
    for n in [0u64, 9, 10, 99, 100, 12345, u64::MAX - 1, u64::MAX] {
        assert_eq!(decimal_string(n), n.to_string());
        assert_eq!(parse_u64(&decimal_string(n)), Some(n));
    }
}

#[test]
fn separate_token_result_splits_name_and_id() {
    assert_eq!(separate_token_result("alice!42".to_string()), Ok(("alice".to_string(), 42)));
    assert_eq!(separate_token_result("a!0".to_string()), Ok(("a".to_string(), 0)));
    assert_eq!(separate_token_result("ålice!+7".to_string()), Ok(("ålice".to_string(), 7)));
    assert_eq!(
        separate_token_result("bob!18446744073709551615".to_string()),
        Ok(("bob".to_string(), u64::MAX))
    );
}

#[test]
fn separate_token_result_refuses_other_shapes() {
    for value in ["", "!", "alice", "alice!", "!42", "alice!42!", "a!b!42", "alice!!42", "alice!x", "alice!-1", "alice!18446744073709551616", "alice! 42"] {
        assert_eq!(separate_token_result(value.to_string()), Err(()), "{}", value);
    }
}

#[test]
fn separate_user_result_reads_token_and_id() {
    let token = Token { bits: 0x550e8400_e29b_41d4_a716_446655440000 };
    assert_eq!(
        _separate_user_result("550e8400-e29b-41d4-a716-446655440000!9".to_string()),
        Ok((token, 9))
    );
    assert_eq!(_separate_user_result("alice!9".to_string()), Err(()));
    assert_eq!(_separate_user_result("550e8400-e29b-41d4-a716-446655440000".to_string()), Err(()));
}

#[test]
fn entries_between_token_and_user_name() {
    let token = Token { bits: 0x550e8400_e29b_41d4_a716_446655440000 };
    let by_token = create_token_to_user_entry(&token, "alice", 42);
    assert_eq!(by_token.key, "550e8400-e29b-41d4-a716-446655440000");
    assert_eq!(by_token.value, "alice!42");
    assert_eq!(by_token.expiry_sec, 43200);
    let by_name = create_user_to_token_entry("alice", &token, 42);
    assert_eq!(by_name.key, "alice");
    assert_eq!(by_name.value, "550e8400-e29b-41d4-a716-446655440000!42");
    assert_eq!(by_name.expiry_sec, DAY_IN_SECONDS);
    assert_eq!(separate_token_result(by_token.value), Ok(("alice".to_string(), 42)));
    assert_eq!(_separate_user_result(by_name.value), Ok((token, 42)));
}

#[test]
fn offline_store_holds_one_token_per_user() {
    let mut store = OfflineAuth::new();
    assert!(!store.validate(1, Token { bits: 0 }));
    let first = store.generate_for_user(1);
    let other = store.generate_for_user(2);
    assert!(store.validate(1, first));
    assert!(store.validate(2, other));
    assert!(!store.validate(1, other));
    assert!(!store.validate(3, first));
    let second = store.generate_for_user(1);
    assert!(!store.validate(1, first));
    assert!(store.validate(1, second));
    assert!(store.validate(2, other));
    assert_eq!(store.tokens.len(), 2);
}

#[test]
fn remote_issue_gives_token_and_its_two_writes() {
    let auth = remote_auth();
    let (token, pipe) = auth.generate_for_user(42);
    assert_eq!(pipe.commands.len(), 2);
    assert_eq!(pipe.commands[0].key, "42");
    assert_eq!(pipe.commands[0].value, token.to_string());
    assert_eq!(pipe.commands[0].expiry_sec, 43200);
    assert!(!pipe.commands[0].if_absent);
    assert_eq!(pipe.commands[1].key, token.to_string());
    assert_eq!(pipe.commands[1].value, "42");
    assert_eq!(pipe.commands[1].expiry_sec, 43200);
    assert!(!pipe.commands[1].if_absent);
    assert_eq!(auth.user_key(42), "42");
    assert_eq!(auth.user_key(0), "0");
}

#[test]
fn remote_validate_reads_the_reply() {
    let auth = remote_auth();
    let token = Token { bits: 0x550e8400_e29b_41d4_a716_446655440000 };
    let other = Token { bits: 1 };
    assert_eq!(auth.validate(token, Ok("550e8400-e29b-41d4-a716-446655440000".to_string())), Ok(true));
    assert_eq!(auth.validate(other, Ok("550e8400-e29b-41d4-a716-446655440000".to_string())), Ok(false));
    assert_eq!(auth.validate(token, Ok("42".to_string())), Ok(false));
    assert_eq!(auth.validate(token, Err(absent())), Ok(false));
    assert_eq!(auth.validate(token, Err(broken())), Err(()));
    assert_eq!(auth.validate(token, Err(Failure::Unconnected)), Err(()));
}

#[test]
fn remote_validate_username_reads_the_reply() {
    let auth = remote_auth();
    assert_eq!(auth.validate_username("alice", Ok("alice!42".to_string())), Ok(true));
    assert_eq!(auth.validate_username("bob", Ok("alice!42".to_string())), Ok(false));
    assert_eq!(auth.validate_username("alice", Ok("alice".to_string())), Err(()));
    assert_eq!(auth.validate_username("alice", Err(absent())), Ok(false));
    assert_eq!(auth.validate_username("alice", Err(broken())), Err(()));
    assert_eq!(auth.validate_username("alice", Err(Failure::Unconnected)), Err(()));
}

#[test]
fn rows_affected_is_held_against_what_was_expected() {
    assert_eq!(expected_rows_affected(1, 1), Ok(()));
    assert_eq!(expected_rows_affected(0, 0), Ok(()));
    assert_eq!(
        expected_rows_affected(0, 1),
        Err(DBError::UnexpectedRowsAffected { expected: 1, actual: 0 })
    );
    assert_eq!(
        expected_rows_affected(3, 1),
        Err(DBError::UnexpectedRowsAffected { expected: 1, actual: 3 })
    );
}

#[test]
fn database_error_from_fault_and_as_text() {
    let none = DBError::from(SqlxFault { row_not_found: true, message: "no rows".to_string() });
    assert_eq!(none, DBError::NoResult);
    assert_eq!(none.to_string(), "A query resulted in no rows being returned");
    let other = DBError::from(SqlxFault { row_not_found: false, message: "pool closed".to_string() });
    assert_eq!(other, DBError::SQLXError("pool closed".to_string()));
    assert_eq!(other.to_string(), "pool closed");
    assert_eq!(
        DBError::UnexpectedRowsAffected { expected: 1, actual: 0 }.to_string(),
        "Expected '1' rows to change, saw '0'"
    );
    assert_eq!(
        DBError::UnexpectedRowsAffected { expected: 18446744073709551615, actual: 20 }.to_string(),
        "Expected '18446744073709551615' rows to change, saw '20'"
    );
}

#[test]
fn database_errors_compare_by_kind_and_counts() {
    assert_eq!(DBError::SQLXError("a".to_string()), DBError::SQLXError("b".to_string()));
    assert_eq!(DBError::NoResult, DBError::NoResult);
    assert_ne!(DBError::NoResult, DBError::SQLXError("a".to_string()));
    assert_ne!(
        DBError::UnexpectedRowsAffected { expected: 1, actual: 0 },
        DBError::UnexpectedRowsAffected { expected: 1, actual: 2 }
    );
    assert_ne!(
        DBError::UnexpectedRowsAffected { expected: 1, actual: 0 },
        DBError::UnexpectedRowsAffected { expected: 2, actual: 0 }
    );
    assert_ne!(DBError::UnexpectedRowsAffected { expected: 0, actual: 0 }, DBError::NoResult);
}
