use dedale::store::{
    build_sql_placeholders, build_where_in_clause, format_event_status, generate_uuid,
    hash_password, is_valid_date_format, is_valid_email, is_valid_password_length,
    is_valid_phone_number, is_valid_role, is_valid_username, is_valid_uuid, sanitize_string,
    truncate_string, verify_password,
};

#[test]
fn test_generate_uuid_format() {
    let uuid = generate_uuid();
    assert!(uuid.contains('-'), "UUID should contain dashes: {}", uuid);
    let parts: Vec<&str> = uuid.split('-').collect();
    assert_eq!(parts.len(), 5, "UUID should have 5 parts: {}", uuid);
}

#[test]
fn test_generate_uuid_uniqueness() {
    let uuid1 = generate_uuid();
    let uuid2 = generate_uuid();
    assert_ne!(uuid1, uuid2, "Two generated UUIDs should be different");
}

#[test]
fn test_generate_uuid_length() {
    let uuid = generate_uuid();
    assert!(
        uuid.len() >= 35 && uuid.len() <= 36,
        "UUID should be 35-36 characters long, got {}",
        uuid.len()
    );
}

#[test]
fn test_is_valid_uuid_valid() {
    assert!(is_valid_uuid("550e8400-e29b-41d4-a716-446655440000"));
    assert!(is_valid_uuid("123e4567-e89b-42d3-a456-426614174000"));
}

#[test]
fn test_is_valid_uuid_invalid_format() {
    assert!(!is_valid_uuid("not-a-uuid"));
    assert!(!is_valid_uuid("550e8400e29b41d4a716446655440000")); // No dashes
    assert!(!is_valid_uuid("550e8400-e29b-41d4-a716")); // Too short
}

#[test]
fn test_is_valid_uuid_invalid_chars() {
    assert!(!is_valid_uuid("550e8400-e29b-41d4-a716-44665544000g")); // Contains 'g'
    assert!(!is_valid_uuid("550e8400-e29b-41d4-a716-44665544000!")); // Contains '!'
}

#[test]
fn test_is_valid_username_valid() {
    assert!(is_valid_username("john_doe"));
    assert!(is_valid_username("user123"));
    assert!(is_valid_username("test-user"));
    assert!(is_valid_username("abc"));
}

#[test]
fn test_is_valid_username_too_short() {
    assert!(!is_valid_username("ab"));
    assert!(!is_valid_username("a"));
    assert!(!is_valid_username(""));
}

#[test]
fn test_is_valid_username_invalid_chars() {
    assert!(!is_valid_username("user@name"));
    assert!(!is_valid_username("user name"));
    assert!(!is_valid_username("user.name"));
}

#[test]
fn test_is_valid_username_boundary() {
    let long_name = "a".repeat(50);
    assert!(is_valid_username(&long_name));
    let too_long = "a".repeat(51);
    assert!(!is_valid_username(&too_long));
}

#[test]
fn test_is_valid_role_valid() {
    assert!(is_valid_role("admin"));
    assert!(is_valid_role("user"));
    assert!(is_valid_role("guest"));
    assert!(is_valid_role("moderator"));
}

#[test]
fn test_is_valid_role_invalid() {
    assert!(!is_valid_role("superuser"));
    assert!(!is_valid_role("Admin")); // Case sensitive
    assert!(!is_valid_role(""));
    assert!(!is_valid_role("root"));
}

#[test]
fn test_format_event_status_active() {
    assert_eq!(format_event_status("actif"), "En cours");
    assert_eq!(format_event_status("active"), "En cours");
    assert_eq!(format_event_status("en_cours"), "En cours");
}

#[test]
fn test_format_event_status_finished() {
    assert_eq!(format_event_status("termine"), "Terminé");
    assert_eq!(format_event_status("finished"), "Terminé");
    assert_eq!(format_event_status("completed"), "Terminé");
}

#[test]
fn test_format_event_status_cancelled() {
    assert_eq!(format_event_status("annule"), "Annulé");
    assert_eq!(format_event_status("cancelled"), "Annulé");
}

#[test]
fn test_format_event_status_planned() {
    assert_eq!(format_event_status("planifie"), "Planifié");
    assert_eq!(format_event_status("planned"), "Planifié");
    assert_eq!(format_event_status("scheduled"), "Planifié");
}

#[test]
fn test_format_event_status_unknown() {
    assert_eq!(format_event_status("invalid"), "Inconnu");
    assert_eq!(format_event_status(""), "Inconnu");
}

#[test]
fn test_is_valid_date_format_valid() {
    assert!(is_valid_date_format("2024-01-15"));
    assert!(is_valid_date_format("2024-12-31"));
    assert!(is_valid_date_format("2024-01-15T10:30:00"));
}

#[test]
fn test_is_valid_date_format_invalid() {
    assert!(!is_valid_date_format("15-01-2024")); // Wrong order
    assert!(!is_valid_date_format("2024/01/15")); // Wrong separator
    assert!(!is_valid_date_format("2024-13-01")); // Invalid month
    assert!(!is_valid_date_format("2024-01-32")); // Invalid day
}

#[test]
fn test_is_valid_date_format_too_short() {
    assert!(!is_valid_date_format("2024-01"));
    assert!(!is_valid_date_format("2024"));
    assert!(!is_valid_date_format(""));
}

#[test]
fn test_hash_password_and_verify() {
    let password = "securePassword123!";
    let hashed = hash_password(password).expect("Hash should succeed");
    assert!(verify_password(password, &hashed));
}

#[test]
fn test_verify_password_wrong() {
    let password = "securePassword123!";
    let hashed = hash_password(password).expect("Hash should succeed");
    assert!(!verify_password("wrongPassword", &hashed));
}

#[test]
fn test_hash_password_different_hashes() {
    let password = "samePassword";
    let hash1 = hash_password(password).expect("Hash should succeed");
    let hash2 = hash_password(password).expect("Hash should succeed");
    assert_ne!(hash1, hash2);
}

#[test]
fn test_is_valid_password_length_valid() {
    assert!(is_valid_password_length("12345678")); // 8 chars
    assert!(is_valid_password_length("securePassword123!"));
}

#[test]
fn test_is_valid_password_length_too_short() {
    assert!(!is_valid_password_length("1234567")); // 7 chars
    assert!(!is_valid_password_length("short"));
    assert!(!is_valid_password_length(""));
}

#[test]
fn test_is_valid_password_length_too_long() {
    let long_password = "a".repeat(129);
    assert!(!is_valid_password_length(&long_password));
}

#[test]
fn test_build_sql_placeholders_multiple() {
    assert_eq!(build_sql_placeholders(3), "?, ?, ?");
    assert_eq!(build_sql_placeholders(5), "?, ?, ?, ?, ?");
}

#[test]
fn test_build_sql_placeholders_single() {
    assert_eq!(build_sql_placeholders(1), "?");
}

#[test]
fn test_build_sql_placeholders_zero() {
    assert_eq!(build_sql_placeholders(0), "");
}

#[test]
fn test_build_where_in_clause_basic() {
    assert_eq!(build_where_in_clause("id", 3), "id IN (?, ?, ?)");
    assert_eq!(build_where_in_clause("event_id", 2), "event_id IN (?, ?)");
}

#[test]
fn test_build_where_in_clause_empty() {
    assert_eq!(build_where_in_clause("id", 0), "id IN ()");
}

#[test]
fn test_is_valid_email_valid() {
    assert!(is_valid_email("test@example.com"));
    assert!(is_valid_email("user.name@domain.org"));
    assert!(is_valid_email("user+tag@sub.domain.com"));
}

#[test]
fn test_is_valid_email_invalid() {
    assert!(!is_valid_email("invalid"));
    assert!(!is_valid_email("@example.com"));
    assert!(!is_valid_email("test@"));
    assert!(!is_valid_email("test@domain")); // No dot in domain
    assert!(!is_valid_email("test@@example.com")); // Double @
}

#[test]
fn test_is_valid_phone_number_valid() {
    assert!(is_valid_phone_number("0612345678"));
    assert!(is_valid_phone_number("+33612345678"));
    assert!(is_valid_phone_number("06 12 34 56 78"));
    assert!(is_valid_phone_number("06-12-34-56-78"));
}

#[test]
fn test_is_valid_phone_number_invalid() {
    assert!(!is_valid_phone_number("123")); // Too short
    assert!(!is_valid_phone_number("1234567890123456")); // Too long (16 digits)
    assert!(!is_valid_phone_number("abcdefghij")); // No digits
}

#[test]
fn test_sanitize_string_quotes() {
    assert_eq!(sanitize_string("test'value"), "test''value");
    assert_eq!(sanitize_string("test\"value"), "test\"value");
}

#[test]
fn test_sanitize_string_backslash() {
    assert_eq!(sanitize_string("path\\to\\file"), "path\\\\to\\\\file");
}

#[test]
fn test_sanitize_string_clean() {
    assert_eq!(sanitize_string("clean string"), "clean string");
}

#[test]
fn test_truncate_string_no_truncation() {
    assert_eq!(truncate_string("short", 10), "short");
    assert_eq!(truncate_string("exact", 5), "exact");
}

#[test]
fn test_truncate_string_with_truncation() {
    assert_eq!(truncate_string("this is a long string", 10), "this is...");
    assert_eq!(truncate_string("hello world", 8), "hello...");
}

#[test]
fn test_truncate_string_empty() {
    assert_eq!(truncate_string("", 10), "");
}
