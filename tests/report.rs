use dedale::report::{
    base64_payload, clean_base64_string, decode_base64, extract_base64_content, format_date,
    get_image_format, format_comments_list, format_obstacle,
    format_obstacles_list, generate_image_filename, is_valid_font_extension,
};

#[test]
fn test_format_obstacle_basic() {
    let result = format_obstacle(Some("Arbre"), Some(3));
    assert_eq!(result, "Arbre (x3)");
}

#[test]
fn test_format_obstacle_none_name() {
    let result = format_obstacle(None, Some(2));
    assert_eq!(result, "N/A (x2)");
}

#[test]
fn test_format_obstacle_none_number() {
    let result = format_obstacle(Some("Rocher"), None);
    assert_eq!(result, "Rocher (x0)");
}

#[test]
fn test_format_obstacle_both_none() {
    let result = format_obstacle(None, None);
    assert_eq!(result, "N/A (x0)");
}

#[test]
fn test_format_obstacles_list_single() {
    let obstacles = vec![(Some("Arbre".to_string()), Some(5))];
    let result = format_obstacles_list(&obstacles);
    assert_eq!(result, "Arbre (x5)");
}

#[test]
fn test_format_obstacles_list_multiple() {
    let obstacles = vec![
        (Some("Arbre".to_string()), Some(3)),
        (Some("Rocher".to_string()), Some(2)),
    ];
    let result = format_obstacles_list(&obstacles);
    assert!(result.contains("Arbre (x3)"));
    assert!(result.contains("Rocher (x2)"));
}

#[test]
fn test_format_obstacles_list_empty() {
    let obstacles: Vec<(Option<String>, Option<i32>)> = vec![];
    let result = format_obstacles_list(&obstacles);
    assert_eq!(result, "None");
}

#[test]
fn test_format_comments_list_single() {
    let comments = vec!["Premier commentaire".to_string()];
    let result = format_comments_list(&comments);
    assert_eq!(result, "Premier commentaire");
}

#[test]
fn test_format_comments_list_multiple() {
    let comments = vec!["Commentaire 1".to_string(), "Commentaire 2".to_string()];
    let result = format_comments_list(&comments);
    assert!(result.contains("Commentaire 1"));
    assert!(result.contains("Commentaire 2"));
}

#[test]
fn test_format_comments_list_empty() {
    let comments: Vec<String> = vec![];
    let result = format_comments_list(&comments);
    assert_eq!(result, "None");
}

#[test]
fn test_clean_base64_string_with_prefix() {
    let input = "data:image/png;base64,iVBORw0KGgo=";
    let cleaned = clean_base64_string(input);
    assert_eq!(cleaned, "iVBORw0KGgo=");
}

#[test]
fn test_clean_base64_string_without_prefix() {
    let input = "iVBORw0KGgo=";
    let cleaned = clean_base64_string(input);
    assert_eq!(cleaned, "iVBORw0KGgo=");
}

#[test]
fn test_clean_base64_string_jpeg() {
    let input = "data:image/jpeg;base64,/9j/4AAQ";
    let cleaned = clean_base64_string(input);
    assert_eq!(cleaned, "/9j/4AAQ");
}

#[test]
fn test_extract_base64_content_png() {
    let input = "data:image/png;base64,iVBORw0KGgo=";
    let (mime, content) = extract_base64_content(input);
    assert_eq!(mime, Some("image/png"));
    assert_eq!(content, "iVBORw0KGgo=");
}

#[test]
fn test_extract_base64_content_jpeg() {
    let input = "data:image/jpeg;base64,/9j/4AAQSkYJRg==";
    let (mime, content) = extract_base64_content(input);
    assert_eq!(mime, Some("image/jpeg"));
    assert_eq!(content, "/9j/4AAQSkYJRg==");
}

#[test]
fn test_extract_base64_content_no_prefix() {
    let input = "iVBORw0KGgo=";
    let (mime, content) = extract_base64_content(input);
    assert_eq!(mime, None);
    assert_eq!(content, "iVBORw0KGgo=");
}

#[test]
fn test_generate_image_filename_basic() {
    let filename = generate_image_filename(0, 0);
    assert_eq!(filename, "img_0_0.png");
}

#[test]
fn test_generate_image_filename_large_indices() {
    let filename = generate_image_filename(10, 25);
    assert_eq!(filename, "img_10_25.png");
}

#[test]
fn test_is_valid_font_extension_ttf() {
    assert!(is_valid_font_extension("ttf"));
    assert!(is_valid_font_extension("TTF"));
}

#[test]
fn test_is_valid_font_extension_otf() {
    assert!(is_valid_font_extension("otf"));
    assert!(is_valid_font_extension("OTF"));
}

#[test]
fn test_is_valid_font_extension_woff() {
    assert!(is_valid_font_extension("woff"));
    assert!(is_valid_font_extension("woff2"));
}

#[test]
fn test_is_valid_font_extension_invalid() {
    assert!(!is_valid_font_extension("txt"));
    assert!(!is_valid_font_extension("pdf"));
    assert!(!is_valid_font_extension("jpg"));
}

#[test]
fn test_decode_base64_valid() {
    let input = "SGVsbG8gV29ybGQ="; // "Hello World"
    let result = decode_base64(input);
    assert!(result.is_ok());
    assert_eq!(result.unwrap(), b"Hello World");
}

#[test]
fn test_decode_base64_empty() {
    let input = "";
    let result = decode_base64(input);
    assert!(result.is_ok());
    assert!(result.unwrap().is_empty());
}

#[test]
fn test_decode_base64_with_whitespace() {
    let input = "SGVs bG8g V29y bGQ=";
    let result = decode_base64(input);
    assert!(result.is_ok());
    assert_eq!(result.unwrap(), b"Hello World");
}

#[test]
fn format_date_day_first() {
    assert_eq!(format_date("2024-01-15"), "15/01/2024");
    assert_eq!(format_date("2024-01-15T10:30:00"), "15/01/2024 à 10:30");
    assert_eq!(format_date("2024-01-15T10"), "15/01/2024 à 10");
    assert_eq!(format_date("2024-01"), "2024-01");
    assert_eq!(format_date("2024-01-15-3"), "2024-01-15-3");
    assert_eq!(format_date("invalid"), "invalid");
}

#[test]
fn image_format_by_signature() {
    assert_eq!(get_image_format(b"\x89PNG\r\n\x1a\nrest"), Some("png"));
    assert_eq!(get_image_format(&[0xFF, 0xD8, 0xFF, 0xE0]), Some("jpg"));
    assert_eq!(get_image_format(b"GIF89a"), Some("gif"));
    assert_eq!(get_image_format(b"RIFF\0\0\0\0WEBPVP8 "), Some("webp"));
    assert_eq!(get_image_format(b"RIFF\0\0\0\0WAVE"), None);
    assert_eq!(get_image_format(&[1, 2]), None);
}

#[test]
fn payload_after_last_comma_without_spaces() {
    assert_eq!(base64_payload("data:image/png;base64,SGVs bG8=\n"), "SGVsbG8=");
    assert_eq!(base64_payload("a,b,c"), "c");
    assert_eq!(base64_payload(" QQ== "), "QQ==");
    assert!(decode_base64("data:image/png;base64,!!!").is_err());
    assert_eq!(decode_base64("data:x;base64,QQ==").unwrap(), b"A");
}
