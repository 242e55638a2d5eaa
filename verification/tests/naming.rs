use clipboard_monitor::clock::{timestamp, StampStyle};
use clipboard_monitor::naming::{compose_file_name, generate_unique_filename};
use clipboard_monitor::text::name_text;

#[test]
fn test_generate_unique_filename() {
    let filename1 = generate_unique_filename("test", ".txt");
    let filename2 = generate_unique_filename("test", ".txt");

    assert!(filename1.starts_with("test_"));
    assert!(filename1.ends_with(".txt"));
    assert_ne!(filename1, filename2);
}

#[test]
fn composed_name_has_the_four_parts_in_order() {
    let name = compose_file_name(
        "clipboard_image",
        "01022024_030405",
        "67e55044-10b1-426f-9247-bb680e5fe0c8",
        ".png",
    );
    assert_eq!(name, "clipboard_image_01022024_030405_67e55044-10b1-426f-9247-bb680e5fe0c8.png");
    assert_eq!(compose_file_name("", "", "", ""), "__");
}

#[test]
fn consecutive_names_differ_and_keep_prefix_and_extension() {
    let pairs = [("clipboard_image", ".png"), ("Screenshot", ".md"), ("clipboard_text", ".md"), ("", "")];
    for (prefix, extension) in pairs {
        let first = generate_unique_filename(prefix, extension);
        let second = generate_unique_filename(prefix, extension);
        assert_ne!(first, second);
        assert!(first.starts_with(prefix));
        assert!(second.starts_with(prefix));
        assert!(first.ends_with(extension));
        assert!(second.ends_with(extension));
    }
}

#[test]
fn generated_name_is_a_valid_file_name() {
    let name = generate_unique_filename("clipboard_image", ".png");
    assert!(name_text(&name));
    assert!(!name.contains('/'));
    assert!(!name.contains('\\'));
    assert!(!name.contains(':'));
}

#[test]
fn generated_name_holds_stamp_and_token() {
    let name = generate_unique_filename("shot", ".png");
    let parts: Vec<&str> = name.split('_').collect();
    assert_eq!(parts.len(), 4);
    assert_eq!(parts[0], "shot");
    assert_eq!(parts[1].len(), 8);
    assert!(parts[1].chars().all(|c| c.is_ascii_digit()));
    assert_eq!(parts[2].len(), 6);
    assert!(parts[2].chars().all(|c| c.is_ascii_digit()));
    let token = parts[3].strip_suffix(".png").unwrap();
    assert_eq!(token.len(), 36);
    assert!(token.chars().all(|c| c.is_ascii_digit() || ('a'..='f').contains(&c) || c == '-'));
    assert_eq!(token.chars().filter(|c| *c == '-').count(), 4);
}

#[test]
fn stamps_have_the_shape_of_their_style() {
    let compact = timestamp(StampStyle::Compact);
    assert_eq!(compact.len(), 15);
    assert_eq!(compact.as_bytes()[8], b'_');
    assert!(compact.chars().all(|c| c.is_ascii_digit() || c == '_'));

    let heading = timestamp(StampStyle::Heading);
    assert_eq!(heading.len(), 19);
    assert_eq!(&heading[10..14], " um ");
    assert_eq!(heading.as_bytes()[2], b'.');
    assert_eq!(heading.as_bytes()[5], b'.');
    assert_eq!(heading.as_bytes()[16], b':');

    let log = timestamp(StampStyle::Log);
    assert_eq!(log.len(), 19);
    assert_eq!(log.as_bytes()[10], b' ');
    assert_eq!(log.as_bytes()[13], b':');
    assert_eq!(log.as_bytes()[16], b':');
}

#[test]
fn name_text_refuses_separators_and_reserved_characters() {
    assert!(name_text("clipboard_image"));
    assert!(name_text(".png"));
    assert!(name_text(""));
    assert!(name_text("Grüße 2024"));
    assert!(!name_text("a/b"));
    assert!(!name_text("a\\b"));
    assert!(!name_text("a:b"));
    assert!(!name_text("a*b"));
    assert!(!name_text("what?"));
    assert!(!name_text("\"quoted\""));
    assert!(!name_text("<a>"));
    assert!(!name_text("a|b"));
    assert!(!name_text("line\nbreak"));
    assert!(!name_text("del\x7f"));
}
