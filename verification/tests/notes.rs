use clipboard_monitor::notes::{image_note, log_entry, text_note, text_preview, PREVIEW_CHARS};

#[test]
fn image_note_has_heading_and_embed() {
    let body = image_note("2024-01-01 12:00", "test_image.png");
    assert!(body.contains("## Screenshot vom 2024-01-01 12:00"));
    assert!(body.contains("![Screenshot](test_image.png)"));
    assert_eq!(body, "## Screenshot vom 2024-01-01 12:00\n\n![Screenshot](test_image.png)\n");
}

#[test]
fn image_note_is_heading_empty_line_embed() {
    let body = image_note("01.02.2024 um 03:04", "clipboard_image_x.png");
    let lines: Vec<&str> = body.split('\n').collect();
    assert_eq!(lines.len(), 4);
    assert_eq!(lines[0], "## Screenshot vom 01.02.2024 um 03:04");
    assert_eq!(lines[1], "");
    assert_eq!(lines[2], "![Screenshot](clipboard_image_x.png)");
    assert_eq!(lines[3], "");
}

#[test]
fn text_note_holds_hello_after_the_heading() {
    let body = text_note("01.02.2024 um 03:04", "Hello");
    assert_eq!(body, "Text aus der Zwischenablage vom 01.02.2024 um 03:04\n\nHello");
    let lines: Vec<&str> = body.split('\n').collect();
    assert_eq!(lines[0], "Text aus der Zwischenablage vom 01.02.2024 um 03:04");
    assert_eq!(lines[1], "");
    assert_eq!(lines[2], "Hello");
}

#[test]
fn text_note_keeps_the_text_verbatim() {
    let text = "first line\n\n  second line\twith tab\nGrüße ✓\n";
    let body = text_note("t", text);
    assert!(body.ends_with(text));
    assert_eq!(body, format!("Text aus der Zwischenablage vom t\n\n{}", text));
    assert_eq!(text_note("t", ""), "Text aus der Zwischenablage vom t\n\n");
}

#[test]
fn preview_of_a_short_text_is_the_text() {
    assert_eq!(PREVIEW_CHARS, 100);
    assert_eq!(text_preview(""), "");
    assert_eq!(text_preview("Hello"), "Hello");
    let hundred = "a".repeat(100);
    assert_eq!(text_preview(&hundred), hundred);
}

#[test]
fn preview_of_a_long_text_is_cut_and_dotted() {
    let long = "b".repeat(101);
    assert_eq!(text_preview(&long), format!("{}...", "b".repeat(100)));
    let longer = format!("{}{}", "c".repeat(100), "d".repeat(400));
    assert_eq!(text_preview(&longer), format!("{}...", "c".repeat(100)));
}

#[test]
fn preview_counts_characters_for_the_cut_and_bytes_for_the_dots() {
    let sixty = "ä".repeat(60);
    assert_eq!(sixty.len(), 120);
    assert_eq!(text_preview(&sixty), format!("{}...", sixty));
    let fifty = "ä".repeat(50);
    assert_eq!(fifty.len(), 100);
    assert_eq!(text_preview(&fifty), fifty);
    let many = "ä".repeat(150);
    assert_eq!(text_preview(&many), format!("{}...", "ä".repeat(100)));
}

#[test]
fn log_entry_is_bracketed_time_message_and_line_end() {
    assert_eq!(
        log_entry("01.02.2024 03:04:05", "Zwischenablage wurde geleert."),
        "[01.02.2024 03:04:05] Zwischenablage wurde geleert.\n"
    );
    assert_eq!(log_entry("", ""), "[] \n");
}
