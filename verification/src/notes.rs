//! The texts that the monitor writes: the note that goes with an image,
//! the note that holds a text, the preview of a saved text and the
//! entries of the log.

use vstd::prelude::*;
use vstd::string::*;
use vstd::utf8::encode_utf8;

verus! {

/// The number of characters that a preview shows of a text.
pub const PREVIEW_CHARS: usize = 100;

/// The note of an image: a heading with the time, an empty line, and the
/// reference that embeds the image by its file name.
pub open spec fn image_note_of(heading_time: Seq<char>, image_name: Seq<char>) -> Seq<char> {
    "## Screenshot vom "@ + heading_time + "\n\n"@ + "![Screenshot]("@ + image_name + ")\n"@
}

/// The note of a text: a heading with the time, an empty line, and the
/// text as it is.
pub open spec fn text_note_of(heading_time: Seq<char>, text: Seq<char>) -> Seq<char> {
    "Text aus der Zwischenablage vom "@ + heading_time + "\n\n"@ + text
}

/// The preview of a text: its first hundred characters, followed by
/// three dots where the text takes more than a hundred bytes.
pub open spec fn preview_of(text: Seq<char>) -> Seq<char> {
    let head = if text.len() <= PREVIEW_CHARS {
        text
    } else {
        text.subrange(0, PREVIEW_CHARS as int)
    };
    if encode_utf8(text).len() > PREVIEW_CHARS {
        head + "..."@
    } else {
        head
    }
}

/// An entry of the log: the time in square brackets, a space, the
/// message, and the end of the line.
pub open spec fn log_entry_of(log_time: Seq<char>, message: Seq<char>) -> Seq<char> {
    "["@ + log_time + "] "@ + message + "\n"@
}

/// Writes the note of an image.
pub fn image_note(heading_time: &str, image_name: &str) -> (body: String)
    ensures
        body@ == image_note_of(heading_time@, image_name@),
{
    let mut body = String::from_str("## Screenshot vom ");
    body.append(heading_time);
    body.append("\n\n");
    body.append("![Screenshot](");
    body.append(image_name);
    body.append(")\n");
    body
}

/// Writes the note of a text.
pub fn text_note(heading_time: &str, text: &str) -> (body: String)
    ensures
        body@ == text_note_of(heading_time@, text@),
{
    let mut body = String::from_str("Text aus der Zwischenablage vom ");
    body.append(heading_time);
    body.append("\n\n");
    body.append(text);
    body
}

/// Writes the preview of a text.
pub fn text_preview(text: &str) -> (preview: String)
    ensures
        preview@ == preview_of(text@),
{
    let count = text.unicode_len();
    let mut preview = if count <= PREVIEW_CHARS {
        String::from_str(text)
    } else {
        String::from_str(text.substring_char(0, PREVIEW_CHARS))
    };
    if text.as_bytes().len() > PREVIEW_CHARS {
        preview.append("...");
    }
    preview
}

/// Writes an entry of the log.
pub fn log_entry(log_time: &str, message: &str) -> (line: String)
    ensures
        line@ == log_entry_of(log_time@, message@),
{
    let mut line = String::from_str("[");
    line.append(log_time);
    line.append("] ");
    line.append(message);
    line.append("\n");
    line
}

/// The note of an image names the image: the embedding reference with
/// the file name stands in it, right before the final line end, and the
/// heading stands at its start.
pub proof fn law_image_note_names_the_image(heading_time: Seq<char>, image_name: Seq<char>)
    ensures
        ("## Screenshot vom "@ + heading_time).is_prefix_of(
            image_note_of(heading_time, image_name),
        ),
        ("![Screenshot]("@ + image_name + ")\n"@).is_suffix_of(
            image_note_of(heading_time, image_name),
        ),
{
    let note = image_note_of(heading_time, image_name);
    let head = "## Screenshot vom "@ + heading_time;
    let tail = "![Screenshot]("@ + image_name + ")\n"@;
    assert(note.subrange(0, head.len() as int) =~= head);
    assert(note.subrange(note.len() - tail.len(), note.len() as int) =~= tail);
}

/// The note of a text holds the text unchanged at its end, after the
/// heading and an empty line.
pub proof fn law_text_note_keeps_the_text(heading_time: Seq<char>, text: Seq<char>)
    ensures
        ("Text aus der Zwischenablage vom "@ + heading_time + "\n\n"@).is_prefix_of(
            text_note_of(heading_time, text),
        ),
        text.is_suffix_of(text_note_of(heading_time, text)),
{
    let note = text_note_of(heading_time, text);
    let head = "Text aus der Zwischenablage vom "@ + heading_time + "\n\n"@;
    assert(note.subrange(0, head.len() as int) =~= head);
    assert(note.subrange(note.len() - text.len(), note.len() as int) =~= text);
}

} // verus!
