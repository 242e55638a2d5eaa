//! What a save writes. The monitor's caller creates directories and
//! files; this module says which, with what names and what content.

use crate::clock::{is_stamp, lemma_stamp_is_single_line, timestamp, StampStyle};
use crate::config::Config;
use crate::naming::{generate_unique_filename, is_generated_name, law_generated_name};
use crate::notes::{
    image_note, image_note_of, law_image_note_names_the_image, law_text_note_keeps_the_text,
    preview_of, text_note, text_note_of, text_preview,
};
use crate::paths::{join_path, joined, lemma_joined_name};
use crate::snapshot::ImageSnapshot;
use crate::text::{is_name_char, is_name_text, is_single_line};
use vstd::prelude::*;
use vstd::string::*;

verus! {

/// Why a save did not happen.
#[derive(Clone, Copy, Debug, PartialEq, Eq, Structural)]
pub enum SaveError {
    /// The target directory could not be created within the allowed
    /// attempts.
    Directory,
    /// The image could not be encoded.
    Encoding,
    /// A file could not be written.
    Write,
}

/// How a save ended.
#[derive(Clone, Copy, Debug, PartialEq, Eq, Structural)]
pub enum SaveOutcome {
    Saved,
    Failed(SaveError),
}

/// The files of one saved image: the encoded image and the note that
/// embeds it, both in the same directory.
#[derive(Debug)]
pub struct ImageArtifact {
    pub directory: String,
    pub image_name: String,
    pub image_bytes: Vec<u8>,
    pub note_name: String,
    pub note_body: String,
}

/// The file of one saved text, and the preview to show of it.
#[derive(Debug)]
pub struct TextArtifact {
    pub directory: String,
    pub note_name: String,
    pub note_body: String,
    pub preview: String,
}

/// The PNG file that the `image` crate writes for an image of the given
/// size with the given RGBA pixel bytes, or none where it reports an
/// error.
pub uninterp spec fn png_encoding(width: u32, height: u32, pixels: Seq<u8>) -> Option<Seq<u8>>;

/// Encodes RGBA pixels as a PNG file in memory: the buffer is handed to
/// `image::RgbaImage::from_raw` and written with `ImageBuffer::write_to`
/// in the format `ImageFormat::Png`. The contract gives the outcome a
/// name and claims nothing else of it; it admits only buffers that hold
/// all pixels, which `from_raw` accepts.
#[verifier::external_body]
fn encode_png(width: u32, height: u32, pixels: &[u8]) -> (encoded: Option<Vec<u8>>)
    requires
        4 * width * height <= pixels@.len(),
    ensures
        match encoded {
            Some(bytes) => png_encoding(width, height, pixels@) == Some(bytes@),
            None => png_encoding(width, height, pixels@) is None,
        },
{
    let image = image::RgbaImage::from_raw(width, height, pixels.to_vec())?;
    let mut file = std::io::Cursor::new(Vec::new());
    match image.write_to(&mut file, image::ImageFormat::Png) {
        Ok(()) => Some(file.into_inner()),
        Err(_) => None,
    }
}

impl ImageArtifact {
    /// The artifact is made of these parts: it lies in the directory of
    /// images, and its note is the note of its own image, which it names
    /// by the bare file name.
    pub open spec fn is_made_of(
        &self,
        config: &Config,
        image_name: Seq<char>,
        image_bytes: Seq<u8>,
        note_name: Seq<char>,
        heading_time: Seq<char>,
    ) -> bool {
        &&& self.directory@ == config.screenshots_path@
        &&& self.image_name@ == image_name
        &&& self.image_bytes@ == image_bytes
        &&& self.note_name@ == note_name
        &&& self.note_body@ == image_note_of(heading_time, image_name)
    }

    /// The artifact is a save of `snapshot` under `config`: the image is
    /// the PNG encoding of the snapshot, both names are generated names,
    /// and the note was written with a heading stamp.
    pub open spec fn is_save_of(&self, snapshot: &ImageSnapshot, config: &Config) -> bool {
        &&& snapshot.is_complete()
        &&& png_encoding(snapshot.width as u32, snapshot.height as u32, snapshot.pixels@) == Some(
            self.image_bytes@,
        )
        &&& is_generated_name(self.image_name@, "clipboard_image"@, ".png"@)
        &&& is_generated_name(self.note_name@, "Screenshot"@, ".md"@)
        &&& exists|heading_time: Seq<char>|
            is_stamp(StampStyle::Heading, heading_time) && #[trigger] self.is_made_of(
                config,
                self.image_name@,
                self.image_bytes@,
                self.note_name@,
                heading_time,
            )
    }

    /// Puts an image artifact together.
    pub fn assemble(
        config: &Config,
        image_name: String,
        image_bytes: Vec<u8>,
        note_name: String,
        heading_time: &str,
    ) -> (artifact: ImageArtifact)
        ensures
            artifact.is_made_of(config, image_name@, image_bytes@, note_name@, heading_time@),
    {
        let note_body = image_note(heading_time, image_name.as_str());
        ImageArtifact {
            directory: config.screenshots_path.clone(),
            image_name,
            image_bytes,
            note_name,
            note_body,
        }
    }

    /// Where the image goes.
    pub fn image_path(&self) -> (path: String)
        ensures
            path@ == joined(self.directory@, self.image_name@),
    {
        join_path(self.directory.as_str(), self.image_name.as_str())
    }

    /// Where the note goes.
    pub fn note_path(&self) -> (path: String)
        ensures
            path@ == joined(self.directory@, self.note_name@),
    {
        join_path(self.directory.as_str(), self.note_name.as_str())
    }
}

impl TextArtifact {
    /// The artifact is made of these parts: it lies in the directory of
    /// notes and holds the note and the preview of the text.
    pub open spec fn is_made_of(
        &self,
        config: &Config,
        note_name: Seq<char>,
        heading_time: Seq<char>,
        text: Seq<char>,
    ) -> bool {
        &&& self.directory@ == config.notes_path@
        &&& self.note_name@ == note_name
        &&& self.note_body@ == text_note_of(heading_time, text)
        &&& self.preview@ == preview_of(text)
    }

    /// The artifact is a save of `text` under `config`: the name is a
    /// generated name and the note was written with a heading stamp.
    pub open spec fn is_save_of(&self, text: Seq<char>, config: &Config) -> bool {
        &&& is_generated_name(self.note_name@, "clipboard_text"@, ".md"@)
        &&& exists|heading_time: Seq<char>|
            is_stamp(StampStyle::Heading, heading_time) && #[trigger] self.is_made_of(
                config,
                self.note_name@,
                heading_time,
                text,
            )
    }

    /// Puts a text artifact together.
    pub fn assemble(config: &Config, note_name: String, heading_time: &str, text: &str) -> (artifact:
        TextArtifact)
        ensures
            artifact.is_made_of(config, note_name@, heading_time@, text@),
    {
        TextArtifact {
            directory: config.notes_path.clone(),
            note_name,
            note_body: text_note(heading_time, text),
            preview: text_preview(text),
        }
    }

    /// Where the note goes.
    pub fn note_path(&self) -> (path: String)
        ensures
            path@ == joined(self.directory@, self.note_name@),
    {
        join_path(self.directory.as_str(), self.note_name.as_str())
    }
}

/// Prepares the save of an image: encodes it, names the image and its
/// note, and writes the note. Fails, with `Encoding`, exactly when the
/// snapshot does not hold all its pixels or cannot be encoded.
pub fn prepare_image_save(snapshot: &ImageSnapshot, config: &Config) -> (prepared: Result<
    ImageArtifact,
    SaveError,
>)
    ensures
        match prepared {
            Ok(artifact) => artifact.is_save_of(snapshot, config),
            Err(error) => {
                &&& error == SaveError::Encoding
                &&& {
                    ||| !snapshot.is_complete()
                    ||| png_encoding(
                        snapshot.width as u32,
                        snapshot.height as u32,
                        snapshot.pixels@,
                    ) is None
                }
            },
        },
{
    if !snapshot.complete() {
        return Err(SaveError::Encoding);
    }
    let width = snapshot.width as u32;
    let height = snapshot.height as u32;
    match encode_png(width, height, snapshot.pixels.as_slice()) {
        Some(image_bytes) => {
            let heading_time = timestamp(StampStyle::Heading);
            let image_name = generate_unique_filename("clipboard_image", ".png");
            let note_name = generate_unique_filename("Screenshot", ".md");
            Ok(
                ImageArtifact::assemble(
                    config,
                    image_name,
                    image_bytes,
                    note_name,
                    heading_time.as_str(),
                ),
            )
        },
        None => Err(SaveError::Encoding),
    }
}

/// Prepares the save of a text: names the note, writes it, and cuts the
/// preview.
pub fn prepare_text_save(text: &str, config: &Config) -> (artifact: TextArtifact)
    ensures
        artifact.is_save_of(text@, config),
{
    let heading_time = timestamp(StampStyle::Heading);
    let note_name = generate_unique_filename("clipboard_text", ".md");
    TextArtifact::assemble(config, note_name, heading_time.as_str(), text)
}

/// A generated name that is joined to a directory stays in it: the path
/// is the directory, a separator where the directory does not end with
/// one, and the name.
proof fn lemma_generated_name_in_directory(
    name: Seq<char>,
    prefix: Seq<char>,
    extension: Seq<char>,
    directory: Seq<char>,
)
    requires
        is_generated_name(name, prefix, extension),
        is_name_text(prefix),
        is_name_text(extension),
    ensures
        is_name_text(name),
        extension.is_suffix_of(name),
        directory.is_prefix_of(joined(directory, name)),
        name.is_suffix_of(joined(directory, name)),
{
    law_generated_name(name, prefix, extension);
    assert forall|i: int| 0 <= i < name.len() implies #[trigger] name[i] != '/' by {
        assert(is_name_char(name[i]));
    }
    lemma_joined_name(directory, name);
}

/// Every saved image comes with a note that embeds it by its bare file
/// name. The image is a `.png` file and the note a `.md` file, both
/// with valid file names and both in the directory of images.
pub proof fn law_image_has_its_note(
    artifact: ImageArtifact,
    snapshot: ImageSnapshot,
    config: Config,
)
    requires
        artifact.is_save_of(&snapshot, &config),
    ensures
        ("![Screenshot]("@ + artifact.image_name@ + ")\n"@).is_suffix_of(artifact.note_body@),
        "## Screenshot vom "@.is_prefix_of(artifact.note_body@),
        exists|heading_time: Seq<char>|
            is_single_line(heading_time) && artifact.note_body@ == #[trigger] image_note_of(
                heading_time,
                artifact.image_name@,
            ),
        ".png"@.is_suffix_of(artifact.image_name@),
        ".md"@.is_suffix_of(artifact.note_name@),
        is_name_text(artifact.image_name@),
        is_name_text(artifact.note_name@),
        artifact.directory@ == config.screenshots_path@,
        config.screenshots_path@.is_prefix_of(joined(artifact.directory@, artifact.image_name@)),
        config.screenshots_path@.is_prefix_of(joined(artifact.directory@, artifact.note_name@)),
        artifact.image_name@.is_suffix_of(joined(artifact.directory@, artifact.image_name@)),
        artifact.note_name@.is_suffix_of(joined(artifact.directory@, artifact.note_name@)),
{
    reveal_strlit("clipboard_image");
    reveal_strlit("Screenshot");
    reveal_strlit(".png");
    reveal_strlit(".md");
    let heading_time = choose|heading_time: Seq<char>|
        is_stamp(StampStyle::Heading, heading_time) && #[trigger] artifact.is_made_of(
            &config,
            artifact.image_name@,
            artifact.image_bytes@,
            artifact.note_name@,
            heading_time,
        );
    law_image_note_names_the_image(heading_time, artifact.image_name@);
    lemma_stamp_is_single_line(StampStyle::Heading, heading_time);
    let note = artifact.note_body@;
    assert("## Screenshot vom "@.is_prefix_of(note)) by {
        assert(note.subrange(0, "## Screenshot vom "@.len() as int) =~= "## Screenshot vom "@);
    }
    lemma_generated_name_in_directory(
        artifact.image_name@,
        "clipboard_image"@,
        ".png"@,
        artifact.directory@,
    );
    lemma_generated_name_in_directory(
        artifact.note_name@,
        "Screenshot"@,
        ".md"@,
        artifact.directory@,
    );
}

/// Every saved text is a `.md` file in the directory of notes whose
/// content ends with the text itself, unchanged, after a heading line
/// and an empty line.
pub proof fn law_text_note_holds_the_text(artifact: TextArtifact, text: Seq<char>, config: Config)
    requires
        artifact.is_save_of(text, &config),
    ensures
        text.is_suffix_of(artifact.note_body@),
        "Text aus der Zwischenablage vom "@.is_prefix_of(artifact.note_body@),
        exists|heading_time: Seq<char>|
            is_single_line(heading_time) && artifact.note_body@ == #[trigger] text_note_of(
                heading_time,
                text,
            ),
        artifact.preview@ == preview_of(text),
        ".md"@.is_suffix_of(artifact.note_name@),
        is_name_text(artifact.note_name@),
        artifact.directory@ == config.notes_path@,
        config.notes_path@.is_prefix_of(joined(artifact.directory@, artifact.note_name@)),
        artifact.note_name@.is_suffix_of(joined(artifact.directory@, artifact.note_name@)),
{
    reveal_strlit("clipboard_text");
    reveal_strlit(".md");
    let heading_time = choose|heading_time: Seq<char>|
        is_stamp(StampStyle::Heading, heading_time) && #[trigger] artifact.is_made_of(
            &config,
            artifact.note_name@,
            heading_time,
            text,
        );
    law_text_note_keeps_the_text(heading_time, text);
    lemma_stamp_is_single_line(StampStyle::Heading, heading_time);
    let note = artifact.note_body@;
    let head = "Text aus der Zwischenablage vom "@;
    assert(head.is_prefix_of(note)) by {
        assert(note.subrange(0, head.len() as int) =~= head);
    }
    lemma_generated_name_in_directory(
        artifact.note_name@,
        "clipboard_text"@,
        ".md"@,
        artifact.directory@,
    );
}

} // verus!
