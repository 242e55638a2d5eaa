//! The configuration of one run: where images and notes go. On the first
//! run the directories are the user's picks, or defaults below the home
//! directory where nothing was picked.

use crate::clock::{is_stamp, timestamp, StampStyle};
use crate::paths::{join_path, joined};
use crate::text::{trim_end, trimmed_end};
use vstd::prelude::*;
use vstd::string::*;
use vstd::utf8::{decode_utf8, valid_utf8};

verus! {

/// The two target directories and the time the configuration was made.
#[derive(Debug)]
pub struct Config {
    pub screenshots_path: String,
    pub notes_path: String,
    pub last_updated: String,
}

/// What a directory picker left behind: whether it ran and ended well,
/// and the bytes it printed.
#[derive(Debug)]
pub struct PickerOutput {
    pub succeeded: bool,
    pub printed: Vec<u8>,
}

/// The default directory of images below `home`.
pub open spec fn default_screenshots_of(home: Seq<char>) -> Seq<char> {
    joined(home, "Nextcloud/Obsy/Screenshots"@)
}

/// The default directory of notes below `home`.
pub open spec fn default_notes_of(home: Seq<char>) -> Seq<char> {
    joined(home, "Nextcloud/Obsy/Notes"@)
}

/// The place of the configuration file below `home`.
pub open spec fn config_path_of(home: Seq<char>) -> Seq<char> {
    joined(home, ".config/clipboard-monitor/config.json"@)
}

/// The place of the log below `home`.
pub open spec fn log_path_of(home: Seq<char>) -> Seq<char> {
    joined(home, "bin/watch_clipboard_debug.txt"@)
}

/// The directory that a picker's output names: the text printed, without
/// the white space at its end, if the picker ended well and printed
/// UTF-8; otherwise none.
pub open spec fn picked_directory_of(output: PickerOutput) -> Option<Seq<char>> {
    if output.succeeded && valid_utf8(output.printed@) {
        Some(trimmed_end(decode_utf8(output.printed@)))
    } else {
        None
    }
}

/// A directory after a picker ran: the pick, or the directory as it was.
pub open spec fn chosen_of(current: Seq<char>, output: PickerOutput) -> Seq<char> {
    match picked_directory_of(output) {
        Some(directory) => directory,
        None => current,
    }
}

/// Reads bytes as text with `core::str::from_utf8`, which accepts
/// exactly the well-formed UTF-8 sequences and decodes them as they
/// stand.
#[verifier::external_body]
fn decode_text(bytes: &[u8]) -> (text: Option<String>)
    ensures
        text is Some <==> valid_utf8(bytes@),
        text matches Some(decoded) ==> decoded@ == decode_utf8(bytes@),
{
    match core::str::from_utf8(bytes) {
        Ok(text) => Some(text.to_string()),
        Err(_) => None,
    }
}

/// The default directory of images below `home`.
pub fn default_screenshots_path(home: &str) -> (path: String)
    ensures
        path@ == default_screenshots_of(home@),
{
    join_path(home, "Nextcloud/Obsy/Screenshots")
}

/// The default directory of notes below `home`.
pub fn default_notes_path(home: &str) -> (path: String)
    ensures
        path@ == default_notes_of(home@),
{
    join_path(home, "Nextcloud/Obsy/Notes")
}

/// The place of the configuration file below `home`.
pub fn get_config_path(home: &str) -> (path: String)
    ensures
        path@ == config_path_of(home@),
{
    join_path(home, ".config/clipboard-monitor/config.json")
}

/// The place of the log below `home`.
pub fn get_log_path(home: &str) -> (path: String)
    ensures
        path@ == log_path_of(home@),
{
    join_path(home, "bin/watch_clipboard_debug.txt")
}

/// The directory that a picker's output names, if any.
pub fn picked_directory(output: &PickerOutput) -> (directory: Option<String>)
    ensures
        match directory {
            Some(d) => picked_directory_of(*output) == Some(d@),
            None => picked_directory_of(*output) is None,
        },
{
    if !output.succeeded {
        return None;
    }
    match decode_text(output.printed.as_slice()) {
        Some(printed) => Some(trim_end(printed.as_str())),
        None => None,
    }
}

impl Config {
    /// Both directories are the defaults below `home`.
    pub open spec fn has_defaults(&self, home: Seq<char>) -> bool {
        &&& self.screenshots_path@ == default_screenshots_of(home)
        &&& self.notes_path@ == default_notes_of(home)
    }

    /// The default configuration below `home`, made at the time given.
    pub fn with_defaults(home: &str, last_updated: String) -> (config: Config)
        ensures
            config.has_defaults(home@),
            config.last_updated == last_updated,
    {
        Config {
            screenshots_path: default_screenshots_path(home),
            notes_path: default_notes_path(home),
            last_updated,
        }
    }

    /// The default configuration below `home`, made now.
    pub fn new(home: &str) -> (config: Config)
        ensures
            config.has_defaults(home@),
            is_stamp(StampStyle::Log, config.last_updated@),
    {
        Config::with_defaults(home, timestamp(StampStyle::Log))
    }

    /// Takes the picker's directory for the images, if it names one.
    pub fn choose_screenshots(&mut self, output: &PickerOutput)
        ensures
            final(self).screenshots_path@ == chosen_of(old(self).screenshots_path@, *output),
            final(self).notes_path == old(self).notes_path,
            final(self).last_updated == old(self).last_updated,
    {
        match picked_directory(output) {
            Some(directory) => {
                self.screenshots_path = directory;
            },
            None => {},
        }
    }

    /// Takes the picker's directory for the notes, if it names one.
    pub fn choose_notes(&mut self, output: &PickerOutput)
        ensures
            final(self).notes_path@ == chosen_of(old(self).notes_path@, *output),
            final(self).screenshots_path == old(self).screenshots_path,
            final(self).last_updated == old(self).last_updated,
    {
        match picked_directory(output) {
            Some(directory) => {
                self.notes_path = directory;
            },
            None => {},
        }
    }

    /// The configuration of a first run: each directory is the user's
    /// pick, or the default below `home` where the picker named none.
    pub fn first_run(home: &str, screenshots: &PickerOutput, notes: &PickerOutput) -> (config:
        Config)
        ensures
            config.screenshots_path@ == chosen_of(default_screenshots_of(home@), *screenshots),
            config.notes_path@ == chosen_of(default_notes_of(home@), *notes),
            is_stamp(StampStyle::Log, config.last_updated@),
    {
        let mut config = Config::new(home);
        config.choose_screenshots(screenshots);
        config.choose_notes(notes);
        config
    }
}

} // verus!
