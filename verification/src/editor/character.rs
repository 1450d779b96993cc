use vstd::prelude::*;

use crate::character::{character_file_path, character_file_path_of, CharacterSettings};
use crate::text::{parse_u128, parsed_u128};

verus! {

/// The file of the settings of character `id`.
pub fn get_item_file_path(id: u32) -> (path: String)
    ensures
        path@ == character_file_path_of(id),
{
    character_file_path(id)
}

/// The one character the editor edits for now.
pub const EDITED_CHARACTER: u32 = 1;

/// A request to the character page.
#[derive(Debug, Clone)]
pub enum Message {
    ReadFile,
    WriteFile,
    ChangeDashDuration(String),
    ChangeDashDistance(String),
}

/// What the caller must do after the page handled a request.
#[derive(Debug, Clone, Copy, PartialEq, Eq, Structural)]
pub enum Request {
    /// Read the settings again from the file of the character.
    Reload,
    /// Write the settings to the file of character `id`.
    Save(u32),
}

/// The page that edits the settings of the character.
#[derive(Debug)]
pub struct Page {
    pub item: CharacterSettings,
}

/// The page as it opens: the settings read from the file, or the defaults
/// when there are none.
pub fn load_state(saved: Option<CharacterSettings>) -> (page: Page)
    ensures
        page.item == (match saved {
            Some(settings) => settings,
            None => CharacterSettings { dash_duration: 0, dash_distance: 0 },
        }),
{
    match saved {
        Some(item) => Page { item },
        None => Page { item: CharacterSettings::default() },
    }
}

impl Page {
    /// Takes the settings read again from the file, or the defaults.
    pub fn reload(&mut self, saved: Option<CharacterSettings>)
        ensures
            final(self).item == (match saved {
                Some(settings) => settings,
                None => CharacterSettings { dash_duration: 0, dash_distance: 0 },
            }),
    {
        *self = load_state(saved);
    }

    /// Handles a request; a number typed that is not one leaves the setting
    /// as it was.
    pub fn update(&mut self, message: Message) -> (request: Option<Request>)
        ensures
            match message {
                Message::ReadFile => {
                    &&& request == Some(Request::Reload)
                    &&& final(self).item == old(self).item
                },
                Message::WriteFile => {
                    &&& request == Some(Request::Save(EDITED_CHARACTER))
                    &&& final(self).item == old(self).item
                },
                Message::ChangeDashDuration(text) => {
                    &&& request is None
                    &&& final(self).item == (CharacterSettings {
                        dash_duration: match parsed_u128(text@) {
                            Some(v) => v,
                            None => old(self).item.dash_duration,
                        },
                        ..old(self).item
                    })
                },
                Message::ChangeDashDistance(text) => {
                    &&& request is None
                    &&& final(self).item == (CharacterSettings {
                        dash_distance: match parsed_u128(text@) {
                            Some(v) => v,
                            None => old(self).item.dash_distance,
                        },
                        ..old(self).item
                    })
                },
            },
    {
        match message {
            Message::ReadFile => Some(Request::Reload),
            Message::WriteFile => Some(Request::Save(EDITED_CHARACTER)),
            Message::ChangeDashDuration(value) => {
                if let Some(parsed) = parse_u128(value.as_str()) {
                    self.item.dash_duration = parsed;
                }
                None
            },
            Message::ChangeDashDistance(value) => {
                if let Some(parsed) = parse_u128(value.as_str()) {
                    self.item.dash_distance = parsed;
                }
                None
            },
        }
    }
}

} // verus!
