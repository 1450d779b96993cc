use vstd::prelude::*;

use crate::attack::{AttackConstructor, AttackKind, AttackOrder};
use crate::text::{parse_u128, parsed_u128};

verus! {

/// A request to the page of one attack.
#[derive(Debug, Clone)]
pub enum Message {
    ReadFile,
    WriteFile,
    ChangeName(String),
    ChangeDelay(String),
    ChangeTimeToComplete(String),
    ChangeAftercast(String),
    ChangeOrder(AttackOrder),
    ChangeRangeFrom(String),
    ChangeRangeTo(String),
    ChangeWidthAngle(String),
    ChangeKind(AttackKind),
}

/// A setting of an attack that is kept in floating point.
#[derive(Debug, Clone, Copy, PartialEq, Eq, Structural)]
pub enum GeometryField {
    RangeFrom,
    RangeTo,
    WidthAngle,
}

/// What the caller must do after the page handled a request.
#[derive(Debug, Clone)]
pub enum Request {
    /// Read the attack again from its file.
    Reload,
    /// Write the attack to its file, and give its entry in the list of
    /// attacks the attack's name.
    SaveAndRename,
    /// Read the text as a number and, if it is one, make it the setting.
    SetGeometry(GeometryField, String),
}

/// The number in `text`, or `current` when the text is not one.
pub open spec fn typed_or(text: Seq<char>, current: u128) -> u128 {
    match parsed_u128(text) {
        Some(v) => v,
        None => current,
    }
}

/// The page that edits attack `id`.
#[derive(Debug)]
pub struct Page<G> {
    pub id: u32,
    pub data: AttackConstructor<G>,
}

impl<G> Page<G> {
    /// The page for attack `id` read from its file.
    pub fn load_by_id(id: u32, data: AttackConstructor<G>) -> (page: Self)
        ensures
            page.id == id,
            page.data == data,
    {
        Page { id, data }
    }

    /// Handles a request: names, choices and whole numbers are set here (a
    /// number typed that is not one changes nothing); the floating point
    /// settings are handed to the caller.
    pub fn update(&mut self, message: Message) -> (request: Option<Request>)
        ensures
            final(self).id == old(self).id,
            match message {
                Message::ReadFile => {
                    &&& request == Some(Request::Reload)
                    &&& final(self).data == old(self).data
                },
                Message::WriteFile => {
                    &&& request == Some(Request::SaveAndRename)
                    &&& final(self).data == old(self).data
                },
                Message::ChangeName(name) => {
                    &&& request is None
                    &&& final(self).data == (AttackConstructor { name, ..old(self).data })
                },
                Message::ChangeDelay(text) => {
                    &&& request is None
                    &&& final(self).data == (AttackConstructor {
                        delay: typed_or(text@, old(self).data.delay),
                        ..old(self).data
                    })
                },
                Message::ChangeTimeToComplete(text) => {
                    &&& request is None
                    &&& final(self).data == (AttackConstructor {
                        time_to_complete: typed_or(text@, old(self).data.time_to_complete),
                        ..old(self).data
                    })
                },
                Message::ChangeAftercast(text) => {
                    &&& request is None
                    &&& final(self).data == (AttackConstructor {
                        aftercast: typed_or(text@, old(self).data.aftercast),
                        ..old(self).data
                    })
                },
                Message::ChangeOrder(order) => {
                    &&& request is None
                    &&& final(self).data == (AttackConstructor { order, ..old(self).data })
                },
                Message::ChangeRangeFrom(text) => {
                    &&& request == Some(Request::SetGeometry(GeometryField::RangeFrom, text))
                    &&& final(self).data == old(self).data
                },
                Message::ChangeRangeTo(text) => {
                    &&& request == Some(Request::SetGeometry(GeometryField::RangeTo, text))
                    &&& final(self).data == old(self).data
                },
                Message::ChangeWidthAngle(text) => {
                    &&& request == Some(Request::SetGeometry(GeometryField::WidthAngle, text))
                    &&& final(self).data == old(self).data
                },
                Message::ChangeKind(kind) => {
                    &&& request is None
                    &&& final(self).data == (AttackConstructor { kind, ..old(self).data })
                },
            },
    {
        match message {
            Message::ReadFile => Some(Request::Reload),
            Message::WriteFile => Some(Request::SaveAndRename),
            Message::ChangeName(value) => {
                self.data.name = value;
                None
            },
            Message::ChangeDelay(value) => {
                if let Some(parsed) = parse_u128(value.as_str()) {
                    self.data.delay = parsed;
                }
                None
            },
            Message::ChangeTimeToComplete(value) => {
                if let Some(parsed) = parse_u128(value.as_str()) {
                    self.data.time_to_complete = parsed;
                }
                None
            },
            Message::ChangeAftercast(value) => {
                if let Some(parsed) = parse_u128(value.as_str()) {
                    self.data.aftercast = parsed;
                }
                None
            },
            Message::ChangeOrder(order) => {
                self.data.order = order;
                None
            },
            Message::ChangeRangeFrom(value) => Some(
                Request::SetGeometry(GeometryField::RangeFrom, value),
            ),
            Message::ChangeRangeTo(value) => Some(
                Request::SetGeometry(GeometryField::RangeTo, value),
            ),
            Message::ChangeWidthAngle(value) => Some(
                Request::SetGeometry(GeometryField::WidthAngle, value),
            ),
            Message::ChangeKind(kind) => {
                self.data.kind = kind;
                None
            },
        }
    }

    /// Takes the attack read again from its file.
    pub fn reload(&mut self, data: AttackConstructor<G>)
        ensures
            final(self).id == old(self).id,
            final(self).data == data,
    {
        self.data = data;
    }
}

} // verus!
