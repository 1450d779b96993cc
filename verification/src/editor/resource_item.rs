use vstd::prelude::*;

use crate::resource::ResourceConstructor;

verus! {

/// A request to the resource page.
#[derive(Debug, Clone)]
pub enum Message {
    ReadFile,
    WriteFile,
    ChangeName(String),
}

/// What the caller must do after the page handled a request.
#[derive(Debug, Clone, Copy, PartialEq, Eq, Structural)]
pub enum Request {
    /// Read the resource again from its file.
    Reload,
    /// Write the resource to its file and give its entry in the list of
    /// resources the resource's name.
    SaveAndRename,
}

/// The page that edits resource `id`.
pub struct Page {
    pub id: u32,
    pub data: ResourceConstructor,
}

impl Page {
    pub fn load_by_id(id: u32, data: ResourceConstructor) -> (page: Self)
        ensures
            page.id == id,
            page.data == data,
    {
        Page { id, data }
    }

    /// Handles a request.
    pub fn update(&mut self, message: Message) -> (request: Option<Request>)
        ensures
            final(self).id == old(self).id,
            match message {
                Message::ReadFile => {
                    &&& request == Some(Request::Reload)
                    &&& final(self).data == old(self).data
                },
                Message::WriteFile => {
                    &&& request == Some(Request::SaveAndRename)
                    &&& final(self).data == old(self).data
                },
                Message::ChangeName(name) => {
                    &&& request is None
                    &&& final(self).data.name == name
                },
            },
    {
        match message {
            Message::ReadFile => Some(Request::Reload),
            Message::WriteFile => Some(Request::SaveAndRename),
            Message::ChangeName(value) => {
                self.data.rename(value);
                None
            },
        }
    }

    /// Takes the resource read again from its file.
    pub fn reload(&mut self, data: ResourceConstructor)
        ensures
            final(self).data == data,
            final(self).id == old(self).id,
    {
        self.data = data;
    }
}

} // verus!
