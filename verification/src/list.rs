use vstd::prelude::*;

verus! {

/// Whether an entry of an editor list is offered to the other editors.
#[derive(Debug, Clone, Copy, PartialEq, Eq, Structural)]
pub enum EntryStatus {
    Active,
    Hidden,
}

impl EntryStatus {
    pub fn is_active(&self) -> (active: bool)
        ensures
            active <==> *self == EntryStatus::Active,
    {
        match self {
            EntryStatus::Active => true,
            EntryStatus::Hidden => false,
        }
    }
}

} // verus!
