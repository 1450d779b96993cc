//! The logic of the editor of abilities, enemies, levels, characters and
//! resources; the editor's windows and its files are the caller's.

pub mod attack;
pub mod attack_file;
pub mod character;
pub mod level_item;
pub mod npc_item;
pub mod resource_item;

use vstd::prelude::*;

verus! {

/// The kinds of things the editor edits.
#[derive(Debug, Clone, Copy, PartialEq, Eq, Structural)]
pub enum EditorKind {
    Attack,
    Npc,
    Level,
    Character,
    Resource,
}

pub open spec fn editor_kind_label(kind: EditorKind) -> Seq<char> {
    match kind {
        EditorKind::Attack => "Attack"@,
        EditorKind::Npc => "Npc"@,
        EditorKind::Level => "Level"@,
        EditorKind::Character => "Character"@,
        EditorKind::Resource => "Resource"@,
    }
}

impl EditorKind {
    /// The text of the button that selects the kind.
    pub fn label(&self) -> (text: &'static str)
        ensures
            text@ == editor_kind_label(*self),
    {
        match self {
            EditorKind::Attack => "Attack",
            EditorKind::Npc => "Npc",
            EditorKind::Level => "Level",
            EditorKind::Character => "Character",
            EditorKind::Resource => "Resource",
        }
    }
}

/// The page the editor shows: none yet, or the page of one kind.
pub enum EditorState<A, N, L, C, R> {
    NotSelected,
    Attack(A),
    Npc(N),
    Level(L),
    Character(C),
    Resource(R),
}

impl<A, N, L, C, R> EditorState<A, N, L, C, R> {
    /// The kind whose page is shown, if any.
    pub fn selected_kind(&self) -> (kind: Option<EditorKind>)
        ensures
            kind == match *self {
                EditorState::NotSelected => None::<EditorKind>,
                EditorState::Attack(_) => Some(EditorKind::Attack),
                EditorState::Npc(_) => Some(EditorKind::Npc),
                EditorState::Level(_) => Some(EditorKind::Level),
                EditorState::Character(_) => Some(EditorKind::Character),
                EditorState::Resource(_) => Some(EditorKind::Resource),
            },
    {
        match self {
            EditorState::NotSelected => None,
            EditorState::Attack(_) => Some(EditorKind::Attack),
            EditorState::Npc(_) => Some(EditorKind::Npc),
            EditorState::Level(_) => Some(EditorKind::Level),
            EditorState::Character(_) => Some(EditorKind::Character),
            EditorState::Resource(_) => Some(EditorKind::Resource),
        }
    }
}

/// Whether the button of `kind` is drawn as the selected one: only when the
/// page of that kind is shown.
pub fn is_selected(kind: EditorKind, selected: Option<EditorKind>) -> (chosen: bool)
    ensures
        chosen <==> selected == Some(kind),
{
    match selected {
        Some(k) => k == kind,
        None => false,
    }
}

} // verus!
