pub mod item;

use vstd::prelude::*;

use crate::list::EntryStatus;
use crate::npc::NpcAttackInfo;
use crate::text::{decimal, push_decimal};

verus! {

/// Where the attack files live.
pub open spec fn attack_folder() -> Seq<char> {
    "../data/attack/"@
}

/// The file of attack `id`. The folder path already ends in `/` and one more
/// is put in front of the file name, so the path holds `//`.
pub open spec fn attack_file_path(id: u32) -> Seq<char> {
    attack_folder() + "/attack_"@ + decimal(id as nat) + ".json"@
}

pub fn get_item_file_path(id: u32) -> (path: String)
    ensures
        path@ == attack_file_path(id),
{
    let mut path = String::new();
    path.append("../data/attack/");
    path.append("/attack_");
    push_decimal(&mut path, id as u128);
    path.append(".json");
    assert(path@ =~= attack_file_path(id));
    path
}

/// The file of the list of attacks.
pub fn list_file_path() -> (path: String)
    ensures
        path@ == attack_folder() + "list.json"@,
{
    let mut path = String::new();
    path.append("../data/attack/");
    path.append("list.json");
    path
}

/// An entry of the list of attacks.
#[derive(Debug)]
pub struct AttackInfo {
    pub id: u32,
    pub name: String,
    pub status: EntryStatus,
}

impl Clone for AttackInfo {
    fn clone(&self) -> (copy: Self)
        ensures
            copy == *self,
    {
        AttackInfo { id: self.id, name: self.name.clone(), status: self.status }
    }
}

/// The list of attacks, and the highest id handed out.
#[derive(Debug)]
pub struct AttackList {
    pub last_id: u32,
    pub list: Vec<AttackInfo>,
}

impl Default for AttackList {
    fn default() -> (data: Self)
        ensures
            data.last_id == 0,
            data.list@ == Seq::<AttackInfo>::empty(),
    {
        AttackList { last_id: 0, list: Vec::new() }
    }
}

/// `i` is the first index of `list` with id `id`.
pub open spec fn is_first_with_id(list: Seq<AttackInfo>, id: u32, i: int) -> bool {
    &&& 0 <= i < list.len()
    &&& list[i].id == id
    &&& forall|j: int| 0 <= j < i ==> list[j].id != id
}

/// The first index of `list` with id `id`, if any.
pub open spec fn first_with_id(list: Seq<AttackInfo>, id: u32) -> Option<int> {
    if exists|i: int| is_first_with_id(list, id, i) {
        Some(choose|i: int| is_first_with_id(list, id, i))
    } else {
        None
    }
}

proof fn lemma_first_with_id(list: Seq<AttackInfo>, id: u32, i: int)
    requires
        is_first_with_id(list, id, i),
    ensures
        first_with_id(list, id) == Some(i),
{
    let k: int = choose|k: int| is_first_with_id(list, id, k);
    assert(is_first_with_id(list, id, k));
    if k < i {
        assert(list[k].id != id);
    } else if i < k {
        assert(list[i].id != id);
    }
}

/// The highest id in `list`, or 0 for an empty list.
pub open spec fn max_id(list: Seq<AttackInfo>) -> u32
    decreases list.len(),
{
    if list.len() == 0 {
        0
    } else {
        let rest = max_id(list.drop_last());
        if list.last().id > rest {
            list.last().id
        } else {
            rest
        }
    }
}

/// Law: the highest id is one of the ids of a non-empty list, and no id
/// is higher.
pub proof fn lemma_max_id(list: Seq<AttackInfo>)
    ensures
        forall|i: int| 0 <= i < list.len() ==> list[i].id <= max_id(list),
        list.len() > 0 ==> exists|i: int| 0 <= i < list.len() && list[i].id == max_id(list),
    decreases list.len(),
{
    if list.len() > 0 {
        let rest = list.drop_last();
        lemma_max_id(rest);
        assert forall|i: int| 0 <= i < list.len() implies list[i].id <= max_id(list) by {
            if i < list.len() - 1 {
                assert(list[i] == rest[i]);
            }
        }
        if list.last().id <= max_id(rest) && rest.len() > 0 {
            let j: int = choose|j: int| 0 <= j < rest.len() && rest[j].id == max_id(rest);
            assert(list[j] == rest[j]);
        }
    }
}

/// The entry with its status set.
pub open spec fn with_status(entry: AttackInfo, status: EntryStatus) -> AttackInfo {
    AttackInfo { status, ..entry }
}

/// The index of the first entry with id `id`, if any.
pub fn find_entry(list: &Vec<AttackInfo>, id: u32) -> (found: Option<usize>)
    ensures
        match found {
            Some(i) => first_with_id(list@, id) == Some(i as int),
            None => first_with_id(list@, id) is None,
        },
{
    let mut i: usize = 0;
    while i < list.len()
        invariant
            i <= list@.len(),
            forall|j: int| 0 <= j < i ==> list@[j].id != id,
        decreases list@.len() - i,
    {
        if list[i].id == id {
            proof {
                lemma_first_with_id(list@, id, i as int);
            }
            return Some(i);
        }
        i = i + 1;
    }
    assert(!exists|k: int| is_first_with_id(list@, id, k));
    None
}

fn set_status(list: &mut Vec<AttackInfo>, i: usize, status: EntryStatus)
    requires
        i < old(list)@.len(),
    ensures
        final(list)@ == old(list)@.update(i as int, with_status(old(list)@[i as int], status)),
{
    let entry = AttackInfo { id: list[i].id, name: list[i].name.clone(), status };
    list.set(i, entry);
}

impl AttackList {
    /// Shows the first entry with id `id` to the other editors; says whether
    /// anything changed (and the list must be saved).
    pub fn show_entry(&mut self, id: u32) -> (changed: bool)
        ensures
            final(self).last_id == old(self).last_id,
            match first_with_id(old(self).list@, id) {
                Some(i) => if old(self).list@[i].status == EntryStatus::Active {
                    !changed && final(self).list@ == old(self).list@
                } else {
                    changed && final(self).list@ == old(self).list@.update(
                        i,
                        with_status(old(self).list@[i], EntryStatus::Active),
                    )
                },
                None => !changed && final(self).list@ == old(self).list@,
            },
    {
        match find_entry(&self.list, id) {
            None => false,
            Some(i) => {
                if self.list[i].status.is_active() {
                    return false;
                }
                set_status(&mut self.list, i, EntryStatus::Active);
                true
            },
        }
    }

    /// Hides the first entry with id `id` from the other editors; says
    /// whether anything changed (and the list must be saved).
    pub fn hide_entry(&mut self, id: u32) -> (changed: bool)
        ensures
            final(self).last_id == old(self).last_id,
            match first_with_id(old(self).list@, id) {
                Some(i) => if old(self).list@[i].status == EntryStatus::Hidden {
                    !changed && final(self).list@ == old(self).list@
                } else {
                    changed && final(self).list@ == old(self).list@.update(
                        i,
                        with_status(old(self).list@[i], EntryStatus::Hidden),
                    )
                },
                None => !changed && final(self).list@ == old(self).list@,
            },
    {
        match find_entry(&self.list, id) {
            None => false,
            Some(i) => {
                if !self.list[i].status.is_active() {
                    return false;
                }
                set_status(&mut self.list, i, EntryStatus::Hidden);
                true
            },
        }
    }

    /// Takes out the first entry with id `id` and says which attack file is
    /// to go; the highest id handed out becomes the highest id left (0 when
    /// none is left).
    pub fn delete_entry(&mut self, id: u32) -> (deleted: Option<u32>)
        ensures
            match first_with_id(old(self).list@, id) {
                Some(i) => deleted == Some(id) && final(self).list@ == old(self).list@.remove(i),
                None => deleted is None && final(self).list@ == old(self).list@,
            },
            final(self).last_id == max_id(final(self).list@),
    {
        let deleted = match find_entry(&self.list, id) {
            Some(i) => {
                let entry = self.list.remove(i);
                Some(entry.id)
            },
            None => None,
        };
        let mut max: u32 = 0;
        let mut k: usize = 0;
        while k < self.list.len()
            invariant
                k <= self.list@.len(),
                max == max_id(self.list@.take(k as int)),
            decreases self.list@.len() - k,
        {
            assert(self.list@.take(k + 1).drop_last() =~= self.list@.take(k as int));
            if self.list[k].id > max {
                max = self.list[k].id;
            }
            k = k + 1;
        }
        assert(self.list@.take(self.list@.len() as int) =~= self.list@);
        self.last_id = max;
        deleted
    }

    /// Gives the first entry with id `id` the name `name`.
    pub fn update_name_for(&mut self, id: u32, name: String)
        ensures
            final(self).last_id == old(self).last_id,
            match first_with_id(old(self).list@, id) {
                Some(i) => final(self).list@ == old(self).list@.update(
                    i,
                    AttackInfo { name, ..old(self).list@[i] },
                ),
                None => final(self).list@ == old(self).list@,
            },
    {
        if let Some(i) = find_entry(&self.list, id) {
            let entry = AttackInfo { id: self.list[i].id, name, status: self.list[i].status };
            self.list.set(i, entry);
        }
    }

    /// Adds an active entry with no name under the next id, and gives that id.
    pub fn create_entry(&mut self) -> (id: u32)
        requires
            old(self).last_id < u32::MAX,
        ensures
            id == old(self).last_id + 1,
            final(self).last_id == id,
            final(self).list@ == old(self).list@.push(
                AttackInfo { id, name: final(self).list@.last().name, status: EntryStatus::Active },
            ),
            final(self).list@.last().name@ == Seq::<char>::empty(),
    {
        self.last_id += 1;
        let id: u32 = self.last_id;
        self.list.push(AttackInfo { id, name: String::new(), status: EntryStatus::Active });
        id
    }
}

/// Law: an entry that is hidden and shown again is as it was, and nothing
/// else in the list changes.
pub proof fn lemma_hide_then_show(list: Seq<AttackInfo>, i: int)
    requires
        0 <= i < list.len(),
        list[i].status == EntryStatus::Active,
    ensures
        list.update(i, with_status(list[i], EntryStatus::Hidden)).update(
            i,
            with_status(list[i], EntryStatus::Active),
        ) == list,
{
    assert(list.update(i, with_status(list[i], EntryStatus::Hidden)).update(
        i,
        with_status(list[i], EntryStatus::Active),
    ) =~= list);
}

/// Law: an entry just created is the first entry with its id when the ids
/// so far are at most the highest one handed out, and deleting it gives
/// back the entries as they were.
pub proof fn lemma_create_then_delete(list: Seq<AttackInfo>, last_id: u32, entry: AttackInfo)
    requires
        forall|j: int| 0 <= j < list.len() ==> list[j].id <= last_id,
        last_id < u32::MAX,
        entry.id == last_id + 1,
    ensures
        first_with_id(list.push(entry), entry.id) == Some(list.len() as int),
        list.push(entry).remove(list.len() as int) == list,
{
    let l = list.push(entry);
    assert(is_first_with_id(l, entry.id, list.len() as int)) by {
        assert forall|j: int| 0 <= j < list.len() implies l[j].id != entry.id by {
            assert(l[j] == list[j]);
        }
    }
    lemma_first_with_id(l, entry.id, list.len() as int);
    assert(l.remove(list.len() as int) =~= list);
}

/// A request to the list page.
#[derive(Debug, Clone, Copy, PartialEq, Eq, Structural)]
pub enum Message {
    ReadFile,
    ToggleEntryStatus(u32, bool),
    DeleteEntry(u32),
    CreateNew,
    Edit(u32),
}

/// What the caller must do after the list page handled a request, in this
/// order: read the list again from its file, delete the file of an attack,
/// write a new attack (with only its id) to its file, save the list, open an
/// attack in the attack page.
#[derive(Debug, Clone, Copy, PartialEq, Eq, Structural)]
pub struct ListOutcome {
    pub reload: bool,
    pub delete_item_file: Option<u32>,
    pub create_item_file: Option<u32>,
    pub save_list: bool,
    pub open_item: Option<u32>,
}

pub open spec fn no_outcome() -> ListOutcome {
    ListOutcome { reload: false, delete_item_file: None, create_item_file: None, save_list: false, open_item: None }
}

/// The page with the list of attacks.
#[derive(Debug)]
pub struct ListPage {
    pub data: AttackList,
}

impl ListPage {
    /// The page for the list read from its file, or an empty list when there
    /// is none.
    pub fn load(saved: Option<AttackList>) -> (page: Self)
        ensures
            match saved {
                Some(data) => page.data == data,
                None => page.data.last_id == 0 && page.data.list@ == Seq::<AttackInfo>::empty(),
            },
    {
        match saved {
            Some(data) => ListPage { data },
            None => ListPage { data: AttackList::default() },
        }
    }

    /// Handles a request: toggling shows or hides an entry (saving the list
    /// if that changed it); deleting takes out an entry and its file and
    /// saves the list; creating adds an entry with a new attack file, saves
    /// the list and opens the new attack; editing opens an attack.
    pub fn update(&mut self, message: Message) -> (outcome: ListOutcome)
        requires
            message == Message::CreateNew ==> old(self).data.last_id < u32::MAX,
        ensures
            match message {
                Message::ReadFile => outcome == ListOutcome { reload: true, ..no_outcome() }
                    && final(self).data == old(self).data,
                Message::ToggleEntryStatus(id, active) => {
                    let changed = final(self).data.list@ != old(self).data.list@;
                    &&& final(self).data.last_id == old(self).data.last_id
                    &&& final(self).data.list@ == (match first_with_id(old(self).data.list@, id) {
                        Some(i) => old(self).data.list@.update(
                            i,
                            with_status(
                                old(self).data.list@[i],
                                if active { EntryStatus::Active } else { EntryStatus::Hidden },
                            ),
                        ),
                        None => old(self).data.list@,
                    })
                    &&& outcome == ListOutcome { save_list: changed, ..no_outcome() }
                },
                Message::DeleteEntry(id) => {
                    &&& final(self).data.list@ == (match first_with_id(old(self).data.list@, id) {
                        Some(i) => old(self).data.list@.remove(i),
                        None => old(self).data.list@,
                    })
                    &&& final(self).data.last_id == max_id(final(self).data.list@)
                    &&& outcome == ListOutcome {
                        delete_item_file: if first_with_id(old(self).data.list@, id) is Some {
                            Some(id)
                        } else {
                            None
                        },
                        save_list: true,
                        ..no_outcome()
                    }
                },
                Message::CreateNew => {
                    let id: u32 = (old(self).data.last_id + 1) as u32;
                    &&& final(self).data.last_id == id
                    &&& final(self).data.list@.len() == old(self).data.list@.len() + 1
                    &&& final(self).data.list@.drop_last() == old(self).data.list@
                    &&& final(self).data.list@.last().id == id
                    &&& final(self).data.list@.last().name@ == Seq::<char>::empty()
                    &&& final(self).data.list@.last().status == EntryStatus::Active
                    &&& outcome == ListOutcome {
                        create_item_file: Some(id),
                        save_list: true,
                        open_item: Some(id),
                        ..no_outcome()
                    }
                },
                Message::Edit(id) => outcome == ListOutcome { open_item: Some(id), ..no_outcome() }
                    && final(self).data == old(self).data,
            },
    {
        match message {
            Message::ReadFile => ListOutcome {
                reload: true,
                delete_item_file: None,
                create_item_file: None,
                save_list: false,
                open_item: None,
            },
            Message::ToggleEntryStatus(id, is_active) => {
                let ghost before = self.data.list@;
                let changed = if is_active {
                    self.data.show_entry(id)
                } else {
                    self.data.hide_entry(id)
                };
                proof {
                    if let Some(i) = first_with_id(before, id) {
                        assert(before[i].status == (if is_active { EntryStatus::Active } else { EntryStatus::Hidden })
                            ==> before.update(i, with_status(before[i], before[i].status)) =~= before);
                        if changed {
                            assert(self.data.list@[i] != before[i]);
                        }
                    }
                }
                ListOutcome {
                    reload: false,
                    delete_item_file: None,
                    create_item_file: None,
                    save_list: changed,
                    open_item: None,
                }
            },
            Message::DeleteEntry(id) => {
                let deleted = self.data.delete_entry(id);
                ListOutcome {
                    reload: false,
                    delete_item_file: deleted,
                    create_item_file: None,
                    save_list: true,
                    open_item: None,
                }
            },
            Message::CreateNew => {
                let id: u32 = self.data.create_entry();
                assert(self.data.list@.drop_last() =~= old(self).data.list@);
                ListOutcome {
                    reload: false,
                    delete_item_file: None,
                    create_item_file: Some(id),
                    save_list: true,
                    open_item: Some(id),
                }
            },
            Message::Edit(id) => ListOutcome {
                reload: false,
                delete_item_file: None,
                create_item_file: None,
                save_list: false,
                open_item: Some(id),
            },
        }
    }
}

/// The active entries of `list`, as attacks an enemy may be given.
pub open spec fn picker_items(list: Seq<AttackInfo>) -> Seq<(u32, Seq<char>)>
    decreases list.len(),
{
    if list.len() == 0 {
        Seq::empty()
    } else {
        let rest = picker_items(list.drop_last());
        if list.last().status == EntryStatus::Active {
            rest.push((list.last().id, list.last().name@))
        } else {
            rest
        }
    }
}

/// The attacks an enemy may be given: the active entries of the list, in order.
pub fn make_picker_items(list: Vec<AttackInfo>) -> (items: Vec<NpcAttackInfo>)
    ensures
        items@.map_values(|a: NpcAttackInfo| (a.id, a.name@)) == picker_items(list@),
{
    let mut items: Vec<NpcAttackInfo> = Vec::new();
    let mut i: usize = 0;
    while i < list.len()
        invariant
            i <= list@.len(),
            items@.map_values(|a: NpcAttackInfo| (a.id, a.name@)) == picker_items(list@.take(i as int)),
        decreases list@.len() - i,
    {
        assert(list@.take(i + 1).drop_last() =~= list@.take(i as int));
        let ghost before = items@;
        if list[i].status.is_active() {
            items.push(NpcAttackInfo { id: list[i].id, name: list[i].name.clone() });
            assert(items@.map_values(|a: NpcAttackInfo| (a.id, a.name@)) =~= before.map_values(
                |a: NpcAttackInfo| (a.id, a.name@),
            ).push((list@[i as int].id, list@[i as int].name@)));
        }
        i = i + 1;
    }
    assert(list@.take(list@.len() as int) =~= list@);
    items
}

/// Which part of the attack page is shown.
#[derive(Debug, Clone, Copy, PartialEq, Eq, Structural)]
pub enum CurrentPage {
    Item,
    List,
}

/// The attack page: the list, and the attack `I` being edited, if any.
pub struct Page<I> {
    pub list: ListPage,
    pub item: Option<I>,
    pub current_page: CurrentPage,
}

/// The attack page as it opens: the list read from its file (or an empty
/// list), no attack being edited.
pub fn load_state<I>(saved: Option<AttackList>) -> (page: Page<I>)
    ensures
        page.item is None,
        page.current_page == CurrentPage::List,
        match saved {
            Some(data) => page.list.data == data,
            None => page.list.data.last_id == 0 && page.list.data.list@ == Seq::<AttackInfo>::empty(),
        },
{
    Page { list: ListPage::load(saved), item: None, current_page: CurrentPage::List }
}

impl<I> Page<I> {
    /// Shows attack `item` for editing.
    pub fn open_item(&mut self, item: I)
        ensures
            final(self).item == Some(item),
            final(self).current_page == CurrentPage::Item,
            final(self).list == old(self).list,
    {
        self.item = Some(item);
        self.current_page = CurrentPage::Item;
    }

    /// Goes back to the list.
    pub fn open_list(&mut self)
        ensures
            final(self).item is None,
            final(self).current_page == CurrentPage::List,
            final(self).list == old(self).list,
    {
        self.item = None;
        self.current_page = CurrentPage::List;
    }

    /// Whether the attack (rather than the list) is shown: only when the
    /// attack page is current and an attack is open.
    pub fn shows_item(&self) -> (item_shown: bool)
        ensures
            item_shown <==> self.current_page == CurrentPage::Item && self.item is Some,
    {
        match self.current_page {
            CurrentPage::List => false,
            CurrentPage::Item => self.item.is_some(),
        }
    }
}

} // verus!
