use vstd::prelude::*;

use std::collections::HashMap;

verus! {

broadcast use vstd::std_specs::hash::group_hash_axioms;

/// The open websocket writers of the game server, by client id. The ids are
/// also kept in a list, each once, so that all writers can be reached.
pub struct Broadcaster<W> {
    writers: HashMap<u128, W>,
    ids: Vec<u128>,
}

impl<W> View for Broadcaster<W> {
    type V = Map<u128, W>;

    closed spec fn view(&self) -> Map<u128, W> {
        self.writers@
    }
}

impl<W> Broadcaster<W> {
    /// The ids of the writers, each once.
    pub closed spec fn registered(&self) -> Seq<u128> {
        self.ids@
    }

    pub closed spec fn wf(&self) -> bool {
        &&& self.ids@.no_duplicates()
        &&& forall|id: u128| #[trigger] self.writers@.contains_key(id) <==> self.ids@.contains(id)
    }

    /// Law: the registered ids are exactly the ids of the writers, each once.
    pub proof fn lemma_registered_ids(&self)
        requires
            self.wf(),
        ensures
            self.registered().no_duplicates(),
            forall|id: u128| #[trigger] self@.contains_key(id) <==> self.registered().contains(id),
            self.registered().len() == self@.dom().len(),
    {
        let ids = self.ids@;
        ids.unique_seq_to_set();
        assert(ids.to_set() =~= self.writers@.dom());
    }

    /// Law: adding a writer for a client that has none and then removing
    /// the client's writer gives back the writers, and the registered ids in
    /// their order, as they were.
    pub proof fn lemma_add_then_remove(&self, id: u128, writer: W)
        requires
            self.wf(),
            !self@.contains_key(id),
        ensures
            self@.insert(id, writer).remove(id) == self@,
            self.registered().push(id).filter(|k: u128| k != id) == self.registered(),
    {
        assert(self@.insert(id, writer).remove(id) =~= self@);
        assert(!self.ids@.contains(id));
        lemma_filter_absent(self.ids@, id);
        reveal_with_fuel(Seq::filter, 1);
        assert(self.ids@.push(id).drop_last() =~= self.ids@);
    }

    pub fn new() -> (broadcaster: Self)
        ensures
            broadcaster.wf(),
            broadcaster@ == Map::<u128, W>::empty(),
            broadcaster.registered() == Seq::<u128>::empty(),
    {
        let b = Broadcaster { writers: HashMap::new(), ids: Vec::new() };
        assert(b.writers@ =~= Map::<u128, W>::empty());
        b
    }

    pub fn contains(&self, id: u128) -> (found: bool)
        ensures
            found <==> self@.contains_key(id),
    {
        self.writers.contains_key(&id)
    }

    pub fn len(&self) -> (count: usize)
        requires
            self.wf(),
        ensures
            count == self@.dom().len(),
            count == self.registered().len(),
    {
        proof {
            self.lemma_registered_ids();
        }
        self.ids.len()
    }

    /// The ids of all writers, each once.
    pub fn ids(&self) -> (ids: Vec<u128>)
        requires
            self.wf(),
        ensures
            ids@ == self.registered(),
    {
        self.ids.clone()
    }

    /// Keeps `writer` for client `id`, in place of any writer it had; says
    /// whether one was replaced.
    pub fn add_writer(&mut self, id: u128, writer: W) -> (replaced: bool)
        requires
            old(self).wf(),
        ensures
            final(self).wf(),
            final(self)@ == old(self)@.insert(id, writer),
            replaced <==> old(self)@.contains_key(id),
            replaced ==> final(self).registered() == old(self).registered(),
            !replaced ==> final(self).registered() == old(self).registered().push(id),
    {
        let previous = self.writers.insert(id, writer);
        match previous {
            Some(_) => true,
            None => {
                self.ids.push(id);
                assert forall|k: u128| #[trigger] self.writers@.contains_key(k) <==> self.ids@.contains(k) by {
                    if k != id {
                        assert(self.ids@.contains(k) ==> old(self).ids@.contains(k)) by {
                            if self.ids@.contains(k) {
                                let j: int = choose|j: int| 0 <= j < self.ids@.len() && self.ids@[j] == k;
                                assert(old(self).ids@[j] == k);
                            }
                        }
                        assert(old(self).ids@.contains(k) ==> self.ids@.contains(k)) by {
                            if old(self).ids@.contains(k) {
                                let j: int = choose|j: int| 0 <= j < old(self).ids@.len() && old(self).ids@[j] == k;
                                assert(self.ids@[j] == k);
                            }
                        }
                    } else {
                        assert(self.ids@[self.ids@.len() - 1] == id);
                    }
                }
                false
            },
        }
    }

    /// Takes out the writer of client `id`, if there is one.
    pub fn remove_writer(&mut self, id: u128) -> (removed: Option<W>)
        requires
            old(self).wf(),
        ensures
            final(self).wf(),
            final(self)@ == old(self)@.remove(id),
            match removed {
                Some(writer) => old(self)@.contains_key(id) && writer == old(self)@[id],
                None => !old(self)@.contains_key(id),
            },
            final(self).registered() == old(self).registered().filter(|k: u128| k != id),
    {
        let removed = self.writers.remove(&id);
        if removed.is_some() {
            let mut i: usize = 0;
            while i < self.ids.len() && self.ids[i] != id
                invariant
                    i <= self.ids@.len(),
                    self.ids@ == old(self).ids@,
                    forall|j: int| 0 <= j < i ==> self.ids@[j] != id,
                decreases self.ids@.len() - i,
            {
                i = i + 1;
            }
            assert(old(self).ids@.contains(id));
            assert(i < self.ids@.len()) by {
                if i >= self.ids@.len() {
                    let j: int = choose|j: int| 0 <= j < old(self).ids@.len() && old(self).ids@[j] == id;
                    assert(false);
                }
            }
            let ghost before = self.ids@;
            self.ids.remove(i);
            proof {
                lemma_remove_unique(before, i as int, id);
            }
        } else {
            proof {
                lemma_filter_absent(self.ids@, id);
            }
        }
        removed
    }
}

/// A request to the broadcaster.
pub enum BroadcastMessage<W, M> {
    AddWriter(u128, W),
    RemoveWriter(u128),
    CloseConnection(u128),
    SendMessage(u128, M),
    SendMessageList(Vec<u128>, M),
    SendMessageToAll(M),
}

/// Something that went other than asked, for the log.
#[derive(Debug, Clone, Copy, PartialEq, Eq, Structural)]
pub enum Notice {
    ReplacedWriter(u128),
    NoWriterToRemove(u128),
    NoWriterToClose(u128),
    NoWriterToSend(u128),
}

/// What the broadcaster must do for a request: send `message` to the writers
/// of `recipients` (in order), send a close frame to the writer in
/// `closing` (already taken out), and log `notices`.
pub struct Dispatch<W, M> {
    pub message: Option<M>,
    pub recipients: Vec<u128>,
    pub closing: Option<(u128, W)>,
    pub notices: Vec<Notice>,
}

impl<W> Broadcaster<W> {
    /// Sorts the ids of `list` into those with a writer (recipients, in
    /// order) and those without (one notice each, in order).
    fn split_recipients(&self, list: &Vec<u128>) -> (split: (Vec<u128>, Vec<Notice>))
        ensures
            split.0@ == list@.filter(|k: u128| self@.contains_key(k)),
            split.1@ == list@.filter(|k: u128| !self@.contains_key(k)).map_values(
                |k: u128| Notice::NoWriterToSend(k),
            ),
    {
        let ghost present = |k: u128| self@.contains_key(k);
        let ghost absent = |k: u128| !self@.contains_key(k);
        let ghost notice = |k: u128| Notice::NoWriterToSend(k);
        let mut recipients: Vec<u128> = Vec::new();
        let mut notices: Vec<Notice> = Vec::new();
        let mut i: usize = 0;
        assert(list@.take(0) =~= Seq::<u128>::empty());
        assert(list@.take(0).filter(present) =~= Seq::<u128>::empty());
        assert(list@.take(0).filter(absent).map_values(notice) =~= Seq::<Notice>::empty());
        while i < list.len()
            invariant
                i <= list@.len(),
                present == (|k: u128| self@.contains_key(k)),
                absent == (|k: u128| !self@.contains_key(k)),
                notice == (|k: u128| Notice::NoWriterToSend(k)),
                recipients@ == list@.take(i as int).filter(present),
                notices@ == list@.take(i as int).filter(absent).map_values(notice),
            decreases list@.len() - i,
        {
            let id = list[i];
            assert(list@.take(i + 1).drop_last() =~= list@.take(i as int));
            assert(list@.take(i + 1).last() == id);
            reveal_with_fuel(Seq::filter, 1);
            if self.contains(id) {
                recipients.push(id);
            } else {
                let ghost before = list@.take(i as int).filter(absent);
                assert(before.push(id).map_values(notice) =~= before.map_values(notice).push(
                    notice(id),
                ));
                notices.push(Notice::NoWriterToSend(id));
            }
            i = i + 1;
        }
        assert(list@.take(list@.len() as int) =~= list@);
        (recipients, notices)
    }

    /// Carries out the bookkeeping of a request and says what is left to do.
    pub fn handle_message<M>(&mut self, message: BroadcastMessage<W, M>) -> (dispatch: Dispatch<W, M>)
        requires
            old(self).wf(),
        ensures
            final(self).wf(),
            match message {
                BroadcastMessage::AddWriter(id, writer) => {
                    &&& final(self)@ == old(self)@.insert(id, writer)
                    &&& dispatch.message is None
                    &&& dispatch.recipients@ == Seq::<u128>::empty()
                    &&& dispatch.closing is None
                    &&& dispatch.notices@ == (if old(self)@.contains_key(id) {
                        seq![Notice::ReplacedWriter(id)]
                    } else {
                        Seq::<Notice>::empty()
                    })
                },
                BroadcastMessage::RemoveWriter(id) => {
                    &&& final(self)@ == old(self)@.remove(id)
                    &&& dispatch.message is None
                    &&& dispatch.recipients@ == Seq::<u128>::empty()
                    &&& dispatch.closing is None
                    &&& dispatch.notices@ == (if old(self)@.contains_key(id) {
                        Seq::<Notice>::empty()
                    } else {
                        seq![Notice::NoWriterToRemove(id)]
                    })
                },
                BroadcastMessage::CloseConnection(id) => {
                    &&& final(self)@ == old(self)@.remove(id)
                    &&& dispatch.message is None
                    &&& dispatch.recipients@ == Seq::<u128>::empty()
                    &&& dispatch.closing == (if old(self)@.contains_key(id) {
                        Some((id, old(self)@[id]))
                    } else {
                        None
                    })
                    &&& dispatch.notices@ == (if old(self)@.contains_key(id) {
                        Seq::<Notice>::empty()
                    } else {
                        seq![Notice::NoWriterToClose(id)]
                    })
                },
                BroadcastMessage::SendMessage(id, m) => {
                    &&& final(self)@ == old(self)@
                    &&& final(self).registered() == old(self).registered()
                    &&& dispatch.message == Some(m)
                    &&& dispatch.closing is None
                    &&& dispatch.recipients@ == (if old(self)@.contains_key(id) {
                        seq![id]
                    } else {
                        Seq::<u128>::empty()
                    })
                    &&& dispatch.notices@ == (if old(self)@.contains_key(id) {
                        Seq::<Notice>::empty()
                    } else {
                        seq![Notice::NoWriterToSend(id)]
                    })
                },
                BroadcastMessage::SendMessageList(list, m) => {
                    &&& final(self)@ == old(self)@
                    &&& final(self).registered() == old(self).registered()
                    &&& dispatch.message == Some(m)
                    &&& dispatch.closing is None
                    &&& dispatch.recipients@ == list@.filter(|k: u128| old(self)@.contains_key(k))
                    &&& dispatch.notices@ == list@.filter(|k: u128| !old(self)@.contains_key(k)).map_values(
                        |k: u128| Notice::NoWriterToSend(k),
                    )
                },
                BroadcastMessage::SendMessageToAll(m) => {
                    &&& final(self)@ == old(self)@
                    &&& final(self).registered() == old(self).registered()
                    &&& dispatch.message == Some(m)
                    &&& dispatch.closing is None
                    &&& dispatch.recipients@ == old(self).registered()
                    &&& dispatch.notices@ == Seq::<Notice>::empty()
                },
            },
    {
        match message {
            BroadcastMessage::AddWriter(id, writer) => {
                let mut notices = Vec::new();
                if self.add_writer(id, writer) {
                    notices.push(Notice::ReplacedWriter(id));
                }
                Dispatch { message: None, recipients: Vec::new(), closing: None, notices }
            },
            BroadcastMessage::RemoveWriter(id) => {
                let mut notices = Vec::new();
                if self.remove_writer(id).is_none() {
                    notices.push(Notice::NoWriterToRemove(id));
                }
                Dispatch { message: None, recipients: Vec::new(), closing: None, notices }
            },
            BroadcastMessage::CloseConnection(id) => {
                let mut notices = Vec::new();
                let closing = match self.remove_writer(id) {
                    Some(writer) => Some((id, writer)),
                    None => {
                        notices.push(Notice::NoWriterToClose(id));
                        None
                    },
                };
                Dispatch { message: None, recipients: Vec::new(), closing, notices }
            },
            BroadcastMessage::SendMessage(id, m) => {
                let mut recipients = Vec::new();
                let mut notices = Vec::new();
                if self.contains(id) {
                    recipients.push(id);
                } else {
                    notices.push(Notice::NoWriterToSend(id));
                }
                Dispatch { message: Some(m), recipients, closing: None, notices }
            },
            BroadcastMessage::SendMessageList(list, m) => {
                let (recipients, notices) = self.split_recipients(&list);
                Dispatch { message: Some(m), recipients, closing: None, notices }
            },
            BroadcastMessage::SendMessageToAll(m) => {
                let recipients = self.ids();
                Dispatch { message: Some(m), recipients, closing: None, notices: Vec::new() }
            },
        }
    }
}

proof fn lemma_filter_absent(s: Seq<u128>, id: u128)
    requires
        !s.contains(id),
    ensures
        s.filter(|k: u128| k != id) == s,
    decreases s.len(),
{
    if s.len() > 0 {
        let t = s.drop_last();
        assert(!t.contains(id)) by {
            if t.contains(id) {
                let j: int = choose|j: int| 0 <= j < t.len() && t[j] == id;
                assert(s[j] == id);
            }
        }
        lemma_filter_absent(t, id);
        assert(s =~= t.push(s.last()));
        reveal_with_fuel(Seq::filter, 1);
        assert(s.filter(|k: u128| k != id) =~= t.filter(|k: u128| k != id).push(s.last()));
    } else {
        assert(s.filter(|k: u128| k != id) =~= s);
    }
}

proof fn lemma_remove_unique(s: Seq<u128>, i: int, id: u128)
    requires
        s.no_duplicates(),
        0 <= i < s.len(),
        s[i] == id,
    ensures
        s.remove(i).no_duplicates(),
        s.remove(i) == s.filter(|k: u128| k != id),
        !s.remove(i).contains(id),
        forall|k: u128| k != id ==> (s.remove(i).contains(k) <==> s.contains(k)),
{
    let r = s.remove(i);
    assert(!r.contains(id)) by {
        if r.contains(id) {
            let j: int = choose|j: int| 0 <= j < r.len() && r[j] == id;
            if j < i {
                assert(s[j] == id);
            } else {
                assert(s[j + 1] == id);
            }
        }
    }
    assert forall|k: u128| k != id implies (r.contains(k) <==> s.contains(k)) by {
        if r.contains(k) {
            let j: int = choose|j: int| 0 <= j < r.len() && r[j] == k;
            if j < i {
                assert(s[j] == k);
            } else {
                assert(s[j + 1] == k);
            }
        }
        if s.contains(k) {
            let j: int = choose|j: int| 0 <= j < s.len() && s[j] == k;
            assert(j != i);
            if j < i {
                assert(r[j] == k);
            } else {
                assert(r[j - 1] == k);
            }
        }
    }
    assert(r =~= s.subrange(0, i) + s.subrange(i + 1, s.len() as int));
    lemma_filter_absent(s.subrange(0, i), id);
    lemma_filter_absent(s.subrange(i + 1, s.len() as int), id);
    assert(s =~= s.subrange(0, i) + seq![id] + s.subrange(i + 1, s.len() as int));
    Seq::filter_distributes_over_add(s.subrange(0, i) + seq![id], s.subrange(i + 1, s.len() as int), |k: u128| k != id);
    Seq::filter_distributes_over_add(s.subrange(0, i), seq![id], |k: u128| k != id);
    reveal_with_fuel(Seq::filter, 2);
    assert(seq![id].filter(|k: u128| k != id) =~= Seq::<u128>::empty());
}

} // verus!
