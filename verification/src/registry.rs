//! The table of open connections and of those that have authenticated.

use vstd::prelude::*;

verus! {

/// Identifier of one accepted connection. The registry hands each one out
/// once; the sockets themselves stay with the caller, keyed by it.
pub type ConnId = u64;

/// The identifiers of `ids`, in their order, that do not occur in `gone`.
pub open spec fn without(ids: Seq<ConnId>, gone: Seq<ConnId>) -> Seq<ConnId> {
    ids.filter(|c: ConnId| !gone.contains(c))
}

/// `without` keeps exactly the members of `ids` that are not in `gone`.
pub proof fn lemma_without_members(ids: Seq<ConnId>, gone: Seq<ConnId>)
    ensures
        forall|c: ConnId| #[trigger]
            without(ids, gone).contains(c) <==> ids.contains(c) && !gone.contains(c),
{
    let keep = |c: ConnId| !gone.contains(c);
    assert forall|c: ConnId| #[trigger]
        without(ids, gone).contains(c) <==> ids.contains(c) && !gone.contains(c) by {
        if without(ids, gone).contains(c) {
            ids.lemma_filter_contains_rev(keep, c);
            let i = choose|i: int| 0 <= i < ids.filter(keep).len() && ids.filter(keep)[i] == c;
            ids.lemma_filter_pred(keep, i);
        }
        if ids.contains(c) && !gone.contains(c) {
            let i = choose|i: int| 0 <= i < ids.len() && ids[i] == c;
            ids.lemma_filter_contains(keep, i);
        }
    }
}

/// `without` never makes an identifier occur twice.
pub proof fn lemma_without_distinct(ids: Seq<ConnId>, gone: Seq<ConnId>)
    requires
        ids.no_duplicates(),
    ensures
        without(ids, gone).no_duplicates(),
    decreases ids.len(),
{
    let keep = |c: ConnId| !gone.contains(c);
    reveal(Seq::filter);
    if ids.len() > 0 {
        let front = ids.drop_last();
        lemma_without_distinct(front, gone);
        lemma_without_members(front, gone);
        if keep(ids.last()) {
            assert(!front.contains(ids.last()));
            assert(!without(front, gone).contains(ids.last()));
        }
    }
}

/// Whether `id` occurs in `ids`.
pub fn holds(ids: &Vec<ConnId>, id: ConnId) -> (found: bool)
    ensures
        found == ids@.contains(id),
{
    let mut i: usize = 0;
    while i < ids.len()
        invariant
            i <= ids.len(),
            !ids@.take(i as int).contains(id),
        decreases ids.len() - i,
    {
        if ids[i] == id {
            return true;
        }
        proof {
            assert(ids@.take(i + 1) =~= ids@.take(i as int).push(ids@[i as int]));
            vstd::seq_lib::lemma_seq_contains_after_push(ids@.take(i as int), ids@[i as int], id);
        }
        i += 1;
    }
    proof {
        assert(ids@.take(i as int) =~= ids@);
    }
    false
}

/// The identifiers of `ids`, in their order, that do not occur in `gone`.
pub fn retain_absent(ids: &Vec<ConnId>, gone: &Vec<ConnId>) -> (kept: Vec<ConnId>)
    ensures
        kept@ == without(ids@, gone@),
{
    let mut kept: Vec<ConnId> = Vec::new();
    let mut i: usize = 0;
    proof {
        reveal(Seq::filter);
        assert(ids@.take(0) =~= Seq::<ConnId>::empty());
    }
    while i < ids.len()
        invariant
            i <= ids.len(),
            kept@ == without(ids@.take(i as int), gone@),
        decreases ids.len() - i,
    {
        let id = ids[i];
        let dropped = holds(gone, id);
        proof {
            assert(ids@.take(i + 1) =~= ids@.take(i as int).push(id));
            ids@.take(i as int).lemma_filter_push(id, |c: ConnId| !gone@.contains(c));
        }
        if !dropped {
            kept.push(id);
        }
        i += 1;
    }
    proof {
        assert(ids@.take(i as int) =~= ids@);
    }
    kept
}

/// What a registry holds: both lists in connection order, and how many
/// identifiers it has handed out.
pub struct RegistryView {
    pub all: Seq<ConnId>,
    pub authenticated: Seq<ConnId>,
    pub issued: nat,
}

impl RegistryView {
    /// No identifier occurs twice in a list, every authenticated connection
    /// is an open one, and every open one carries an identifier that was
    /// handed out.
    pub open spec fn wf(self) -> bool {
        &&& self.all.no_duplicates()
        &&& self.authenticated.no_duplicates()
        &&& forall|c: ConnId| #[trigger] self.authenticated.contains(c) ==> self.all.contains(c)
        &&& forall|c: ConnId| #[trigger] self.all.contains(c) ==> (c as nat) < self.issued
        &&& self.issued <= u64::MAX
    }

    pub open spec fn empty() -> RegistryView {
        RegistryView { all: Seq::empty(), authenticated: Seq::empty(), issued: 0 }
    }

    /// A new connection: a fresh identifier at the end of `all`, unless the
    /// identifiers are used up.
    pub open spec fn register(self) -> RegistryView {
        if self.issued < u64::MAX {
            RegistryView {
                all: self.all.push(self.issued as ConnId),
                authenticated: self.authenticated,
                issued: self.issued + 1,
            }
        } else {
            self
        }
    }

    /// `id` passed the handshake: it joins the end of `authenticated`, if it
    /// is open and not there yet.
    pub open spec fn promote(self, id: ConnId) -> RegistryView {
        if self.all.contains(id) && !self.authenticated.contains(id) {
            RegistryView { authenticated: self.authenticated.push(id), ..self }
        } else {
            self
        }
    }

    /// `id` leaves both lists.
    pub open spec fn remove(self, id: ConnId) -> RegistryView {
        RegistryView {
            all: without(self.all, seq![id]),
            authenticated: without(self.authenticated, seq![id]),
            issued: self.issued,
        }
    }

    /// Every connection of `gone` leaves `authenticated`; `all` stays.
    pub open spec fn demote(self, gone: Seq<ConnId>) -> RegistryView {
        RegistryView { authenticated: without(self.authenticated, gone), ..self }
    }

    /// Both lists are emptied; handed-out identifiers stay used.
    pub open spec fn clear(self) -> RegistryView {
        RegistryView { all: Seq::empty(), authenticated: Seq::empty(), issued: self.issued }
    }
}

/// Every open connection and the subset that has authenticated.
#[derive(Debug)]
pub struct ClientRegistry {
    all: Vec<ConnId>,
    authenticated: Vec<ConnId>,
    next_id: u64,
}

impl View for ClientRegistry {
    type V = RegistryView;

    closed spec fn view(&self) -> RegistryView {
        RegistryView {
            all: self.all@,
            authenticated: self.authenticated@,
            issued: self.next_id as nat,
        }
    }
}

impl ClientRegistry {
    pub open spec fn wf(&self) -> bool {
        self@.wf()
    }

    /// A registry without connections.
    pub fn new() -> (registry: Self)
        ensures
            registry@ == RegistryView::empty(),
            registry.wf(),
    {
        ClientRegistry { all: Vec::new(), authenticated: Vec::new(), next_id: 0 }
    }

    /// Enters a newly accepted connection and returns its identifier, which
    /// no connection had before. `None`, and nothing changes, once every
    /// identifier has been handed out.
    pub fn register(&mut self) -> (id: Option<ConnId>)
        requires
            old(self).wf(),
        ensures
            final(self).wf(),
            final(self)@ == old(self)@.register(),
            id == if old(self)@.issued < u64::MAX {
                Some(old(self)@.issued as ConnId)
            } else {
                None
            },
            id is Some ==> !old(self)@.all.contains(id.unwrap()),
    {
        if self.next_id == u64::MAX {
            return None;
        }
        let id = self.next_id;
        proof {
            law_registry_stays_valid(self@, id, Seq::empty());
        }
        self.all.push(id);
        self.next_id = id + 1;
        Some(id)
    }

    /// Marks `id` as authenticated if it is an open connection. Returns
    /// whether `id` is authenticated afterwards.
    pub fn promote(&mut self, id: ConnId) -> (authenticated: bool)
        requires
            old(self).wf(),
        ensures
            final(self).wf(),
            final(self)@ == old(self)@.promote(id),
            authenticated == old(self)@.all.contains(id),
            authenticated == final(self)@.authenticated.contains(id),
    {
        if !holds(&self.all, id) {
            return false;
        }
        proof {
            law_registry_stays_valid(self@, id, Seq::empty());
        }
        if !holds(&self.authenticated, id) {
            proof {
                vstd::seq_lib::lemma_seq_contains_after_push(self.authenticated@, id, id);
            }
            self.authenticated.push(id);
        }
        true
    }

    /// Takes `id` out of both lists. Removing a connection that is not
    /// there changes nothing.
    pub fn remove(&mut self, id: ConnId)
        requires
            old(self).wf(),
        ensures
            final(self).wf(),
            final(self)@ == old(self)@.remove(id),
    {
        let mut gone: Vec<ConnId> = Vec::new();
        gone.push(id);
        proof {
            assert(gone@ =~= seq![id]);
            law_registry_stays_valid(self@, id, gone@);
        }
        self.all = retain_absent(&self.all, &gone);
        self.authenticated = retain_absent(&self.authenticated, &gone);
    }

    /// Takes every connection of `gone` out of `authenticated`, and no
    /// other; `all` is left as it is.
    pub fn demote(&mut self, gone: &Vec<ConnId>)
        requires
            old(self).wf(),
        ensures
            final(self).wf(),
            final(self)@ == old(self)@.demote(gone@),
    {
        proof {
            law_registry_stays_valid(self@, 0, gone@);
        }
        self.authenticated = retain_absent(&self.authenticated, gone);
    }

    /// Empties both lists.
    pub fn clear(&mut self)
        requires
            old(self).wf(),
        ensures
            final(self).wf(),
            final(self)@ == old(self)@.clear(),
    {
        self.all = Vec::new();
        self.authenticated = Vec::new();
    }

    /// The open connections, in connection order.
    pub fn all(&self) -> (ids: Vec<ConnId>)
        ensures
            ids@ == self@.all,
    {
        self.all.clone()
    }

    /// The authenticated connections, in the order in which they passed
    /// the handshake.
    pub fn authenticated(&self) -> (ids: Vec<ConnId>)
        ensures
            ids@ == self@.authenticated,
    {
        self.authenticated.clone()
    }

    /// Whether `id` is an open connection.
    pub fn is_open(&self, id: ConnId) -> (open: bool)
        ensures
            open == self@.all.contains(id),
    {
        holds(&self.all, id)
    }

    /// Whether `id` has authenticated.
    pub fn is_authenticated(&self, id: ConnId) -> (authenticated: bool)
        ensures
            authenticated == self@.authenticated.contains(id),
    {
        holds(&self.authenticated, id)
    }
}

/// The registry stays well-formed whatever is done to it: in particular
/// every authenticated connection remains an open one until it is removed.
pub proof fn law_registry_stays_valid(r: RegistryView, id: ConnId, gone: Seq<ConnId>)
    requires
        r.wf(),
    ensures
        r.register().wf(),
        r.promote(id).wf(),
        r.remove(id).wf(),
        r.demote(gone).wf(),
        r.clear().wf(),
{
    if r.issued < u64::MAX {
        let fresh = r.issued as ConnId;
        assert forall|c: ConnId| #[trigger] r.all.push(fresh).contains(c) implies (c as nat)
            < r.issued + 1 by {
            vstd::seq_lib::lemma_seq_contains_after_push(r.all, fresh, c);
        }
        assert forall|c: ConnId| #[trigger]
            r.authenticated.contains(c) implies r.all.push(fresh).contains(c) by {
            vstd::seq_lib::lemma_seq_contains_after_push(r.all, fresh, c);
        }
        if r.all.contains(fresh) {
            assert((fresh as nat) < r.issued);
        }
    }
    if r.all.contains(id) && !r.authenticated.contains(id) {
        assert forall|c: ConnId| #[trigger]
            r.authenticated.push(id).contains(c) implies r.all.contains(c) by {
            vstd::seq_lib::lemma_seq_contains_after_push(r.authenticated, id, c);
        }
    }
    lemma_without_members(r.all, seq![id]);
    lemma_without_members(r.authenticated, seq![id]);
    lemma_without_distinct(r.all, seq![id]);
    lemma_without_distinct(r.authenticated, seq![id]);
    lemma_without_members(r.authenticated, gone);
    lemma_without_distinct(r.authenticated, gone);
}

/// Removal is idempotent: a second removal of the same connection changes
/// nothing.
pub proof fn law_remove_idempotent(r: RegistryView, id: ConnId)
    ensures
        r.remove(id).remove(id) == r.remove(id),
{
    lemma_without_twice(r.all, seq![id]);
    lemma_without_twice(r.authenticated, seq![id]);
}

/// Filtering by the same list a second time changes nothing.
pub proof fn lemma_without_twice(ids: Seq<ConnId>, gone: Seq<ConnId>)
    ensures
        without(without(ids, gone), gone) == without(ids, gone),
    decreases ids.len(),
{
    let keep = |c: ConnId| !gone.contains(c);
    reveal(Seq::filter);
    if ids.len() > 0 {
        let front = ids.drop_last();
        lemma_without_twice(front, gone);
        if keep(ids.last()) {
            without(front, gone).lemma_filter_push(ids.last(), keep);
        }
    }
}

/// A removal touches one connection only: every other connection is in a
/// list afterwards exactly if it was before, and `id` is in neither.
pub proof fn law_remove_exact(r: RegistryView, id: ConnId)
    ensures
        !r.remove(id).all.contains(id),
        !r.remove(id).authenticated.contains(id),
        forall|c: ConnId| c != id ==> (#[trigger] r.remove(id).all.contains(c) <==> r.all.contains(c)),
        forall|c: ConnId|
            c != id ==> (#[trigger] r.remove(id).authenticated.contains(c)
                <==> r.authenticated.contains(c)),
{
    lemma_without_members(r.all, seq![id]);
    lemma_without_members(r.authenticated, seq![id]);
    assert(seq![id].contains(id)) by {
        assert(seq![id][0] == id);
    }
    assert forall|c: ConnId| c != id implies !seq![id].contains(c) by {}
}

} // verus!
