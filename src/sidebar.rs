//! The favorites pane: the display lists of favorite addresses and
//! transactions, and the selected row of the active tab.
use vstd::prelude::*;
use crate::actions::Action;
use crate::model::{AddressRef, SelectedEntity, TransactionRef};
use crate::navigation::{other_tab, SidebarTab};
use crate::text::{join2, join3, short_hex, text_is};

verus! {

#[derive(Debug)]
pub struct Sidebar {
    pub addresses: Vec<AddressRef>,
    pub transactions: Vec<TransactionRef>,
    pub selected_index: usize,
}

#[derive(Debug)]
pub enum SidebarCommand {
    MoveUp,
    MoveDown,
    NextTab,
    PreviousTab,
    SelectIndex(usize),
    SwitchTab(SidebarTab),
    HydrationStarted,
    HydrationFinished,
    AddFavorite(SelectedEntity),
    RemoveFavorite(SelectedEntity),
}

pub open spec fn has_address(v: Seq<AddressRef>, a: Seq<char>) -> bool {
    exists|i: int| 0 <= i < v.len() && (#[trigger] v[i]).address@ == a
}

pub open spec fn has_hash(v: Seq<TransactionRef>, h: Seq<char>) -> bool {
    exists|i: int| 0 <= i < v.len() && (#[trigger] v[i]).hash@ == h
}

pub open spec fn clamped(index: nat, len: nat) -> nat {
    if len == 0 {
        0
    } else if index >= len {
        (len - 1) as nat
    } else {
        index
    }
}

impl Default for Sidebar {
    fn default() -> (r: Self)
        ensures
            r.addresses@.len() == 0,
            r.transactions@.len() == 0,
            r.selected_index == 0,
    {
        Sidebar { addresses: Vec::new(), transactions: Vec::new(), selected_index: 0 }
    }
}

impl Sidebar {
    pub open spec fn spec_len(&self, tab: SidebarTab) -> nat {
        match tab {
            SidebarTab::Addresses => self.addresses@.len(),
            SidebarTab::Transactions => self.transactions@.len(),
        }
    }

    /// The entity at a row of a tab, if there is such a row.
    pub open spec fn entity_at(&self, tab: SidebarTab, index: int) -> Option<SelectedEntity> {
        match tab {
            SidebarTab::Addresses => if 0 <= index < self.addresses@.len() {
                Some(SelectedEntity::Address(self.addresses@[index]))
            } else {
                None
            },
            SidebarTab::Transactions => if 0 <= index < self.transactions@.len() {
                Some(SelectedEntity::Transaction(self.transactions@[index]))
            } else {
                None
            },
        }
    }

    pub fn len(&self, tab: SidebarTab) -> (r: usize)
        ensures
            r == self.spec_len(tab),
    {
        match tab {
            SidebarTab::Addresses => self.addresses.len(),
            SidebarTab::Transactions => self.transactions.len(),
        }
    }

    pub fn clamp_selection(&mut self, tab: SidebarTab)
        ensures
            final(self).addresses == old(self).addresses,
            final(self).transactions == old(self).transactions,
            final(self).selected_index == clamped(old(self).selected_index as nat, old(self).spec_len(tab)),
    {
        let len = self.len(tab);
        if len == 0 {
            self.selected_index = 0;
        } else if self.selected_index >= len {
            self.selected_index = len - 1;
        }
    }

    pub fn set_addresses(&mut self, items: Vec<AddressRef>, current_tab: SidebarTab)
        ensures
            final(self).addresses == items,
            final(self).transactions == old(self).transactions,
            final(self).selected_index == if current_tab == SidebarTab::Addresses {
                clamped(old(self).selected_index as nat, items@.len())
            } else {
                old(self).selected_index as nat
            },
    {
        self.addresses = items;
        if current_tab == SidebarTab::Addresses {
            self.clamp_selection(SidebarTab::Addresses);
        }
    }

    pub fn set_transactions(&mut self, items: Vec<TransactionRef>, current_tab: SidebarTab)
        ensures
            final(self).transactions == items,
            final(self).addresses == old(self).addresses,
            final(self).selected_index == if current_tab == SidebarTab::Transactions {
                clamped(old(self).selected_index as nat, items@.len())
            } else {
                old(self).selected_index as nat
            },
    {
        self.transactions = items;
        if current_tab == SidebarTab::Transactions {
            self.clamp_selection(SidebarTab::Transactions);
        }
    }

    pub fn selected_entity(&self, tab: SidebarTab, index: usize) -> (r: Option<SelectedEntity>)
        ensures
            r == self.entity_at(tab, index as int),
    {
        match tab {
            SidebarTab::Addresses => if index < self.addresses.len() {
                Some(SelectedEntity::Address(self.addresses[index].clone()))
            } else {
                None
            },
            SidebarTab::Transactions => if index < self.transactions.len() {
                Some(SelectedEntity::Transaction(self.transactions[index].clone()))
            } else {
                None
            },
        }
    }

    pub fn current_selection(&self, tab: SidebarTab, index: usize) -> (r: Option<SelectedEntity>)
        ensures
            r == self.entity_at(tab, index as int),
    {
        self.selected_entity(tab, index)
    }

    pub fn active_selection(&self, tab: SidebarTab) -> (r: Option<SelectedEntity>)
        ensures
            r == self.entity_at(tab, self.selected_index as int),
    {
        self.selected_entity(tab, self.selected_index)
    }

    /// The text of a row: `short address [chain]` for addresses,
    /// `chain • label` for transactions, empty past the end.
    pub fn display_label(&self, tab: SidebarTab, index: usize) -> (r: String)
        ensures
            r@ == (match self.entity_at(tab, index as int) {
                Some(SelectedEntity::Address(a)) => crate::model::short_of(a.address@) + " ["@
                    + a.chain@ + "]"@,
                Some(SelectedEntity::Transaction(t)) => t.chain@ + " • "@ + t.label@,
                None => Seq::empty(),
            }),
    {
        match tab {
            SidebarTab::Addresses => if index < self.addresses.len() {
                let a = &self.addresses[index];
                let s = join3(short_hex(a.address.as_str()).as_str(), " [", a.chain.as_str());
                join2(s.as_str(), "]")
            } else {
                String::new()
            },
            SidebarTab::Transactions => if index < self.transactions.len() {
                let t = &self.transactions[index];
                join3(t.chain.as_str(), " • ", t.label.as_str())
            } else {
                String::new()
            },
        }
    }

    /// Whether a favorite address is listed.
    fn lists_address(&self, address: &str) -> (r: bool)
        ensures
            r == has_address(self.addresses@, address@),
    {
        let mut i: usize = 0;
        while i < self.addresses.len()
            invariant
                i <= self.addresses@.len(),
                forall|j: int| 0 <= j < i ==> (#[trigger] self.addresses@[j]).address@ != address@,
            decreases self.addresses@.len() - i,
        {
            if text_is(self.addresses[i].address.as_str(), address) {
                return true;
            }
            i = i + 1;
        }
        false
    }

    /// Whether a favorite transaction is listed.
    fn lists_hash(&self, hash: &str) -> (r: bool)
        ensures
            r == has_hash(self.transactions@, hash@),
    {
        let mut i: usize = 0;
        while i < self.transactions.len()
            invariant
                i <= self.transactions@.len(),
                forall|j: int| 0 <= j < i ==> (#[trigger] self.transactions@[j]).hash@ != hash@,
            decreases self.transactions@.len() - i,
        {
            if text_is(self.transactions[i].hash.as_str(), hash) {
                return true;
            }
            i = i + 1;
        }
        false
    }
}

pub open spec fn keeps_address(a: Seq<char>) -> spec_fn(AddressRef) -> bool {
    |x: AddressRef| x.address@ != a
}

pub open spec fn keeps_hash(h: Seq<char>) -> spec_fn(TransactionRef) -> bool {
    |x: TransactionRef| x.hash@ != h
}

/// The address list without the entries for an address.
fn without_address(v: &Vec<AddressRef>, address: &str) -> (r: Vec<AddressRef>)
    ensures
        r@ == v@.filter(keeps_address(address@)),
{
    let mut out: Vec<AddressRef> = Vec::new();
    let mut i: usize = 0;
    while i < v.len()
        invariant
            i <= v@.len(),
            out@ == v@.subrange(0, i as int).filter(keeps_address(address@)),
        decreases v@.len() - i,
    {
        proof {
            reveal(Seq::filter);
        }
        let ghost pre = v@.subrange(0, i as int);
        let ghost next = v@.subrange(0, i + 1);
        assert(next.drop_last() =~= pre);
        assert(next.last() == v@[i as int]);
        if !text_is(v[i].address.as_str(), address) {
            out.push(v[i].clone());
            assert(next.filter(keeps_address(address@)) == pre.filter(keeps_address(address@)).push(v@[i as int]));
        } else {
            assert(next.filter(keeps_address(address@)) == pre.filter(keeps_address(address@)));
        }
        i = i + 1;
    }
    assert(v@.subrange(0, v@.len() as int) =~= v@);
    out
}

/// The transaction list without the entries for a hash.
fn without_hash(v: &Vec<TransactionRef>, hash: &str) -> (r: Vec<TransactionRef>)
    ensures
        r@ == v@.filter(keeps_hash(hash@)),
{
    let mut out: Vec<TransactionRef> = Vec::new();
    let mut i: usize = 0;
    while i < v.len()
        invariant
            i <= v@.len(),
            out@ == v@.subrange(0, i as int).filter(keeps_hash(hash@)),
        decreases v@.len() - i,
    {
        proof {
            reveal(Seq::filter);
        }
        let ghost pre = v@.subrange(0, i as int);
        let ghost next = v@.subrange(0, i + 1);
        assert(next.drop_last() =~= pre);
        assert(next.last() == v@[i as int]);
        if !text_is(v[i].hash.as_str(), hash) {
            out.push(v[i].clone());
            assert(next.filter(keeps_hash(hash@)) == pre.filter(keeps_hash(hash@)).push(v@[i as int]));
        } else {
            assert(next.filter(keeps_hash(hash@)) == pre.filter(keeps_hash(hash@)));
        }
        i = i + 1;
    }
    assert(v@.subrange(0, v@.len() as int) =~= v@);
    out
}

/// The lists after a favorite is added: at the front, when not listed yet.
pub open spec fn lists_after_add(s: Sidebar, entity: SelectedEntity) -> (Seq<AddressRef>, Seq<TransactionRef>) {
    match entity {
        SelectedEntity::Address(a) => (
            if has_address(s.addresses@, a.address@) {
                s.addresses@
            } else {
                seq![a] + s.addresses@
            },
            s.transactions@,
        ),
        SelectedEntity::Transaction(t) => (
            s.addresses@,
            if has_hash(s.transactions@, t.hash@) {
                s.transactions@
            } else {
                seq![t] + s.transactions@
            },
        ),
    }
}

/// The lists after a favorite is removed.
pub open spec fn lists_after_remove(s: Sidebar, entity: SelectedEntity) -> (Seq<AddressRef>, Seq<TransactionRef>) {
    match entity {
        SelectedEntity::Address(a) => (s.addresses@.filter(keeps_address(a.address@)), s.transactions@),
        SelectedEntity::Transaction(t) => (s.addresses@, s.transactions@.filter(keeps_hash(t.hash@))),
    }
}

/// The tab that an entity's kind is listed under.
pub open spec fn tab_of(entity: SelectedEntity) -> SidebarTab {
    match entity {
        SelectedEntity::Address(_) => SidebarTab::Addresses,
        SelectedEntity::Transaction(_) => SidebarTab::Transactions,
    }
}

/// Whether an entity is listed.
pub open spec fn listed(s: Sidebar, entity: SelectedEntity) -> bool {
    match entity {
        SelectedEntity::Address(a) => has_address(s.addresses@, a.address@),
        SelectedEntity::Transaction(t) => has_hash(s.transactions@, t.hash@),
    }
}

impl Sidebar {
    /// Applies a command; `tab` is the active sidebar tab. When the selection
    /// moved, the entity now selected is handed back as a selection change.
    pub fn update(&mut self, command: &SidebarCommand, tab: &mut SidebarTab) -> (r: Option<Action>)
        ensures
            ({
                let s = *old(self);
                let t = *old(tab);
                let len = s.spec_len(t);
                let i = s.selected_index as nat;
                let (new_tab, new_index, lists, changed) = match *command {
                    SidebarCommand::MoveUp => (t, if i > 0 { (i - 1) as nat } else { i }, (s.addresses@, s.transactions@), i > 0),
                    SidebarCommand::MoveDown => (t, if len > 0 { clamped(i + 1, len) } else { i }, (s.addresses@, s.transactions@), len > 0),
                    SidebarCommand::NextTab => (other_tab(t), 0nat, (s.addresses@, s.transactions@), true),
                    SidebarCommand::PreviousTab => (other_tab(t), 0nat, (s.addresses@, s.transactions@), true),
                    SidebarCommand::SelectIndex(n) => (t, if len > 0 { clamped(n as nat, len) } else { i }, (s.addresses@, s.transactions@), len > 0),
                    SidebarCommand::SwitchTab(n) => (n, 0nat, (s.addresses@, s.transactions@), true),
                    SidebarCommand::HydrationStarted => (t, i, (s.addresses@, s.transactions@), false),
                    SidebarCommand::HydrationFinished => (t, i, (s.addresses@, s.transactions@), false),
                    SidebarCommand::AddFavorite(e) => {
                        let l = lists_after_add(s, e);
                        let fresh = !listed(s, e) && tab_of(e) == t;
                        let len2 = if t == SidebarTab::Addresses { l.0.len() } else { l.1.len() };
                        (t, clamped(if fresh { 0 } else { i }, len2), l, fresh)
                    },
                    SidebarCommand::RemoveFavorite(e) => {
                        let l = lists_after_remove(s, e);
                        let len2 = if t == SidebarTab::Addresses { l.0.len() } else { l.1.len() };
                        (t, clamped(i, len2), l, listed(s, e) && tab_of(e) == t)
                    },
                };
                &&& *final(tab) == new_tab
                &&& final(self).selected_index == new_index
                &&& final(self).addresses@ == lists.0
                &&& final(self).transactions@ == lists.1
                &&& r == (if changed && final(self).entity_at(new_tab, new_index as int) is Some {
                    Some(Action::SelectionChanged(final(self).entity_at(new_tab, new_index as int)->0))
                } else {
                    None
                })
            }),
    {
        let mut selection_changed = false;
        match command {
            SidebarCommand::MoveUp => {
                if self.selected_index > 0 {
                    self.selected_index = self.selected_index - 1;
                    selection_changed = true;
                }
            },
            SidebarCommand::MoveDown => {
                let len = self.len(*tab);
                if len > 0 {
                    self.selected_index = if self.selected_index >= len - 1 { len - 1 } else { self.selected_index + 1 };
                    selection_changed = true;
                }
            },
            SidebarCommand::NextTab => {
                *tab = tab.next();
                self.selected_index = 0;
                self.clamp_selection(*tab);
                selection_changed = true;
            },
            SidebarCommand::PreviousTab => {
                *tab = tab.previous();
                self.selected_index = 0;
                self.clamp_selection(*tab);
                selection_changed = true;
            },
            SidebarCommand::SelectIndex(index) => {
                let len = self.len(*tab);
                if len > 0 {
                    self.selected_index = if *index >= len { len - 1 } else { *index };
                    selection_changed = true;
                }
            },
            SidebarCommand::SwitchTab(t) => {
                *tab = *t;
                self.selected_index = 0;
                self.clamp_selection(*t);
                selection_changed = true;
            },
            SidebarCommand::HydrationStarted | SidebarCommand::HydrationFinished => {},
            SidebarCommand::AddFavorite(entity) => {
                let current_tab = *tab;
                match entity {
                    SelectedEntity::Address(addr) => {
                        if !self.lists_address(addr.address.as_str()) {
                            self.addresses.insert(0, addr.clone());
                            assert(self.addresses@ =~= seq![*addr] + old(self).addresses@);
                            if current_tab == SidebarTab::Addresses {
                                self.selected_index = 0;
                                selection_changed = true;
                            }
                        }
                    },
                    SelectedEntity::Transaction(tx) => {
                        if !self.lists_hash(tx.hash.as_str()) {
                            self.transactions.insert(0, tx.clone());
                            assert(self.transactions@ =~= seq![*tx] + old(self).transactions@);
                            if current_tab == SidebarTab::Transactions {
                                self.selected_index = 0;
                                selection_changed = true;
                            }
                        }
                    },
                }
                self.clamp_selection(current_tab);
            },
            SidebarCommand::RemoveFavorite(entity) => {
                let current_tab = *tab;
                match entity {
                    SelectedEntity::Address(addr) => {
                        if self.lists_address(addr.address.as_str()) {
                            self.addresses = without_address(&self.addresses, addr.address.as_str());
                            if current_tab == SidebarTab::Addresses {
                                selection_changed = true;
                            }
                        } else {
                            proof {
                                lemma_filter_keeps_all(self.addresses@, keeps_address(addr.address@));
                            }
                        }
                    },
                    SelectedEntity::Transaction(tx) => {
                        if self.lists_hash(tx.hash.as_str()) {
                            self.transactions = without_hash(&self.transactions, tx.hash.as_str());
                            if current_tab == SidebarTab::Transactions {
                                selection_changed = true;
                            }
                        } else {
                            proof {
                                lemma_filter_keeps_all(self.transactions@, keeps_hash(tx.hash@));
                            }
                        }
                    },
                }
                self.clamp_selection(current_tab);
            },
        }
        if selection_changed {
            if let Some(entity) = self.selected_entity(*tab, self.selected_index) {
                return Some(Action::SelectionChanged(entity));
            }
        }
        None
    }
}

/// Filtering with a predicate that every element meets keeps the sequence.
pub proof fn lemma_filter_keeps_all<A>(s: Seq<A>, p: spec_fn(A) -> bool)
    requires
        forall|i: int| 0 <= i < s.len() ==> p(#[trigger] s[i]),
    ensures
        s.filter(p) == s,
    decreases s.len(),
{
    reveal(Seq::filter);
    if s.len() > 0 {
        let d = s.drop_last();
        assert forall|i: int| 0 <= i < d.len() implies p(#[trigger] d[i]) by {
            assert(d[i] == s[i]);
        }
        assert(p(s.last()));
        lemma_filter_keeps_all(d, p);
        assert(s.filter(p) == d.filter(p).push(s.last()));
        assert(d.push(s.last()) =~= s);
    }
}

} // verus!
