//! The application state that the dispatcher mutates: navigation, loading
//! flags, the selection and its hydrated data, favorites membership, secrets,
//! and the cache of transaction rows seen in address tables.
use std::time::Instant;
use vstd::prelude::*;
use crate::hydrate::{HydratedAddress, HydratedTransaction};
use crate::model::{AddressTransactionRow, SelectedEntity};
use crate::navigation::{FocusedPane, NavigationState};
use crate::text::{copy_opt, text_is, trim_text, trimmed_text};

verus! {

/// `std::time::Instant`, carried opaquely as the moment a pane started loading.
#[verifier::external_type_specification]
#[verifier::external_body]
pub struct ExInstant(Instant);

/// Relies on `Instant::now`: the current moment; nothing is known of its value.
#[verifier::external_body]
fn now() -> Instant {
    Instant::now()
}

#[derive(Debug, Default)]
pub struct PaneLoading {
    pub is_loading: bool,
    pub started_at: Option<Instant>,
}

/// Per-pane loading flags, with the moment loading started.
#[derive(Debug, Default)]
pub struct LoadingState {
    pub top: PaneLoading,
    pub sidebar: PaneLoading,
    pub main_view: PaneLoading,
}

pub open spec fn pane_set(p: PaneLoading, value: bool) -> bool {
    p.is_loading == value && p.started_at is Some == value
}

impl LoadingState {
    /// No pane is loading.
    pub fn new() -> (r: Self)
        ensures
            !r.top.is_loading && !r.sidebar.is_loading && !r.main_view.is_loading,
    {
        LoadingState {
            top: PaneLoading { is_loading: false, started_at: None },
            sidebar: PaneLoading { is_loading: false, started_at: None },
            main_view: PaneLoading { is_loading: false, started_at: None },
        }
    }

    pub fn set_loading(&mut self, pane: FocusedPane, value: bool)
        ensures
            pane == FocusedPane::Top ==> pane_set(final(self).top, value),
            pane != FocusedPane::Top ==> final(self).top == old(self).top,
            pane == FocusedPane::Sidebar ==> pane_set(final(self).sidebar, value),
            pane != FocusedPane::Sidebar ==> final(self).sidebar == old(self).sidebar,
            pane == FocusedPane::MainView ==> pane_set(final(self).main_view, value),
            pane != FocusedPane::MainView ==> final(self).main_view == old(self).main_view,
    {
        let started_at = if value { Some(now()) } else { None };
        match pane {
            FocusedPane::Top => {
                self.top.is_loading = value;
                self.top.started_at = started_at;
            },
            FocusedPane::Sidebar => {
                self.sidebar.is_loading = value;
                self.sidebar.started_at = started_at;
            },
            FocusedPane::MainView => {
                self.main_view.is_loading = value;
                self.main_view.started_at = started_at;
            },
            _ => {},
        }
    }
}

/// The selected row of an address's transaction table.
#[derive(Debug, Default)]
pub struct AddressTransactionsViewState {
    pub selected_index: usize,
}

impl AddressTransactionsViewState {
    pub fn reset(&mut self)
        ensures
            final(self).selected_index == 0,
    {
        self.selected_index = 0;
    }

    /// Keeps the selection inside a table of `len` rows.
    pub fn clamp(&mut self, len: usize)
        ensures
            final(self).selected_index == (if len == 0 {
                0
            } else if old(self).selected_index >= len {
                (len - 1) as usize
            } else {
                old(self).selected_index
            }),
    {
        if len == 0 {
            self.reset();
        } else if self.selected_index >= len {
            self.selected_index = len - 1;
        }
    }
}

/// The credentials the fetchers use.
#[derive(Debug, Default)]
pub struct SecretsState {
    pub etherscan_api_key: Option<String>,
    pub anvil_rpc_url: Option<String>,
}

impl Clone for SecretsState {
    fn clone(&self) -> (r: Self)
        ensures
            r == *self,
    {
        SecretsState {
            etherscan_api_key: copy_opt(&self.etherscan_api_key),
            anvil_rpc_url: copy_opt(&self.anvil_rpc_url),
        }
    }
}

pub open spec fn nonempty_trimmed(s: Seq<char>) -> Option<Seq<char>> {
    if trimmed_text(s).len() == 0 {
        None
    } else {
        Some(trimmed_text(s))
    }
}

pub open spec fn view_of(o: Option<String>) -> Option<Seq<char>> {
    match o {
        Some(s) => Some(s@),
        None => None,
    }
}

impl SecretsState {
    /// The value of a secret: from the environment variable when it is set (a
    /// blank one clears the secret), else the stored value; trimmed either
    /// way, and absent when blank.
    pub fn resolve_secret(env_value: Option<&str>, stored: Option<&str>) -> (r: Option<String>)
        ensures
            view_of(r) == (match env_value {
                Some(e) => nonempty_trimmed(e@),
                None => match stored {
                    Some(s) => nonempty_trimmed(s@),
                    None => None,
                },
            }),
    {
        let source = match env_value {
            Some(e) => e,
            None => match stored {
                Some(s) => s,
                None => {
                    return None;
                },
            },
        };
        let trimmed = trim_text(source);
        if trimmed.as_str().is_empty() {
            None
        } else {
            Some(trimmed)
        }
    }

    /// Both credentials are present.
    pub fn is_complete(&self) -> (r: bool)
        ensures
            r == (self.etherscan_api_key is Some && self.anvil_rpc_url is Some),
    {
        self.etherscan_api_key.is_some() && self.anvil_rpc_url.is_some()
    }
}

/// The identifiers that a list of favorites holds.
pub open spec fn id_set(v: Seq<String>) -> Set<Seq<char>> {
    Set::new(|id: Seq<char>| exists|i: int| 0 <= i < v.len() && (#[trigger] v[i])@ == id)
}

/// No identifier occurs twice.
pub open spec fn distinct_ids(v: Seq<String>) -> bool {
    forall|i: int, j: int| 0 <= i < v.len() && 0 <= j < v.len() && i != j ==> (#[trigger] v[i])@
        != (#[trigger] v[j])@
}

/// Whether a list of favorites holds an identifier.
pub fn contains_id(v: &Vec<String>, id: &str) -> (r: bool)
    ensures
        r == id_set(v@).contains(id@),
{
    let mut i: usize = 0;
    while i < v.len()
        invariant
            i <= v@.len(),
            forall|j: int| 0 <= j < i ==> (#[trigger] v@[j])@ != id@,
        decreases v@.len() - i,
    {
        if text_is(v[i].as_str(), id) {
            assert(id_set(v@).contains(id@)) by {
                assert(v@[i as int]@ == id@);
            }
            return true;
        }
        i = i + 1;
    }
    false
}

/// Adds an identifier that the list does not hold yet.
pub fn insert_id(v: &mut Vec<String>, id: String)
    requires
        !id_set(old(v)@).contains(id@),
        distinct_ids(old(v)@),
    ensures
        id_set(final(v)@) == id_set(old(v)@).insert(id@),
        distinct_ids(final(v)@),
{
    let ghost old_v = v@;
    let ghost idv = id@;
    v.push(id);
    assert forall|x: Seq<char>| #[trigger] id_set(v@).contains(x) == id_set(old_v).insert(idv).contains(x) by {
        if id_set(old_v).contains(x) {
            let i = choose|i: int| 0 <= i < old_v.len() && (#[trigger] old_v[i])@ == x;
            assert(v@[i]@ == x);
        }
        if x == idv {
            assert(v@[old_v.len() as int]@ == x);
        }
        if id_set(v@).contains(x) {
            let i = choose|i: int| 0 <= i < v@.len() && (#[trigger] v@[i])@ == x;
            if i < old_v.len() {
                assert(old_v[i]@ == x);
            }
        }
    }
    assert(id_set(v@) =~= id_set(old_v).insert(idv));
    assert forall|i: int, j: int| 0 <= i < v@.len() && 0 <= j < v@.len() && i != j implies (#[trigger] v@[i])@
        != (#[trigger] v@[j])@ by {
        if i < old_v.len() && j < old_v.len() {
            assert(old_v[i] == v@[i] && old_v[j] == v@[j]);
        } else if i < old_v.len() {
            assert(old_v[i] == v@[i]);
        } else if j < old_v.len() {
            assert(old_v[j] == v@[j]);
        }
    }
}

/// Removes an identifier from the list.
pub fn remove_id(v: &mut Vec<String>, id: &str)
    requires
        distinct_ids(old(v)@),
    ensures
        id_set(final(v)@) == id_set(old(v)@).remove(id@),
        distinct_ids(final(v)@),
{
    let ghost old_v = v@;
    let mut k: usize = 0;
    while k < v.len() && !text_is(v[k].as_str(), id)
        invariant
            v@ == old_v,
            k <= old_v.len(),
            forall|j: int| 0 <= j < k ==> (#[trigger] old_v[j])@ != id@,
        decreases old_v.len() - k,
    {
        k = k + 1;
    }
    if k == v.len() {
        assert(id_set(old_v) =~= id_set(old_v).remove(id@)) by {
            assert forall|x: Seq<char>| id_set(old_v).contains(x) implies x != id@ by {
                let j = choose|j: int| 0 <= j < old_v.len() && (#[trigger] old_v[j])@ == x;
            }
        }
        return;
    }
    v.remove(k);
    let ghost nv = v@;
    assert(nv =~= old_v.remove(k as int));
    assert forall|x: Seq<char>| #[trigger] id_set(nv).contains(x) == id_set(old_v).remove(id@).contains(x) by {
        if id_set(nv).contains(x) {
            let j = choose|j: int| 0 <= j < nv.len() && (#[trigger] nv[j])@ == x;
            if j < k {
                assert(nv[j] == old_v[j]);
            } else {
                assert(nv[j] == old_v[j + 1]);
            }
        }
        if id_set(old_v).contains(x) && x != id@ {
            let j = choose|j: int| 0 <= j < old_v.len() && (#[trigger] old_v[j])@ == x;
            if j < k {
                assert(nv[j] == old_v[j]);
            } else {
                assert(j != k);
                assert(nv[j - 1] == old_v[j]);
            }
        }
    }
    assert(id_set(nv) =~= id_set(old_v).remove(id@));
    assert forall|a: int, b: int| 0 <= a < nv.len() && 0 <= b < nv.len() && a != b implies (#[trigger] nv[a])@
        != (#[trigger] nv[b])@ by {
        let a2 = if a < k { a } else { a + 1 };
        let b2 = if b < k { b } else { b + 1 };
        assert(nv[a] == old_v[a2] && nv[b] == old_v[b2]);
    }
}

/// No two cached rows share a hash.
pub open spec fn distinct_hashes(v: Seq<AddressTransactionRow>) -> bool {
    forall|i: int, j: int| 0 <= i < v.len() && 0 <= j < v.len() && i != j ==> (#[trigger] v[i]).hash@
        != (#[trigger] v[j]).hash@
}

/// The cached row for a hash.
pub fn cached_row(cache: &Vec<AddressTransactionRow>, hash: &str) -> (r: Option<AddressTransactionRow>)
    ensures
        r matches Some(row) ==> exists|i: int| 0 <= i < cache@.len() && cache@[i] == row && row.hash@ == hash@,
        r is None ==> forall|i: int| 0 <= i < cache@.len() ==> (#[trigger] cache@[i]).hash@ != hash@,
{
    let mut i: usize = 0;
    while i < cache.len()
        invariant
            i <= cache@.len(),
            forall|j: int| 0 <= j < i ==> (#[trigger] cache@[j]).hash@ != hash@,
        decreases cache@.len() - i,
    {
        if text_is(cache[i].hash.as_str(), hash) {
            return Some(cache[i].clone());
        }
        i = i + 1;
    }
    None
}

/// Caches a row, replacing the one with the same hash.
#[verifier::rlimit(60)]
pub fn cache_row(cache: &mut Vec<AddressTransactionRow>, row: AddressTransactionRow)
    requires
        distinct_hashes(old(cache)@),
    ensures
        distinct_hashes(final(cache)@),
        exists|i: int| 0 <= i < final(cache)@.len() && final(cache)@[i] == row,
        forall|i: int| 0 <= i < old(cache)@.len() && (#[trigger] old(cache)@[i]).hash@ != row.hash@ ==> exists|j: int|
            0 <= j < final(cache)@.len() && final(cache)@[j] == old(cache)@[i],
        forall|j: int| 0 <= j < final(cache)@.len() ==> (#[trigger] final(cache)@[j]) == row || exists|i: int|
            0 <= i < old(cache)@.len() && old(cache)@[i] == final(cache)@[j],
{
    let ghost old_c = cache@;
    let mut k: usize = 0;
    while k < cache.len() && !text_is(cache[k].hash.as_str(), row.hash.as_str())
        invariant
            cache@ == old_c,
            k <= old_c.len(),
            forall|j: int| 0 <= j < k ==> (#[trigger] old_c[j]).hash@ != row.hash@,
        decreases old_c.len() - k,
    {
        k = k + 1;
    }
    if k < cache.len() {
        cache.remove(k);
        assert(cache@ =~= old_c.remove(k as int));
    }
    let ghost mid = cache@;
    assert forall|j: int| 0 <= j < mid.len() implies (#[trigger] mid[j]).hash@ != row.hash@
        && exists|i: int| 0 <= i < old_c.len() && old_c[i] == mid[j] by {
        if k < old_c.len() {
            let i = if j < k { j } else { j + 1 };
            assert(mid[j] == old_c[i]);
            assert(i != k);
        } else {
            assert(mid[j] == old_c[j]);
        }
    }
    assert forall|i: int| 0 <= i < old_c.len() && (#[trigger] old_c[i]).hash@ != row.hash@ implies exists|j: int|
        0 <= j < mid.len() && mid[j] == old_c[i] by {
        if k < old_c.len() {
            assert(i != k);
            let j = if i < k { i } else { i - 1 };
            assert(mid[j] == old_c[i]);
        } else {
            assert(mid[i] == old_c[i]);
        }
    }
    assert forall|a: int, b: int| 0 <= a < mid.len() && 0 <= b < mid.len() && a != b implies (#[trigger] mid[a]).hash@
        != (#[trigger] mid[b]).hash@ by {
        if k < old_c.len() {
            let a2 = if a < k { a } else { a + 1 };
            let b2 = if b < k { b } else { b + 1 };
            assert(mid[a] == old_c[a2] && mid[b] == old_c[b2]);
        } else {
            assert(mid[a] == old_c[a] && mid[b] == old_c[b]);
        }
    }
    let ghost r = row;
    cache.push(row);
    assert(cache@ == mid.push(r));
    assert(cache@[mid.len() as int] == r);
    assert forall|i: int| 0 <= i < old_c.len() && (#[trigger] old_c[i]).hash@ != r.hash@ implies exists|j: int|
        0 <= j < cache@.len() && cache@[j] == old_c[i] by {
        let j = choose|j: int| 0 <= j < mid.len() && mid[j] == old_c[i];
        assert(cache@[j] == mid[j]);
    }
    assert forall|j: int| 0 <= j < cache@.len() implies (#[trigger] cache@[j]) == r || exists|i: int|
        0 <= i < old_c.len() && old_c[i] == cache@[j] by {
        if j < mid.len() {
            assert(cache@[j] == mid[j]);
        }
    }
    assert forall|a: int, b: int| 0 <= a < cache@.len() && 0 <= b < cache@.len() && a != b implies (#[trigger] cache@[a]).hash@
        != (#[trigger] cache@[b]).hash@ by {
        if a < mid.len() {
            assert(cache@[a] == mid[a]);
        }
        if b < mid.len() {
            assert(cache@[b] == mid[b]);
        }
    }
}

/// Everything the dispatcher mutates.
#[derive(Debug, Default)]
pub struct AppState {
    pub navigation: NavigationState,
    pub loading: LoadingState,
    pub selected: Option<SelectedEntity>,
    pub search_error: Option<String>,
    pub secrets: SecretsState,
    pub favorite_addresses: Vec<String>,
    pub favorite_transactions: Vec<String>,
    pub current_address: Option<HydratedAddress>,
    pub current_transaction: Option<HydratedTransaction>,
    pub address_transactions_view: AddressTransactionsViewState,
    pub pending_transaction_preview: Option<AddressTransactionRow>,
    pub transaction_preview_cache: Vec<AddressTransactionRow>,
}

impl AppState {
    /// The navigation invariant holds, favorites hold no identifier twice, and
    /// the cache holds one row per hash.
    pub open spec fn wf(&self) -> bool {
        &&& self.navigation.wf()
        &&& distinct_ids(self.favorite_addresses@)
        &&& distinct_ids(self.favorite_transactions@)
        &&& distinct_hashes(self.transaction_preview_cache@)
    }

    /// Whether an entity is among the favorites of its kind.
    pub open spec fn spec_is_favorite(&self, entity: SelectedEntity) -> bool {
        match entity {
            SelectedEntity::Address(a) => id_set(self.favorite_addresses@).contains(a.address@),
            SelectedEntity::Transaction(t) => id_set(self.favorite_transactions@).contains(t.hash@),
        }
    }

    pub fn is_favorite(&self, entity: &SelectedEntity) -> (r: bool)
        ensures
            r == self.spec_is_favorite(*entity),
    {
        match entity {
            SelectedEntity::Address(addr) => contains_id(&self.favorite_addresses, addr.address.as_str()),
            SelectedEntity::Transaction(tx) => contains_id(&self.favorite_transactions, tx.hash.as_str()),
        }
    }
}

} // verus!
