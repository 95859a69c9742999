//! The dispatcher: the single place where actions, key events, background
//! messages and favorite toggles change the application state.
use vstd::prelude::*;
use crate::actions::{Action, Effect, Message};
use crate::hydrate::HydratedAddress;
use crate::input::{KeyCode, KeyEvent};
use crate::main_view::{MainView, MainViewCommand};
use crate::model::{
    short_of, texts, AddressRef, AddressTransactionRow, SelectedEntity, TransactionRef,
};
use crate::navigation::{
    default_tab, FocusedPane, MainViewMode, MainViewTab, NavigationState,
    SidebarTab,
};
use crate::secrets::{SecretsModal, SecretsOutcome};
use crate::sidebar::{lists_after_add, lists_after_remove, Sidebar, SidebarCommand};
use crate::state::{
    cache_row, cached_row, contains_id, distinct_ids, id_set, insert_id,
    remove_id, AppState, SecretsState,
};
use crate::text::{copy_opt, eq_ignore_case, join2, join3, same_ignoring_case, short_hex, text_is};
use crate::top::{TopBar, TopCommand};
use crate::wei::{ether_text, format_ether};

verus! {

/// A favorite as the store keeps it.
#[derive(Debug, PartialEq, Eq, Default)]
pub struct FavoriteRecord {
    pub label: Option<String>,
    pub identifier: String,
    pub chain: String,
}

impl Clone for FavoriteRecord {
    fn clone(&self) -> (r: Self)
        ensures
            r == *self,
    {
        FavoriteRecord {
            label: copy_opt(&self.label),
            identifier: self.identifier.clone(),
            chain: self.chain.clone(),
        }
    }
}

/// Which favorites partition a change concerns.
#[derive(Debug, Clone, Copy, PartialEq, Eq, Structural)]
pub enum FavoriteKind {
    Address,
    Transaction,
}

/// A change to the favorites, to be stored before it is applied in memory.
#[derive(Debug, PartialEq, Eq)]
pub enum FavoriteChange {
    Add { kind: FavoriteKind, record: FavoriteRecord },
    Remove { kind: FavoriteKind, identifier: String },
}

/// Outside work that a key or a paste asks for and that must finish before
/// the state changes.
#[derive(Debug)]
pub enum Request {
    /// Toggle the selected entity's favorite (see `favorite_change`).
    ToggleFavorite,
    /// Store both secrets, then call `secrets_saved`.
    SaveSecrets { etherscan: String, anvil: String },
}

/// The orchestration state: what the loop owns besides the terminal, the
/// stores and the worker pool.
#[derive(Debug)]
pub struct App {
    pub running: bool,
    pub state: AppState,
    pub top_bar: TopBar,
    pub sidebar: Sidebar,
    pub main_view: MainView,
    pub secrets_modal: Option<SecretsModal>,
    pub effects: Vec<Effect>,
}

pub open spec fn kind_of(entity: SelectedEntity) -> FavoriteKind {
    match entity {
        SelectedEntity::Address(_) => FavoriteKind::Address,
        SelectedEntity::Transaction(_) => FavoriteKind::Transaction,
    }
}

/// The record that favoriting an entity stores.
pub open spec fn record_for(entity: SelectedEntity) -> FavoriteRecord {
    match entity {
        SelectedEntity::Address(a) => FavoriteRecord { label: Some(a.label), identifier: a.address, chain: a.chain },
        SelectedEntity::Transaction(t) => FavoriteRecord { label: Some(t.label), identifier: t.hash, chain: t.chain },
    }
}

pub open spec fn id_string(entity: SelectedEntity) -> String {
    match entity {
        SelectedEntity::Address(a) => a.address,
        SelectedEntity::Transaction(t) => t.hash,
    }
}

/// The change that toggling an entity makes, given whether it is a favorite.
pub open spec fn toggle_change(member: bool, entity: SelectedEntity) -> FavoriteChange {
    if member {
        FavoriteChange::Remove { kind: kind_of(entity), identifier: id_string(entity) }
    } else {
        FavoriteChange::Add { kind: kind_of(entity), record: record_for(entity) }
    }
}

/// The identifiers of a partition after a change to it.
pub open spec fn members_after(members: Set<Seq<char>>, change: FavoriteChange) -> Set<Seq<char>> {
    match change {
        FavoriteChange::Add { record, .. } => members.insert(record.identifier@),
        FavoriteChange::Remove { identifier, .. } => members.remove(identifier@),
    }
}

/// A partition of the store after a change to it.
pub open spec fn store_after(
    store: Map<Seq<char>, FavoriteRecord>,
    change: FavoriteChange,
) -> Map<Seq<char>, FavoriteRecord> {
    match change {
        FavoriteChange::Add { record, .. } => store.insert(record.identifier@, record),
        FavoriteChange::Remove { identifier, .. } => store.remove(identifier@),
    }
}

/// Toggling a favorite twice gives back the membership it started from.
pub proof fn lemma_toggle_twice_membership(members: Set<Seq<char>>, entity: SelectedEntity)
    ensures
        ({
            let c1 = toggle_change(members.contains(entity.identifier()), entity);
            let m1 = members_after(members, c1);
            let c2 = toggle_change(m1.contains(entity.identifier()), entity);
            members_after(m1, c2) == members
        }),
{
    let id = entity.identifier();
    let c1 = toggle_change(members.contains(id), entity);
    let m1 = members_after(members, c1);
    let c2 = toggle_change(m1.contains(id), entity);
    assert(members_after(m1, c2) =~= members);
}

/// Toggling a favorite twice gives back the store it started from, when the
/// store agrees with the membership and, if it holds the entity, holds the
/// record that favoriting it writes.
pub proof fn lemma_toggle_twice_store(
    members: Set<Seq<char>>,
    store: Map<Seq<char>, FavoriteRecord>,
    entity: SelectedEntity,
)
    requires
        forall|id: Seq<char>| members.contains(id) <==> store.dom().contains(id),
        store.dom().contains(entity.identifier()) ==> store[entity.identifier()] == record_for(entity),
    ensures
        ({
            let c1 = toggle_change(members.contains(entity.identifier()), entity);
            let m1 = members_after(members, c1);
            let c2 = toggle_change(m1.contains(entity.identifier()), entity);
            store_after(store_after(store, c1), c2) == store
        }),
{
    let id = entity.identifier();
    let c1 = toggle_change(members.contains(id), entity);
    let m1 = members_after(members, c1);
    let c2 = toggle_change(m1.contains(id), entity);
    if !members.contains(id) {
        assert(!store.dom().contains(id));
    }
    assert(store_after(store_after(store, c1), c2) =~= store);
}

/// Whether a hydration result belongs to the selected entity: addresses match
/// without regard to case, hashes exactly.
pub open spec fn result_applies(selected: Option<SelectedEntity>, msg: Message) -> bool {
    match msg {
        Message::AddressHydrated(d) => selected matches Some(SelectedEntity::Address(a))
            && same_ignoring_case(a.address@, d.identifier@),
        Message::TransactionHydrated(d) => selected matches Some(SelectedEntity::Transaction(t))
            && t.hash@ == d.identifier@,
        _ => false,
    }
}

/// Two selections name the same entity.
pub open spec fn same_entity(a: SelectedEntity, b: SelectedEntity) -> bool {
    match (a, b) {
        (SelectedEntity::Address(x), SelectedEntity::Address(y)) => same_ignoring_case(x.address@, y.address@),
        (SelectedEntity::Transaction(x), SelectedEntity::Transaction(y)) => x.hash@ == y.hash@,
        _ => false,
    }
}

/// A result that hydrates entity `a` does not apply once another entity `b`
/// is selected; `handle_message` then leaves the whole state as it was.
pub proof fn lemma_superseded_result_ignored(a: SelectedEntity, b: SelectedEntity, msg: Message)
    requires
        !same_entity(a, b),
        match msg {
            Message::AddressHydrated(d) => a is Address && d.identifier@ == a.identifier(),
            Message::TransactionHydrated(d) => a is Transaction && d.identifier@ == a.identifier(),
            _ => false,
        },
    ensures
        !result_applies(Some(b), msg),
{
}

/// The selection stays, or becomes the entity now highlighted in the sidebar.
pub open spec fn selection_follows_sidebar(before: App, after: App) -> bool {
    ||| after.state.selected == before.state.selected
    ||| (after.sidebar.entity_at(after.state.navigation.sidebar_tab, after.sidebar.selected_index as int) is Some
        && after.state.selected == after.sidebar.entity_at(
        after.state.navigation.sidebar_tab,
        after.sidebar.selected_index as int,
    ))
}

/// Only the navigation differs.
pub open spec fn only_navigation_changed(before: App, after: App) -> bool {
    &&& after.state == AppState { navigation: after.state.navigation, ..before.state }
    &&& after.top_bar == before.top_bar
    &&& after.sidebar == before.sidebar
    &&& after.effects == before.effects
    &&& after.secrets_modal == before.secrets_modal
    &&& after.running == before.running
}

/// The rows of an address view's table, none when it has no table.
pub open spec fn table_rows(d: HydratedAddress) -> Seq<AddressTransactionRow> {
    match d.transactions_table {
        Some(t) => t.rows@,
        None => Seq::empty(),
    }
}

/// A cache holds a row for every row of a table (the last one of a hash wins).
pub open spec fn rows_cached(cache: Seq<AddressTransactionRow>, rows: Seq<AddressTransactionRow>) -> bool {
    forall|j: int| 0 <= j < rows.len() ==> exists|k: int| 0 <= k < cache.len() && (#[trigger] cache[k]).hash@
        == (#[trigger] rows[j]).hash@
}

/// Only the loading flags differ.
pub open spec fn only_loading_changed(before: App, after: App) -> bool {
    &&& after.state == AppState { loading: after.state.loading, ..before.state }
    &&& after.top_bar == before.top_bar
    &&& after.sidebar == before.sidebar
    &&& after.effects == before.effects
    &&& after.secrets_modal == before.secrets_modal
    &&& after.running == before.running
}

pub open spec fn status_is(bar: TopBar, text: Seq<char>) -> bool {
    bar.status matches Some(s) && s@ == text
}

/// What applying a hydration result does: the data becomes current, the
/// selection stays, and the main view stops loading.
pub open spec fn applied_hydration(before: App, after: App, msg: Message) -> bool {
    match msg {
        Message::AddressHydrated(d) => {
            &&& after.state.current_address == Some(d)
            &&& after.state.selected == before.state.selected
            &&& !after.state.loading.main_view.is_loading
            &&& status_is(after.top_bar, hydrated_status(d))
            &&& after.state.address_transactions_view.selected_index as nat == crate::sidebar::clamped(
                before.state.address_transactions_view.selected_index as nat,
                table_rows(d).len(),
            )
            &&& rows_cached(after.state.transaction_preview_cache@, table_rows(d))
        },
        Message::TransactionHydrated(d) => {
            &&& after.state.current_transaction == Some(d)
            &&& after.state.selected == before.state.selected
            &&& !after.state.loading.main_view.is_loading
        },
        _ => true,
    }
}

/// What a search result does: a found entity is selected and the main view
/// takes focus; a failure is kept as the search error.
pub open spec fn search_handled(before: App, after: App, msg: Message) -> bool {
    match msg {
        Message::SearchCompleted { entity, .. } => {
            &&& after.state.selected == Some(entity)
            &&& after.state.search_error is None
            &&& !after.state.loading.top.is_loading
            &&& after.effects@.len() > 0
            &&& hydration_effect(after.effects@.last(), entity, before.state.secrets)
            &&& after.state.navigation.focused_pane == before.state.navigation.after_focus_pane(
                FocusedPane::MainView,
            ).focused_pane
        },
        Message::SearchFailed { error, .. } => {
            &&& after.state.search_error == Some(error)
            &&& after.state.selected == before.state.selected
            &&& !after.state.loading.top.is_loading
        },
        _ => true,
    }
}

/// The keyword lines that the status after an address hydration prefers.
pub open spec fn flagged(line: Seq<char>) -> bool {
    has_text(line, "Balance"@) || has_text(line, "Failed"@) || has_text(line, "Account query"@)
        || has_text(line, "Configure an Anvil"@)
}

pub open spec fn has_text(h: Seq<char>, n: Seq<char>) -> bool {
    exists|i: int| 0 <= i && i + n.len() <= h.len() && #[trigger] h.subrange(i, i + n.len()) == n
}

/// The first flagged line.
pub open spec fn first_flagged(lines: Seq<Seq<char>>) -> Option<Seq<char>>
    decreases lines.len(),
{
    if lines.len() == 0 {
        None
    } else if flagged(lines[0]) {
        Some(lines[0])
    } else {
        first_flagged(lines.drop_first())
    }
}

/// The status shown when an address's data arrives.
pub open spec fn hydrated_status(d: HydratedAddress) -> Seq<char> {
    match d.overview {
        Some(o) => "Balance: "@ + ether_text(o.balance_wei@) + " ETH"@,
        None => match first_flagged(texts(d.info@)) {
            Some(l) => l,
            None => if d.info@.len() > 0 {
                d.info@[0]@
            } else {
                "No account data available."@
            },
        },
    }
}

/// Whether a text holds another.
pub fn text_contains(h: &str, n: &str) -> (r: bool)
    ensures
        r == has_text(h@, n@),
{
    let hl = h.unicode_len();
    let nl = n.unicode_len();
    if nl > hl {
        return false;
    }
    let last = hl - nl;
    let mut i: usize = 0;
    while i <= last
        invariant
            hl == h@.len(),
            nl == n@.len(),
            last == hl - nl,
            i <= last,
            forall|j: int| 0 <= j < i ==> #[trigger] h@.subrange(j, j + nl) != n@,
        decreases last - i,
    {
        if text_is(h.substring_char(i, i + nl), n) {
            return true;
        }
        if i == last {
            assert forall|j: int| 0 <= j && j + n@.len() <= h@.len() implies #[trigger] h@.subrange(j, j + n@.len()) != n@ by {
                assert(j <= i);
            }
            return false;
        }
        i = i + 1;
    }
    false
}

fn is_flagged(line: &str) -> (r: bool)
    ensures
        r == flagged(line@),
{
    text_contains(line, "Balance") || text_contains(line, "Failed") || text_contains(
        line,
        "Account query",
    ) || text_contains(line, "Configure an Anvil")
}

/// The status line for an address's arriving data: its balance when the
/// overview loaded, else the first line that names a balance, a failure, a
/// timeout or a missing endpoint, else its first line.
pub fn status_for(data: &HydratedAddress) -> (r: String)
    ensures
        r@ == hydrated_status(*data),
{
    if let Some(ov) = &data.overview {
        let eth = format_ether(&ov.balance_wei);
        return join3("Balance: ", eth.as_str(), " ETH");
    }
    let mut i: usize = 0;
    assert(texts(data.info@).subrange(0, data.info@.len() as int) =~= texts(data.info@));
    while i < data.info.len()
        invariant
            i <= data.info@.len(),
            data.overview is None,
            first_flagged(texts(data.info@)) == first_flagged(texts(data.info@).subrange(i as int, data.info@.len() as int)),
        decreases data.info@.len() - i,
    {
        let ghost rest = texts(data.info@).subrange(i as int, data.info@.len() as int);
        assert(rest[0] == data.info@[i as int]@);
        assert(rest.drop_first() =~= texts(data.info@).subrange(i + 1, data.info@.len() as int));
        if is_flagged(data.info[i].as_str()) {
            return data.info[i].clone();
        }
        i = i + 1;
    }
    if data.info.len() > 0 {
        data.info[0].clone()
    } else {
        "No account data available.".to_owned()
    }
}

/// The label of a stored favorite: its own, or its identifier when it has none.
pub open spec fn label_of(r: FavoriteRecord) -> String {
    match r.label {
        Some(l) => l,
        None => r.identifier,
    }
}

pub open spec fn address_refs_of(records: Seq<FavoriteRecord>, refs: Seq<AddressRef>) -> bool {
    &&& refs.len() == records.len()
    &&& forall|i: int| 0 <= i < refs.len() ==> (#[trigger] refs[i]).label == label_of(records[i])
        && refs[i].address == records[i].identifier && refs[i].chain == records[i].chain
}

pub open spec fn transaction_refs_of(records: Seq<FavoriteRecord>, refs: Seq<TransactionRef>) -> bool {
    &&& refs.len() == records.len()
    &&& forall|i: int| 0 <= i < refs.len() ==> (#[trigger] refs[i]).label == label_of(records[i])
        && refs[i].hash == records[i].identifier && refs[i].chain == records[i].chain
}

pub open spec fn ids_of(records: Seq<FavoriteRecord>) -> Set<Seq<char>> {
    Set::new(|id: Seq<char>| exists|i: int| 0 <= i < records.len() && (#[trigger] records[i]).identifier@ == id)
}

/// The row a transaction's hydration is seeded with: the row it was opened
/// from, else the cached row for its hash, else none.
pub open spec fn preview_chosen(
    e: Effect,
    hash: Seq<char>,
    pending: Option<AddressTransactionRow>,
    cache: Seq<AddressTransactionRow>,
) -> bool {
    e matches Effect::HydrateTransaction { preview, .. } && match pending {
        Some(row) => preview == Some(row),
        None => match preview {
            Some(row) => row.hash@ == hash && exists|i: int| 0 <= i < cache.len() && cache[i] == row,
            None => forall|i: int| 0 <= i < cache.len() ==> (#[trigger] cache[i]).hash@ != hash,
        },
    }
}

/// The hydration work that selecting an entity asks for.
pub open spec fn hydration_effect(e: Effect, entity: SelectedEntity, secrets: SecretsState) -> bool {
    match entity {
        SelectedEntity::Address(a) => e == Effect::HydrateAddress { address: a, secrets },
        SelectedEntity::Transaction(t) => e matches Effect::HydrateTransaction { transaction, .. } && transaction == t,
    }
}

fn fill_favorites(records: Vec<FavoriteRecord>, members: &mut Vec<String>) -> (r: (Vec<AddressRef>, Vec<TransactionRef>))
    requires
        distinct_ids(old(members)@),
    ensures
        address_refs_of(records@, r.0@),
        transaction_refs_of(records@, r.1@),
        distinct_ids(final(members)@),
        id_set(final(members)@) == id_set(old(members)@).union(ids_of(records@)),
{
    let mut addresses: Vec<AddressRef> = Vec::new();
    let mut transactions: Vec<TransactionRef> = Vec::new();
    let ghost start = id_set(members@);
    let mut i: usize = 0;
    while i < records.len()
        invariant
            i <= records@.len(),
            distinct_ids(members@),
            address_refs_of(records@.subrange(0, i as int), addresses@),
            transaction_refs_of(records@.subrange(0, i as int), transactions@),
            id_set(members@) == start.union(ids_of(records@.subrange(0, i as int))),
        decreases records@.len() - i,
    {
        let record = &records[i];
        let ghost before = ids_of(records@.subrange(0, i as int));
        let ghost after = ids_of(records@.subrange(0, i + 1));
        assert(after =~= before.insert(record.identifier@)) by {
            assert forall|id: Seq<char>| after.contains(id) == before.insert(record.identifier@).contains(id) by {
                if after.contains(id) {
                    let j = choose|j: int| 0 <= j < i + 1 && (#[trigger] records@.subrange(0, i + 1)[j]).identifier@ == id;
                    if j < i {
                        assert(records@.subrange(0, i as int)[j] == records@.subrange(0, i + 1)[j]);
                    }
                }
                if before.contains(id) {
                    let j = choose|j: int| 0 <= j < i && (#[trigger] records@.subrange(0, i as int)[j]).identifier@ == id;
                    assert(records@.subrange(0, i as int)[j] == records@.subrange(0, i + 1)[j]);
                }
                if id == record.identifier@ {
                    assert(records@.subrange(0, i + 1)[i as int] == *record);
                }
            }
        }
        if !contains_id(members, record.identifier.as_str()) {
            insert_id(members, record.identifier.clone());
        }
        let label = match &record.label {
            Some(l) => l.clone(),
            None => record.identifier.clone(),
        };
        addresses.push(AddressRef { label: label.clone(), address: record.identifier.clone(), chain: record.chain.clone() });
        transactions.push(TransactionRef { label, hash: record.identifier.clone(), chain: record.chain.clone() });
        assert(records@.subrange(0, i + 1).subrange(0, i as int) =~= records@.subrange(0, i as int));
        i = i + 1;
    }
    assert(records@.subrange(0, records@.len() as int) =~= records@);
    (addresses, transactions)
}

impl App {
    /// Well-formed: the state's invariant holds.
    pub open spec fn wf(&self) -> bool {
        self.state.wf()
    }

    /// The loop's starting state, from the secrets and the two favorites
    /// partitions as stored. The form for the secrets opens, taking focus, when
    /// one of them is missing; the first favorite (addresses first) is selected
    /// and its hydration asked for.
    pub fn new(
        secrets: SecretsState,
        address_records: Vec<FavoriteRecord>,
        transaction_records: Vec<FavoriteRecord>,
    ) -> (r: App)
        ensures
            r.wf(),
            r.running,
            r.state.secrets == secrets,
            address_refs_of(address_records@, r.sidebar.addresses@),
            transaction_refs_of(transaction_records@, r.sidebar.transactions@),
            id_set(r.state.favorite_addresses@) == ids_of(address_records@),
            id_set(r.state.favorite_transactions@) == ids_of(transaction_records@),
            r.secrets_modal is Some <==> !(secrets.etherscan_api_key is Some && secrets.anvil_rpc_url is Some),
            r.secrets_modal is Some ==> r.state.navigation.focused_pane == FocusedPane::Modal,
            r.state.selected == (if address_records@.len() > 0 {
                Some(SelectedEntity::Address(r.sidebar.addresses@[0]))
            } else if transaction_records@.len() > 0 {
                Some(SelectedEntity::Transaction(r.sidebar.transactions@[0]))
            } else {
                None
            }),
            r.state.selected is None ==> r.effects@.len() == 0,
            r.state.current_address is None && r.state.current_transaction is None,
            r.state.search_error is None,
            r.state.selected is None ==> !r.state.loading.main_view.is_loading,
            !r.state.loading.top.is_loading,
            r.state.navigation.sidebar_tab == SidebarTab::Addresses,
            r.secrets_modal is None ==> r.state.navigation.focused_pane == FocusedPane::Top,
            (r.state.navigation.main_view_mode, r.state.navigation.main_view_tab) == (match r.state.selected {
                None => (MainViewMode::Address, MainViewTab::AddressInfo),
                Some(SelectedEntity::Address(_)) => (MainViewMode::Address, MainViewTab::AddressTransactions),
                Some(SelectedEntity::Transaction(_)) => (MainViewMode::Transaction, MainViewTab::TransactionSummary),
            }),
            r.state.selected matches Some(e) ==> r.effects@.len() == 1 && hydration_effect(
                r.effects@[0],
                e,
                secrets,
            ),
    {
        let mut state = AppState {
            navigation: NavigationState::default(),
            loading: crate::state::LoadingState::new(),
            selected: None,
            search_error: None,
            secrets,
            favorite_addresses: Vec::new(),
            favorite_transactions: Vec::new(),
            current_address: None,
            current_transaction: None,
            address_transactions_view: crate::state::AddressTransactionsViewState { selected_index: 0 },
            pending_transaction_preview: None,
            transaction_preview_cache: Vec::new(),
        };
        let mut main_view = MainView { placeholder: String::new() };
        main_view.init();
        let mut secrets_modal = None;
        if !state.secrets.is_complete() {
            let mut modal = SecretsModal::new();
            modal.init(&state.secrets);
            state.navigation.focus_modal();
            secrets_modal = Some(modal);
        }
        let (address_refs, _) = fill_favorites(address_records, &mut state.favorite_addresses);
        let (_, transaction_refs) = fill_favorites(transaction_records, &mut state.favorite_transactions);
        let mut sidebar = Sidebar::default();
        sidebar.set_addresses(address_refs, state.navigation.sidebar_tab);
        sidebar.set_transactions(transaction_refs, state.navigation.sidebar_tab);
        state.selected = match sidebar.current_selection(SidebarTab::Addresses, 0) {
            Some(e) => Some(e),
            None => sidebar.current_selection(SidebarTab::Transactions, 0),
        };
        match &state.selected {
            Some(SelectedEntity::Address(_)) => {
                state.navigation.main_view_mode = MainViewMode::Address;
                state.navigation.main_view_tab = MainViewTab::AddressTransactions;
            },
            Some(SelectedEntity::Transaction(_)) => {
                state.navigation.main_view_mode = MainViewMode::Transaction;
                state.navigation.main_view_tab = MainViewTab::TransactionSummary;
            },
            None => {},
        }
        let mut app = App {
            running: true,
            state,
            top_bar: TopBar::default(),
            sidebar,
            main_view,
            secrets_modal,
            effects: Vec::new(),
        };
        let selected = match &app.state.selected {
            Some(e) => Some(e.clone()),
            None => None,
        };
        if let Some(entity) = selected {
            app.start_hydration(entity);
        }
        app
    }

    /// Hands over the outside work asked for so far.
    pub fn take_effects(&mut self) -> (r: Vec<Effect>)
        ensures
            r == old(self).effects,
            final(self).effects@.len() == 0,
            final(self).state == old(self).state,
    {
        let mut taken: Vec<Effect> = Vec::new();
        std::mem::swap(&mut taken, &mut self.effects);
        taken
    }

    /// Shows a message on the status line.
    pub fn show_status(&mut self, message: String)
        requires
            old(self).wf(),
        ensures
            final(self).wf(),
            final(self).state == old(self).state,
            final(self).top_bar.status == Some(message),
            final(self).running == old(self).running,
            final(self).effects@ == old(self).effects@,
            final(self).sidebar == old(self).sidebar,
            final(self).secrets_modal == old(self).secrets_modal,
    {
        let _ = self.top_bar.update(TopCommand::ShowStatus(message), &mut self.effects);
    }

    fn start_address_hydration(&mut self, addr: AddressRef)
        requires
            old(self).wf(),
        ensures
            final(self).state.search_error == old(self).state.search_error,
            final(self).secrets_modal == old(self).secrets_modal,
            final(self).state.favorite_addresses == old(self).state.favorite_addresses,
            final(self).state.favorite_transactions == old(self).state.favorite_transactions,
            final(self).wf(),
            final(self).state.current_address is None,
            final(self).state.loading.main_view.is_loading,
            final(self).state.selected == old(self).state.selected,
            final(self).state.navigation == old(self).state.navigation,
            final(self).state.secrets == old(self).state.secrets,
            final(self).running == old(self).running,
            final(self).sidebar == old(self).sidebar,
            final(self).effects@ == old(self).effects@.push(
                Effect::HydrateAddress { address: addr, secrets: old(self).state.secrets },
            ),
            final(self).state.current_transaction == old(self).state.current_transaction,
            final(self).state.loading.top == old(self).state.loading.top,
            final(self).state.address_transactions_view == old(self).state.address_transactions_view,
    {
        self.state.current_address = None;
        self.state.loading.set_loading(FocusedPane::MainView, true);
        let status = join2("Fetching latest activity for ", short_hex(addr.address.as_str()).as_str());
        self.show_status(status);
        let secrets = self.state.secrets.clone();
        self.effects.push(Effect::HydrateAddress { address: addr, secrets });
    }

    fn start_transaction_hydration(&mut self, tx: TransactionRef, preview: Option<AddressTransactionRow>)
        requires
            old(self).wf(),
        ensures
            final(self).state.search_error == old(self).state.search_error,
            final(self).secrets_modal == old(self).secrets_modal,
            final(self).state.favorite_addresses == old(self).state.favorite_addresses,
            final(self).state.favorite_transactions == old(self).state.favorite_transactions,
            final(self).wf(),
            final(self).state.current_transaction is None,
            final(self).state.loading.main_view.is_loading,
            final(self).state.selected == old(self).state.selected,
            final(self).state.navigation == old(self).state.navigation,
            final(self).state.secrets == old(self).state.secrets,
            final(self).running == old(self).running,
            final(self).sidebar == old(self).sidebar,
            final(self).effects@ == old(self).effects@.push(
                Effect::HydrateTransaction { transaction: tx, preview },
            ),
            final(self).state.current_address == old(self).state.current_address,
            final(self).state.loading.top == old(self).state.loading.top,
            final(self).state.address_transactions_view == old(self).state.address_transactions_view,
            preview matches Some(row) ==> exists|k: int|
                0 <= k < final(self).state.transaction_preview_cache@.len()
                    && final(self).state.transaction_preview_cache@[k] == row,
    {
        self.state.current_transaction = None;
        self.state.loading.set_loading(FocusedPane::MainView, true);
        let status = join2("Loading transaction ", short_hex(tx.hash.as_str()).as_str());
        self.show_status(status);
        if let Some(row) = &preview {
            let copy = row.clone();
            cache_row(&mut self.state.transaction_preview_cache, copy);
            assert(copy == *row);
            assert(exists|k: int|
                0 <= k < self.state.transaction_preview_cache@.len()
                    && self.state.transaction_preview_cache@[k] == *row);
        }
        assert(preview matches Some(row) ==> exists|k: int|
            0 <= k < self.state.transaction_preview_cache@.len()
                && self.state.transaction_preview_cache@[k] == row);
        self.effects.push(Effect::HydrateTransaction { transaction: tx, preview });
    }

    /// Starts the hydration of an entity: its previous data is cleared, the
    /// main view is marked loading, and the fetch is asked for. A transaction
    /// takes the row it was opened from, or the cached row for its hash.
    pub fn start_hydration(&mut self, entity: SelectedEntity)
        requires
            old(self).wf(),
        ensures
            final(self).state.search_error == old(self).state.search_error,
            final(self).secrets_modal == old(self).secrets_modal,
            final(self).state.favorite_addresses == old(self).state.favorite_addresses,
            final(self).state.favorite_transactions == old(self).state.favorite_transactions,
            final(self).wf(),
            final(self).state.selected == old(self).state.selected,
            final(self).state.navigation == old(self).state.navigation,
            final(self).state.secrets == old(self).state.secrets,
            final(self).state.loading.main_view.is_loading,
            final(self).running == old(self).running,
            final(self).sidebar == old(self).sidebar,
            final(self).effects@.len() == old(self).effects@.len() + 1,
            final(self).effects@.subrange(0, old(self).effects@.len() as int) == old(self).effects@,
            hydration_effect(final(self).effects@.last(), entity, old(self).state.secrets),
            entity is Address ==> final(self).state.current_address is None,
            entity is Transaction ==> final(self).state.current_transaction is None,
            final(self).state.loading.top == old(self).state.loading.top,
            final(self).state.address_transactions_view == old(self).state.address_transactions_view,
            entity matches SelectedEntity::Transaction(t) ==> preview_chosen(
                final(self).effects@.last(),
                t.hash@,
                old(self).state.pending_transaction_preview,
                old(self).state.transaction_preview_cache@,
            ),
            entity is Address ==> final(self).state.current_transaction == old(self).state.current_transaction,
            entity is Transaction ==> final(self).state.current_address == old(self).state.current_address,
    {
        let ghost before = self.effects@;
        match entity {
            SelectedEntity::Address(addr) => self.start_address_hydration(addr),
            SelectedEntity::Transaction(tx) => {
                let mut preview = None;
                std::mem::swap(&mut preview, &mut self.state.pending_transaction_preview);
                if preview.is_none() {
                    preview = cached_row(&self.state.transaction_preview_cache, tx.hash.as_str());
                }
                self.start_transaction_hydration(tx, preview);
            },
        }
        assert(self.effects@.subrange(0, before.len() as int) =~= before);
    }

    fn close_modal(&mut self)
        requires
            old(self).wf(),
        ensures
            final(self).wf(),
            final(self).secrets_modal is None,
            final(self).sidebar == old(self).sidebar,
            final(self).state == (AppState {
                navigation: NavigationState {
                    focused_pane: old(self).state.navigation.modal_return_focus,
                    ..old(self).state.navigation
                },
                ..old(self).state
            }),
            final(self).running == old(self).running,
            final(self).effects == old(self).effects,
            final(self).sidebar == old(self).sidebar,
    {
        self.secrets_modal = None;
        self.state.navigation.restore_focus_after_modal();
    }

    /// Applies an action to the state.
    pub fn dispatch(&mut self, action: Action)
        requires
            old(self).wf(),
        ensures
            final(self).wf(),
            final(self).state.favorite_addresses == old(self).state.favorite_addresses,
            final(self).state.favorite_transactions == old(self).state.favorite_transactions,
            action != Action::Quit ==> final(self).running == old(self).running,
            action == Action::Quit ==> final(self).state == old(self).state && final(self).top_bar
                == old(self).top_bar && final(self).secrets_modal == old(self).secrets_modal
                && final(self).effects == old(self).effects,
            final(self).state.navigation.sidebar_tab == old(self).state.navigation.sidebar_tab,
            final(self).state.secrets == old(self).state.secrets,
            final(self).sidebar == old(self).sidebar,
            match action {
                Action::Quit => !final(self).running,
                Action::FocusPane(p) => final(self).state.navigation == old(self).state.navigation.after_focus_pane(p)
                    && only_navigation_changed(*old(self), *final(self)),
                Action::FocusNextPane => final(self).state.navigation == old(self).state.navigation.after_focus_pane(
                    crate::navigation::pane_after(old(self).state.navigation.focused_pane),
                ) && only_navigation_changed(*old(self), *final(self)),
                Action::FocusPreviousPane => final(self).state.navigation == old(self).state.navigation.after_focus_pane(
                    crate::navigation::pane_before(
                        old(self).state.navigation.focused_pane,
                        old(self).state.navigation.modal_return_focus,
                    ),
                ) && only_navigation_changed(*old(self), *final(self)),
                Action::SelectionChanged(e) => {
                    &&& final(self).state.selected == Some(e)
                    &&& final(self).state.search_error is None
                    &&& final(self).state.navigation.main_view_mode == (match e {
                        SelectedEntity::Address(_) => MainViewMode::Address,
                        SelectedEntity::Transaction(_) => MainViewMode::Transaction,
                    })
                    &&& final(self).state.navigation.main_view_tab == default_tab(final(self).state.navigation.main_view_mode)
                    &&& final(self).state.navigation.focused_pane == old(self).state.navigation.focused_pane
                    &&& final(self).effects@.len() == old(self).effects@.len() + 1
                    &&& final(self).effects@.subrange(0, old(self).effects@.len() as int) == old(self).effects@
                    &&& hydration_effect(final(self).effects@.last(), e, old(self).state.secrets)
                    &&& final(self).state.loading.main_view.is_loading
                    &&& final(self).state.loading.top == old(self).state.loading.top
                    &&& (e is Address ==> final(self).state.current_address is None
                        && final(self).state.address_transactions_view.selected_index == 0)
                    &&& (e is Transaction ==> final(self).state.current_transaction is None)
                },
                Action::LoadingStarted(p) => only_loading_changed(*old(self), *final(self)),
                Action::LoadingFinished(p) => only_loading_changed(*old(self), *final(self))
                    && (p == FocusedPane::MainView ==> !final(self).state.loading.main_view.is_loading)
                    && (p == FocusedPane::Top ==> !final(self).state.loading.top.is_loading),
                Action::CloseModal => final(self).secrets_modal is None
                    && final(self).state.navigation.focused_pane == old(self).state.navigation.modal_return_focus
                    && final(self).state.selected == old(self).state.selected,
                Action::SecretsSaved => final(self).secrets_modal is None
                    && final(self).state.navigation.focused_pane == old(self).state.navigation.modal_return_focus
                    && final(self).state.selected == old(self).state.selected
                    && status_is(final(self).top_bar, "Secrets updated"@),
            },
    {
        match action {
            Action::Quit => {
                self.running = false;
            },
            Action::FocusPane(pane) => self.state.navigation.focus_pane(pane),
            Action::FocusNextPane => self.state.navigation.focus_next(),
            Action::FocusPreviousPane => self.state.navigation.focus_previous(),
            Action::SelectionChanged(entity) => {
                self.state.selected = Some(entity.clone());
                self.state.search_error = None;
                match &entity {
                    SelectedEntity::Address(_) => {
                        self.state.address_transactions_view.reset();
                        self.state.navigation.main_view_mode = MainViewMode::Address;
                        self.state.navigation.main_view_tab = MainViewTab::AddressInfo;
                    },
                    SelectedEntity::Transaction(_) => {
                        self.state.navigation.main_view_mode = MainViewMode::Transaction;
                        self.state.navigation.main_view_tab = MainViewTab::TransactionSummary;
                    },
                }
                self.start_hydration(entity);
            },
            Action::LoadingStarted(pane) => self.state.loading.set_loading(pane, true),
            Action::LoadingFinished(pane) => self.state.loading.set_loading(pane, false),
            Action::CloseModal => self.close_modal(),
            Action::SecretsSaved => {
                self.close_modal();
                self.show_status("Secrets updated".to_owned());
            },
        }
    }

    /// Applies the message of a finished background task. A hydration result
    /// is applied only when it belongs to the entity still selected; any other
    /// hydration result leaves the state exactly as it was.
    pub fn handle_message(&mut self, message: Message)
        requires
            old(self).wf(),
        ensures
            final(self).wf(),
            (message is AddressHydrated || message is TransactionHydrated) && !result_applies(
                old(self).state.selected,
                message,
            ) ==> *final(self) == *old(self),
            result_applies(old(self).state.selected, message) ==> applied_hydration(
                *old(self),
                *final(self),
                message,
            ),
            search_handled(*old(self), *final(self), message),
    {
        match message {
            Message::SearchCompleted { query, entity } => {
                let _ = self.top_bar.update(
                    TopCommand::SearchCompleted { query, entity: entity.clone() },
                    &mut self.effects,
                );
                self.dispatch(Action::LoadingFinished(FocusedPane::Top));
                self.dispatch(Action::SelectionChanged(entity));
                self.dispatch(Action::FocusPane(FocusedPane::MainView));
            },
            Message::SearchFailed { query, error } => {
                let _ = self.top_bar.update(
                    TopCommand::SearchFailed { query, error: error.clone() },
                    &mut self.effects,
                );
                self.dispatch(Action::LoadingFinished(FocusedPane::Top));
                self.state.search_error = Some(error);
            },
            Message::AddressHydrated(data) => {
                let applies = match &self.state.selected {
                    Some(SelectedEntity::Address(addr)) => eq_ignore_case(
                        addr.address.as_str(),
                        data.identifier.as_str(),
                    ),
                    _ => false,
                };
                if applies {
                    let status_message = status_for(&data);
                    let ghost d = data;
                    let rows = match &data.transactions_table {
                        Some(table) => {
                            let r = table.rows.clone();
                            assert(r@ =~= table_rows(d));
                            r
                        },
                        None => Vec::new(),
                    };
                    let row_count = rows.len();
                    self.state.current_address = Some(data);
                    self.state.address_transactions_view.clamp(row_count);
                    let mut i: usize = 0;
                    while i < rows.len()
                        invariant
                            self.wf(),
                            self.state.current_address == Some(d),
                            i <= rows@.len(),
                            self.state.selected == old(self).state.selected,
                            self.state.navigation == old(self).state.navigation,
                            rows@ == table_rows(d),
                            self.state.address_transactions_view.selected_index as nat == crate::sidebar::clamped(
                                old(self).state.address_transactions_view.selected_index as nat,
                                table_rows(d).len(),
                            ),
                            rows_cached(self.state.transaction_preview_cache@, rows@.subrange(0, i as int)),
                        decreases rows@.len() - i,
                    {
                        let ghost before = self.state.transaction_preview_cache@;
                        let row = rows[i].clone();
                        cache_row(&mut self.state.transaction_preview_cache, row);
                        proof {
                            let after = self.state.transaction_preview_cache@;
                            let kn = choose|k: int| 0 <= k < after.len() && after[k] == rows@[i as int];
                            let done = rows@.subrange(0, i + 1);
                            assert forall|j: int| 0 <= j < done.len() implies exists|k: int|
                                0 <= k < after.len() && (#[trigger] after[k]).hash@ == (#[trigger] done[j]).hash@ by {
                                if j < i {
                                    assert(done[j] == rows@.subrange(0, i as int)[j]);
                                    let k0 = choose|k: int| 0 <= k < before.len() && (#[trigger] before[k]).hash@
                                        == rows@.subrange(0, i as int)[j].hash@;
                                    if before[k0].hash@ != rows@[i as int].hash@ {
                                        let k1 = choose|k1: int| 0 <= k1 < after.len() && after[k1] == before[k0];
                                        assert(after[k1].hash@ == done[j].hash@);
                                    } else {
                                        assert(after[kn].hash@ == done[j].hash@);
                                    }
                                } else {
                                    assert(after[kn].hash@ == done[j].hash@);
                                }
                            }
                        }
                        i = i + 1;
                    }
                    assert(rows@.subrange(0, rows@.len() as int) =~= rows@);
                    self.show_status(status_message);
                    self.dispatch(Action::LoadingFinished(FocusedPane::MainView));
                }
            },
            Message::TransactionHydrated(data) => {
                let applies = match &self.state.selected {
                    Some(SelectedEntity::Transaction(tx)) => text_is(tx.hash.as_str(), data.identifier.as_str()),
                    _ => false,
                };
                if applies {
                    self.state.current_transaction = Some(data);
                    self.dispatch(Action::LoadingFinished(FocusedPane::MainView));
                }
            },
        }
    }

    /// The change that toggling the selected entity's favorite makes; it is to
    /// be stored first, and applied with `apply_favorite_change` once stored.
    pub fn favorite_change(&self) -> (r: Option<FavoriteChange>)
        ensures
            match self.state.selected {
                None => r is None,
                Some(e) => r == Some(toggle_change(self.state.spec_is_favorite(e), e)),
            },
    {
        match &self.state.selected {
            None => None,
            Some(entity) => {
                let member = self.state.is_favorite(entity);
                Some(
                    match entity {
                        SelectedEntity::Address(addr) => if member {
                            FavoriteChange::Remove { kind: FavoriteKind::Address, identifier: addr.address.clone() }
                        } else {
                            FavoriteChange::Add {
                                kind: FavoriteKind::Address,
                                record: FavoriteRecord {
                                    label: Some(addr.label.clone()),
                                    identifier: addr.address.clone(),
                                    chain: addr.chain.clone(),
                                },
                            }
                        },
                        SelectedEntity::Transaction(tx) => if member {
                            FavoriteChange::Remove { kind: FavoriteKind::Transaction, identifier: tx.hash.clone() }
                        } else {
                            FavoriteChange::Add {
                                kind: FavoriteKind::Transaction,
                                record: FavoriteRecord {
                                    label: Some(tx.label.clone()),
                                    identifier: tx.hash.clone(),
                                    chain: tx.chain.clone(),
                                },
                            }
                        },
                    },
                )
            },
        }
    }

    fn sidebar_command(&mut self, command: SidebarCommand)
        requires
            old(self).wf(),
        ensures
            final(self).wf(),
            command matches SidebarCommand::AddFavorite(e) ==> (final(self).sidebar.addresses@,
                final(self).sidebar.transactions@) == lists_after_add(old(self).sidebar, e),
            command matches SidebarCommand::RemoveFavorite(e) ==> (final(self).sidebar.addresses@,
                final(self).sidebar.transactions@) == lists_after_remove(old(self).sidebar, e),
            selection_follows_sidebar(*old(self), *final(self)),
            final(self).state.favorite_addresses == old(self).state.favorite_addresses,
            final(self).state.favorite_transactions == old(self).state.favorite_transactions,
            final(self).running == old(self).running,
    {
        let mut tab = self.state.navigation.sidebar_tab;
        let action = self.sidebar.update(&command, &mut tab);
        self.state.navigation.sidebar_tab = tab;
        if let Some(action) = action {
            self.dispatch(action);
        }
    }

    /// Applies a stored favorite change in memory: the membership set, then the
    /// display list, then the status line.
    pub fn apply_favorite_change(&mut self, change: FavoriteChange)
        requires
            old(self).wf(),
            old(self).state.selected matches Some(e) && change == toggle_change(
                old(self).state.spec_is_favorite(e),
                e,
            ),
        ensures
            final(self).wf(),
            ({
                let e = old(self).state.selected->0;
                match e {
                    SelectedEntity::Address(_) => {
                        &&& id_set(final(self).state.favorite_addresses@) == members_after(
                            id_set(old(self).state.favorite_addresses@),
                            change,
                        )
                        &&& final(self).state.favorite_transactions == old(self).state.favorite_transactions
                    },
                    SelectedEntity::Transaction(_) => {
                        &&& id_set(final(self).state.favorite_transactions@) == members_after(
                            id_set(old(self).state.favorite_transactions@),
                            change,
                        )
                        &&& final(self).state.favorite_addresses == old(self).state.favorite_addresses
                    },
                }
            }),
            ({
                let e = old(self).state.selected->0;
                match change {
                    FavoriteChange::Add { record, .. } => {
                        &&& (final(self).sidebar.addresses@, final(self).sidebar.transactions@)
                            == lists_after_add(old(self).sidebar, e)
                        &&& status_is(final(self).top_bar, "Favorited "@ + short_of(record.identifier@))
                    },
                    FavoriteChange::Remove { identifier, .. } => {
                        &&& (final(self).sidebar.addresses@, final(self).sidebar.transactions@)
                            == lists_after_remove(old(self).sidebar, e)
                        &&& status_is(
                            final(self).top_bar,
                            "Removed "@ + short_of(identifier@) + " from favorites"@,
                        )
                    },
                }
            }),
            selection_follows_sidebar(*old(self), *final(self)),
    {
        let selected = match &self.state.selected {
            Some(e) => e.clone(),
            None => {
                return;
            },
        };
        match change {
            FavoriteChange::Remove { kind, identifier } => {
                let ghost before = self.state.favorite_addresses;
                match &selected {
                    SelectedEntity::Address(_) => remove_id(&mut self.state.favorite_addresses, identifier.as_str()),
                    SelectedEntity::Transaction(_) => remove_id(
                        &mut self.state.favorite_transactions,
                        identifier.as_str(),
                    ),
                }
                let ghost fa = self.state.favorite_addresses;
                let ghost ft = self.state.favorite_transactions;
                let status = join3("Removed ", short_hex(identifier.as_str()).as_str(), " from favorites");
                self.sidebar_command(SidebarCommand::RemoveFavorite(selected));
                self.show_status(status);
            },
            FavoriteChange::Add { kind, record } => {
                match &selected {
                    SelectedEntity::Address(_) => insert_id(&mut self.state.favorite_addresses, record.identifier.clone()),
                    SelectedEntity::Transaction(_) => insert_id(
                        &mut self.state.favorite_transactions,
                        record.identifier.clone(),
                    ),
                }
                let status = join2("Favorited ", short_hex(record.identifier.as_str()).as_str());
                self.sidebar_command(SidebarCommand::AddFavorite(selected));
                self.show_status(status);
            },
        }
    }
}

/// Keys that stop the loop outside the form and the search prompt: Esc, `q`,
/// or control-C.
pub open spec fn is_quit_key(key: KeyEvent) -> bool {
    key.code == KeyCode::Esc || key.code == KeyCode::Char('q') || (key.modifiers.spec_is_control() && (
    key.code == KeyCode::Char('c') || key.code == KeyCode::Char('C')))
}

/// How a key outside the form and the search prompt moves focus: Tab and
/// Shift-Tab cycle, `1` to `4` jump to a pane, `/` goes to the top bar.
pub open spec fn global_focus_change(before: App, after: App, key: KeyEvent) -> bool {
    let nav = before.state.navigation;
    let none = key.modifiers.spec_is_none();
    if is_quit_key(key) {
        true
    } else if none && key.code == KeyCode::Char('/') {
        after.state.navigation.focused_pane == FocusedPane::Top
    } else if none && key.code == KeyCode::Tab {
        after.state.navigation == nav.after_focus_pane(crate::navigation::pane_after(nav.focused_pane))
    } else if key.modifiers.spec_is_shift() && key.code == KeyCode::Tab {
        after.state.navigation == nav.after_focus_pane(
            crate::navigation::pane_before(nav.focused_pane, nav.modal_return_focus),
        )
    } else if none && (key.code matches KeyCode::Char(d) && '1' <= d && d <= '4') {
        after.state.navigation == nav.after_focus_pane(
            crate::navigation::pane_of_number(((key.code->0 as u32) - ('0' as u32)) as nat)->0,
        )
    } else {
        true
    }
}

/// Control-C, which stops the loop even while the form has focus.
pub open spec fn is_interrupt(key: KeyEvent) -> bool {
    key.modifiers.control && (key.code == KeyCode::Char('c') || key.code == KeyCode::Char('C'))
}

impl App {
    fn top_bar_command(&mut self, command: TopCommand)
        requires
            old(self).wf(),
        ensures
            final(self).wf(),
            command is ActivateSearch ==> final(self).state == old(self).state
                && final(self).top_bar.search_active,
            final(self).state.favorite_addresses == old(self).state.favorite_addresses,
            final(self).state.favorite_transactions == old(self).state.favorite_transactions,
            final(self).running == old(self).running,
    {
        if let Some(action) = self.top_bar.update(command, &mut self.effects) {
            self.dispatch(action);
        }
    }

    fn main_view_command(&mut self, command: MainViewCommand)
        requires
            old(self).wf(),
        ensures
            final(self).wf(),
            final(self).running == old(self).running,
    {
        let action = self.main_view.update(&command, &mut self.state);
        if let Some(action) = action {
            self.dispatch(action);
        }
    }

    fn handle_tab_navigation(&mut self, forward: bool)
        requires
            old(self).wf(),
        ensures
            final(self).wf(),
            final(self).running == old(self).running,
    {
        match self.state.navigation.focused_pane {
            FocusedPane::Sidebar => {
                if forward {
                    self.sidebar_command(SidebarCommand::NextTab);
                } else {
                    self.sidebar_command(SidebarCommand::PreviousTab);
                }
            },
            FocusedPane::MainView => {
                if forward {
                    self.main_view_command(MainViewCommand::NextTab);
                } else {
                    self.main_view_command(MainViewCommand::PreviousTab);
                }
            },
            _ => {},
        }
    }

    fn handle_movement(&mut self, up: bool)
        requires
            old(self).wf(),
        ensures
            final(self).wf(),
            final(self).running == old(self).running,
    {
        match self.state.navigation.focused_pane {
            FocusedPane::Sidebar => {
                if up {
                    self.sidebar_command(SidebarCommand::MoveUp);
                } else {
                    self.sidebar_command(SidebarCommand::MoveDown);
                }
            },
            FocusedPane::MainView => {
                if up {
                    self.main_view_command(MainViewCommand::MoveSelectionUp);
                } else {
                    self.main_view_command(MainViewCommand::MoveSelectionDown);
                }
            },
            _ => {},
        }
    }

    /// Hands a form command to the secrets form, if it is open.
    fn modal_command(&mut self, command: crate::secrets::SecretsFormCommand) -> (r: Option<Request>)
        requires
            old(self).wf(),
        ensures
            final(self).wf(),
            final(self).running == old(self).running,
            r is Some ==> r matches Some(Request::SaveSecrets { .. }),
    {
        let outcome = match &mut self.secrets_modal {
            Some(modal) => modal.apply_command(command),
            None => SecretsOutcome::Nothing,
        };
        match outcome {
            SecretsOutcome::Nothing => None,
            SecretsOutcome::Act(action) => {
                match action {
                    Action::Quit => None,
                    other => {
                        self.dispatch(other);
                        None
                    },
                }
            },
            SecretsOutcome::Save { etherscan, anvil } => Some(Request::SaveSecrets { etherscan, anvil }),
        }
    }

    /// A key while the secrets form has focus: control-C stops the loop, other
    /// keys edit the form.
    pub fn handle_modal_key(&mut self, key: KeyEvent) -> (r: Option<Request>)
        requires
            old(self).wf(),
        ensures
            final(self).wf(),
            is_interrupt(key) ==> !final(self).running && r is None,
            !is_interrupt(key) ==> final(self).running == old(self).running,
            r is Some ==> r matches Some(Request::SaveSecrets { .. }),
    {
        if key.modifiers.control && (key.code == KeyCode::Char('c') || key.code == KeyCode::Char('C')) {
            self.dispatch(Action::Quit);
            return None;
        }
        match SecretsModal::command_from_key(key) {
            Some(command) => self.modal_command(command),
            None => None,
        }
    }

    /// Pasted text while the secrets form has focus goes into its focused field.
    pub fn handle_modal_paste(&mut self, content: String) -> (r: Option<Request>)
        requires
            old(self).wf(),
        ensures
            final(self).wf(),
            final(self).running == old(self).running,
            r is None,
    {
        let _ = self.modal_command(crate::secrets::SecretsFormCommand::InsertText(content));
        None
    }

    /// Pasted text while searching is typed into the query, without line breaks.
    pub fn handle_search_paste(&mut self, content: String)
        requires
            old(self).wf(),
        ensures
            final(self).wf(),
            final(self).running == old(self).running,
    {
        let n = content.as_str().unicode_len();
        let mut i: usize = 0;
        while i < n
            invariant
                self.wf(),
                n == content@.len(),
                i <= n,
                self.running == old(self).running,
            decreases n - i,
        {
            let c = content.as_str().get_char(i);
            if c != '\r' && c != '\n' {
                self.top_bar_command(TopCommand::InputChar(c));
            }
            i = i + 1;
        }
    }

    /// Pasted text: into the form when it has focus, else into an active search.
    pub fn on_paste_event(&mut self, content: String) -> (r: Option<Request>)
        requires
            old(self).wf(),
        ensures
            final(self).wf(),
            final(self).running == old(self).running,
            r is None,
    {
        if self.state.navigation.focused_pane == FocusedPane::Modal {
            self.handle_modal_paste(content)
        } else if self.top_bar.is_search_active() {
            self.handle_search_paste(content);
            None
        } else {
            None
        }
    }

    /// A key press. While the form has focus every key goes to it; while a
    /// search is typed, Esc, Enter, Backspace and characters edit it; otherwise
    /// keys move focus, switch tabs, move selections, open the selected row,
    /// and ask for a favorite toggle from the main view.
    pub fn on_key_event(&mut self, key: KeyEvent) -> (r: Option<Request>)
        requires
            old(self).wf(),
        ensures
            final(self).wf(),
            old(self).state.navigation.focused_pane == FocusedPane::Modal && is_interrupt(key)
                ==> !final(self).running,
            old(self).state.navigation.focused_pane != FocusedPane::Modal && !old(self).top_bar.search_active
                && is_quit_key(key) ==> !final(self).running,
            r matches Some(Request::ToggleFavorite) ==> old(self).state.navigation.focused_pane
                == FocusedPane::MainView,
            r matches Some(Request::SaveSecrets { .. }) ==> old(self).state.navigation.focused_pane
                == FocusedPane::Modal,
            old(self).state.navigation.focused_pane != FocusedPane::Modal && !old(self).top_bar.search_active
                ==> global_focus_change(*old(self), *final(self), key),
    {
        if self.state.navigation.focused_pane == FocusedPane::Modal {
            return self.handle_modal_key(key);
        }
        if self.top_bar.is_search_active() && self.handle_search_key(key) {
            return None;
        }
        self.handle_global_key(key)
    }

    /// A key while a search is typed; whether it was taken.
    fn handle_search_key(&mut self, key: KeyEvent) -> (r: bool)
        requires
            old(self).wf(),
        ensures
            final(self).wf(),
            final(self).running == old(self).running,
            !r ==> *final(self) == *old(self),
    {
        match key.code {
            KeyCode::Esc => {
                self.top_bar_command(TopCommand::Cancel);
                true
            },
            KeyCode::Enter => {
                self.top_bar_command(TopCommand::Submit);
                true
            },
            KeyCode::Backspace => {
                self.top_bar_command(TopCommand::Backspace);
                true
            },
            KeyCode::Char(c) => {
                if !key.modifiers.control {
                    self.top_bar_command(TopCommand::InputChar(c));
                    true
                } else {
                    false
                }
            },
            _ => false,
        }
    }

    /// A key outside the form and the search prompt.
    fn handle_global_key(&mut self, key: KeyEvent) -> (r: Option<Request>)
        requires
            old(self).wf(),
        ensures
            final(self).wf(),
            is_quit_key(key) ==> !final(self).running,
            r matches Some(Request::ToggleFavorite) ==> old(self).state.navigation.focused_pane
                == FocusedPane::MainView,
            r is Some ==> r matches Some(Request::ToggleFavorite),
            global_focus_change(*old(self), *final(self), key),
    {
        let none = key.modifiers.is_none();
        let focus = self.state.navigation.focused_pane;
        let control = key.modifiers.is_control();
        let shift = key.modifiers.is_shift();
        let code = key.code;
        if code == KeyCode::Esc || code == KeyCode::Char('q') || (control && (code == KeyCode::Char('c')
            || code == KeyCode::Char('C'))) {
            self.dispatch(Action::Quit);
        } else if none && code == KeyCode::Char('/') {
            self.dispatch(Action::FocusPane(FocusedPane::Top));
            self.top_bar_command(TopCommand::ActivateSearch);
        } else if none && code == KeyCode::Tab {
            self.dispatch(Action::FocusNextPane);
        } else if shift && code == KeyCode::Tab {
            self.dispatch(Action::FocusPreviousPane);
        } else if none && code == KeyCode::Char('[') {
            self.handle_tab_navigation(false);
        } else if none && code == KeyCode::Char(']') {
            self.handle_tab_navigation(true);
        } else if none && code == KeyCode::Char('j') {
            self.handle_movement(false);
        } else if none && code == KeyCode::Char('k') {
            self.handle_movement(true);
        } else if none && code == KeyCode::Enter {
            if focus == FocusedPane::MainView {
                self.main_view_command(MainViewCommand::ActivateSelection);
            } else if focus == FocusedPane::Sidebar {
                if let Some(entity) = self.sidebar.active_selection(self.state.navigation.sidebar_tab) {
                    self.dispatch(Action::SelectionChanged(entity));
                }
                self.dispatch(Action::FocusPane(FocusedPane::MainView));
            }
        } else if focus == FocusedPane::MainView && ((none && code == KeyCode::Char('f')) || (shift && code
            == KeyCode::Char('F'))) {
            return Some(Request::ToggleFavorite);
        } else if none {
            if let KeyCode::Char(d) = code {
                if '1' <= d && d <= '9' {
                    let n = (d as u32 - '0' as u32) as usize;
                    if let Some(pane) = FocusedPane::from_number(n) {
                        self.dispatch(Action::FocusPane(pane));
                    }
                }
            }
        }
        None
    }

    /// Records stored secrets: the state takes them, the form closes, and the
    /// status line says so.
    pub fn secrets_saved(&mut self, etherscan: String, anvil: String)
        requires
            old(self).wf(),
        ensures
            final(self).wf(),
            final(self).state.secrets.etherscan_api_key == Some(etherscan),
            final(self).state.secrets.anvil_rpc_url == Some(anvil),
            old(self).secrets_modal is Some ==> final(self).secrets_modal is None,
    {
        let action = match &mut self.secrets_modal {
            Some(modal) => Some(modal.saved(&mut self.state.secrets, etherscan, anvil)),
            None => {
                self.state.secrets.etherscan_api_key = Some(etherscan);
                self.state.secrets.anvil_rpc_url = Some(anvil);
                None
            },
        };
        if let Some(action) = action {
            self.dispatch(action);
        }
    }

    /// Reports a store failure on the status line; the state is left as it was.
    pub fn show_store_error(&mut self, error: String)
        requires
            old(self).wf(),
        ensures
            final(self).wf(),
            final(self).state == old(self).state,
            final(self).sidebar == old(self).sidebar,
            final(self).effects@ == old(self).effects@,
            final(self).running == old(self).running,
            status_is(final(self).top_bar, "Could not update storage: "@ + error@),
    {
        self.show_status(join2("Could not update storage: ", error.as_str()));
    }
}

} // verus!
