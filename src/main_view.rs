//! The main view: its tabs, the transaction table selection of an address, and
//! the text of a transaction summary.
use vstd::prelude::*;
use crate::actions::Action;
use crate::hydrate::HydratedTransaction;
use crate::model::{short_of, status_text, SelectedEntity, TransactionRef};
use crate::navigation::{
    spec_next_tab, spec_normalize, spec_previous_tab, tabs_of, MainViewMode, MainViewTab,
    NavigationState,
};
use crate::state::AppState;
use crate::text::{decimal, join2, join3, short_hex, u64_text};

verus! {

#[derive(Debug, Default)]
pub struct MainView {
    pub placeholder: String,
}

#[derive(Debug)]
pub enum MainViewCommand {
    SetMode(MainViewMode),
    SwitchTab(MainViewTab),
    NextTab,
    PreviousTab,
    MoveSelectionUp,
    MoveSelectionDown,
    ActivateSelection,
    HydrationStarted,
    HydrationFinished,
}

pub open spec fn tab_title(tab: MainViewTab) -> Seq<char> {
    match tab {
        MainViewTab::AddressInfo => "Info"@,
        MainViewTab::AddressTransactions => "Transactions"@,
        MainViewTab::AddressInternal => "Internal"@,
        MainViewTab::AddressBalances => "Balances"@,
        MainViewTab::AddressPermissions => "Permissions"@,
        MainViewTab::TransactionSummary => "Summary"@,
        MainViewTab::TransactionDebug => "Debug"@,
        MainViewTab::TransactionStorageDiff => "Storage Diff"@,
    }
}

/// What a field of a transaction summary shows when the value is unknown.
pub open spec fn not_cached() -> Seq<char> {
    "Not cached"@
}

/// A calldata text cut to sixty-six characters, with an ellipsis when cut.
pub open spec fn calldata_shown(c: Seq<char>) -> Seq<char> {
    if c.len() > 66 {
        c.subrange(0, 66) + "…"@
    } else {
        c
    }
}

/// The summary text of a transaction, one field per line.
pub open spec fn summary_text(d: HydratedTransaction) -> Seq<char> {
    let status = match d.status {
        Some(s) => status_text(s),
        None => not_cached(),
    };
    let from = match d.from {
        Some(f) => short_of(f@),
        None => not_cached(),
    };
    let to = match (d.to, d.status) {
        (Some(t), _) => short_of(t@),
        (None, Some(_)) => "Contract creation"@,
        (None, None) => not_cached(),
    };
    let value = match d.value_formatted {
        Some(v) => v@,
        None => not_cached(),
    };
    let block = match d.block_number {
        Some(b) => decimal(b as nat),
        None => not_cached(),
    };
    let calldata = match d.calldata {
        Some(c) => calldata_shown(c@),
        None => not_cached(),
    };
    "Hash: "@ + short_of(d.identifier@) + "\nStatus: "@ + status + "\nFrom: "@ + from + "\nTo: "@ + to
        + "\nValue: "@ + value + "\nBlock: "@ + block + "\nCalldata: "@ + calldata
}

impl MainView {
    /// The tabs of a mode with their titles, in display order.
    pub fn tab_titles(mode: MainViewMode) -> (r: Vec<(&'static str, MainViewTab)>)
        ensures
            r@.len() == tabs_of(mode).len(),
            forall|i: int| 0 <= i < r@.len() ==> (#[trigger] r@[i]).1 == tabs_of(mode)[i] && r@[i].0@
                == tab_title(tabs_of(mode)[i]),
    {
        match mode {
            MainViewMode::Address => {
                let v = vec![
                    ("Info", MainViewTab::AddressInfo),
                    ("Transactions", MainViewTab::AddressTransactions),
                    ("Internal", MainViewTab::AddressInternal),
                    ("Balances", MainViewTab::AddressBalances),
                    ("Permissions", MainViewTab::AddressPermissions),
                ];
                v
            },
            MainViewMode::Transaction => {
                let v = vec![
                    ("Summary", MainViewTab::TransactionSummary),
                    ("Debug", MainViewTab::TransactionDebug),
                    ("Storage Diff", MainViewTab::TransactionStorageDiff),
                ];
                v
            },
        }
    }

    /// The position of a tab, normalized for the mode, in the mode's list.
    pub fn tab_index(mode: MainViewMode, tab: MainViewTab) -> (r: usize)
        ensures
            r < tabs_of(mode).len(),
            tabs_of(mode)[r as int] == spec_normalize(tab, mode),
    {
        let titles = MainView::tab_titles(mode);
        let target = tab.normalize(mode);
        let mut i: usize = 0;
        while i < titles.len()
            invariant
                titles@.len() == tabs_of(mode).len(),
                forall|k: int| 0 <= k < titles@.len() ==> (#[trigger] titles@[k]).1 == tabs_of(mode)[k],
                target == spec_normalize(tab, mode),
                forall|k: int| 0 <= k < i ==> tabs_of(mode)[k] != target,
                i <= titles@.len(),
            decreases titles@.len() - i,
        {
            if titles[i].1 == target {
                return i;
            }
            i = i + 1;
        }
        assert(false);
        0
    }

    /// The placeholder text of a tab.
    pub fn content_for(tab: MainViewTab) -> (r: &'static str)
        ensures
            r@ == (match tab {
                MainViewTab::AddressTransactions => "Address transactions overview (placeholder)"@,
                MainViewTab::AddressInternal => "Address internal calls (placeholder)"@,
                MainViewTab::AddressBalances => "Address balances summary (placeholder)"@,
                MainViewTab::AddressPermissions => "Address permissions matrix (placeholder)"@,
                MainViewTab::AddressInfo => "Address overview (placeholder)"@,
                MainViewTab::TransactionSummary => "Transaction summary (placeholder)"@,
                MainViewTab::TransactionDebug => "Transaction debugger (placeholder)"@,
                MainViewTab::TransactionStorageDiff => "Transaction storage diff (placeholder)"@,
            }),
    {
        match tab {
            MainViewTab::AddressTransactions => "Address transactions overview (placeholder)",
            MainViewTab::AddressInternal => "Address internal calls (placeholder)",
            MainViewTab::AddressBalances => "Address balances summary (placeholder)",
            MainViewTab::AddressPermissions => "Address permissions matrix (placeholder)",
            MainViewTab::AddressInfo => "Address overview (placeholder)",
            MainViewTab::TransactionSummary => "Transaction summary (placeholder)",
            MainViewTab::TransactionDebug => "Transaction debugger (placeholder)",
            MainViewTab::TransactionStorageDiff => "Transaction storage diff (placeholder)",
        }
    }

    pub fn transaction_summary_text(data: &HydratedTransaction) -> (r: String)
        ensures
            r@ == summary_text(*data),
    {
        proof {
            reveal_strlit("Not cached");
        }
        let status = match data.status {
            Some(s) => s.label().to_owned(),
            None => "Not cached".to_owned(),
        };
        let from = match &data.from {
            Some(addr) => short_hex(addr.as_str()),
            None => "Not cached".to_owned(),
        };
        let to = match (&data.to, data.status) {
            (Some(addr), _) => short_hex(addr.as_str()),
            (None, Some(_)) => "Contract creation".to_owned(),
            (None, None) => "Not cached".to_owned(),
        };
        let value = match &data.value_formatted {
            Some(v) => v.clone(),
            None => "Not cached".to_owned(),
        };
        let block = match data.block_number {
            Some(n) => u64_text(n),
            None => "Not cached".to_owned(),
        };
        let calldata = match &data.calldata {
            Some(c) => {
                let n = c.as_str().unicode_len();
                if n > 66 {
                    join2(c.as_str().substring_char(0, 66), "…")
                } else {
                    c.clone()
                }
            },
            None => "Not cached".to_owned(),
        };
        let a = join3("Hash: ", short_hex(data.identifier.as_str()).as_str(), "\nStatus: ");
        let b = join3(a.as_str(), status.as_str(), "\nFrom: ");
        let c = join3(b.as_str(), from.as_str(), "\nTo: ");
        let d = join3(c.as_str(), to.as_str(), "\nValue: ");
        let e = join3(d.as_str(), value.as_str(), "\nBlock: ");
        let f = join3(e.as_str(), block.as_str(), "\nCalldata: ");
        let r = join2(f.as_str(), calldata.as_str());
        assert(r@ =~= summary_text(*data));
        r
    }
}

/// The number of rows of the current address's table, when there is one.
pub open spec fn table_len(state: AppState) -> Option<nat> {
    match state.current_address {
        Some(a) => match a.transactions_table {
            Some(t) => Some(t.rows@.len()),
            None => None,
        },
        None => None,
    }
}

/// Whether the transaction table of an address takes row movement: the view
/// shows an address, is not loading, and its Transactions tab is active.
pub open spec fn table_active(state: AppState) -> bool {
    &&& state.navigation.main_view_mode == MainViewMode::Address
    &&& !state.loading.main_view.is_loading
    &&& spec_normalize(state.navigation.main_view_tab, MainViewMode::Address)
        == MainViewTab::AddressTransactions
}

/// The chain of the selected address, when an address is selected.
pub open spec fn selected_chain(state: AppState) -> Option<String> {
    match state.selected {
        Some(SelectedEntity::Address(a)) => Some(a.chain),
        _ => None,
    }
}

/// The state with only the selected table row replaced.
pub open spec fn with_row(state: AppState, index: usize) -> AppState {
    AppState {
        address_transactions_view: crate::state::AddressTransactionsViewState { selected_index: index },
        ..state
    }
}

/// The state with only the navigation replaced.
pub open spec fn with_navigation(state: AppState, nav: NavigationState) -> AppState {
    AppState { navigation: nav, ..state }
}

impl MainView {
    pub fn init(&mut self)
        ensures
            final(self).placeholder@ == "Select a favorite to begin"@,
    {
        self.placeholder = "Select a favorite to begin".to_owned();
    }

    /// Applies a command to the state. Activating a row of an address's
    /// transaction table selects that transaction, with the row as its preview.
    pub fn update(&mut self, command: &MainViewCommand, state: &mut AppState) -> (r: Option<Action>)
        requires
            old(state).wf(),
        ensures
            final(state).wf(),
            match *command {
                MainViewCommand::SetMode(mode) => r is None && *final(state) == with_navigation(
                    *old(state),
                    NavigationState {
                        main_view_mode: mode,
                        main_view_tab: spec_normalize(old(state).navigation.main_view_tab, mode),
                        ..old(state).navigation
                    },
                ),
                MainViewCommand::SwitchTab(tab) => r is None && *final(state) == with_navigation(
                    *old(state),
                    NavigationState {
                        main_view_tab: spec_normalize(tab, old(state).navigation.main_view_mode),
                        ..old(state).navigation
                    },
                ),
                MainViewCommand::NextTab => r is None && *final(state) == with_navigation(
                    *old(state),
                    NavigationState {
                        main_view_tab: spec_next_tab(
                            old(state).navigation.main_view_tab,
                            old(state).navigation.main_view_mode,
                        ),
                        ..old(state).navigation
                    },
                ),
                MainViewCommand::PreviousTab => r is None && *final(state) == with_navigation(
                    *old(state),
                    NavigationState {
                        main_view_tab: spec_previous_tab(
                            old(state).navigation.main_view_tab,
                            old(state).navigation.main_view_mode,
                        ),
                        ..old(state).navigation
                    },
                ),
                MainViewCommand::MoveSelectionUp => r is None && if table_active(*old(state))
                    && table_len(*old(state)) is Some {
                    let n = table_len(*old(state))->0;
                    let i = old(state).address_transactions_view.selected_index as nat;
                    let c = crate::sidebar::clamped(i, n);
                    *final(state) == with_row(*old(state), (if n > 0 && c > 0 { (c - 1) as nat } else { c }) as usize)
                } else {
                    *final(state) == *old(state)
                },
                MainViewCommand::MoveSelectionDown => r is None && if table_active(*old(state))
                    && table_len(*old(state)) is Some {
                    let n = table_len(*old(state))->0;
                    let i = old(state).address_transactions_view.selected_index as nat;
                    let c = crate::sidebar::clamped(i, n);
                    *final(state) == with_row(*old(state), (if n > 0 && c + 1 < n { (c + 1) as nat } else { c }) as usize)
                } else {
                    *final(state) == *old(state)
                },
                MainViewCommand::ActivateSelection => if table_active(*old(state)) && selected_chain(
                    *old(state),
                ) is Some && table_len(*old(state)) is Some && table_len(*old(state))->0 > 0 {
                    let n = table_len(*old(state))->0;
                    let c = crate::sidebar::clamped(
                        old(state).address_transactions_view.selected_index as nat,
                        n,
                    );
                    let row = old(state).current_address->0.transactions_table->0.rows@[c as int];
                    &&& final(state).pending_transaction_preview == Some(row)
                    &&& final(state).address_transactions_view.selected_index == c
                    &&& final(state).navigation == old(state).navigation
                    &&& final(state).selected == old(state).selected
                    &&& r matches Some(Action::SelectionChanged(SelectedEntity::Transaction(t)))
                    &&& t.hash == row.hash && t.chain == selected_chain(*old(state))->0 && t.label@ == short_of(row.hash@)
                } else {
                    &&& r is None
                    &&& final(state).pending_transaction_preview == old(state).pending_transaction_preview
                    &&& final(state).selected == old(state).selected
                    &&& final(state).navigation == old(state).navigation
                },
                _ => r is None && *final(state) == *old(state),
            },
    {
        match command {
            MainViewCommand::SetMode(mode) => {
                state.navigation.set_main_view_mode(*mode);
            },
            MainViewCommand::SwitchTab(tab) => {
                state.navigation.main_view_tab = tab.normalize(state.navigation.main_view_mode);
            },
            MainViewCommand::NextTab => {
                state.navigation.next_main_view_tab();
            },
            MainViewCommand::PreviousTab => {
                state.navigation.previous_main_view_tab();
            },
            MainViewCommand::MoveSelectionUp => {
                if state.navigation.main_view_mode == MainViewMode::Address
                    && !state.loading.main_view.is_loading && state.navigation.main_view_tab.normalize(
                    MainViewMode::Address,
                ) == MainViewTab::AddressTransactions {
                    let len = match &state.current_address {
                        Some(address) => match &address.transactions_table {
                            Some(table) => Some(table.rows.len()),
                            None => None,
                        },
                        None => None,
                    };
                    if let Some(n) = len {
                        state.address_transactions_view.clamp(n);
                        if n > 0 && state.address_transactions_view.selected_index > 0 {
                            state.address_transactions_view.selected_index =
                            state.address_transactions_view.selected_index - 1;
                        }
                    }
                }
            },
            MainViewCommand::MoveSelectionDown => {
                if state.navigation.main_view_mode == MainViewMode::Address
                    && !state.loading.main_view.is_loading && state.navigation.main_view_tab.normalize(
                    MainViewMode::Address,
                ) == MainViewTab::AddressTransactions {
                    let len = match &state.current_address {
                        Some(address) => match &address.transactions_table {
                            Some(table) => Some(table.rows.len()),
                            None => None,
                        },
                        None => None,
                    };
                    if let Some(n) = len {
                        state.address_transactions_view.clamp(n);
                        if n > 0 && state.address_transactions_view.selected_index < n - 1 {
                            state.address_transactions_view.selected_index =
                            state.address_transactions_view.selected_index + 1;
                        }
                    }
                }
            },
            MainViewCommand::ActivateSelection => {
                if state.navigation.main_view_mode == MainViewMode::Address
                    && !state.loading.main_view.is_loading && state.navigation.main_view_tab.normalize(
                    MainViewMode::Address,
                ) == MainViewTab::AddressTransactions {
                    let chain = match &state.selected {
                        Some(SelectedEntity::Address(addr)) => Some(addr.chain.clone()),
                        _ => None,
                    };
                    let len = match &state.current_address {
                        Some(address) => match &address.transactions_table {
                            Some(table) => Some(table.rows.len()),
                            None => None,
                        },
                        None => None,
                    };
                    if let (Some(chain), Some(n)) = (chain, len) {
                        state.address_transactions_view.clamp(n);
                        if n > 0 {
                            let index = state.address_transactions_view.selected_index;
                            let row = match &state.current_address {
                                Some(address) => match &address.transactions_table {
                                    Some(table) => Some(table.rows[index].clone()),
                                    None => None,
                                },
                                None => None,
                            };
                            if let Some(row) = row {
                                let action = Action::SelectionChanged(
                                    SelectedEntity::Transaction(
                                        TransactionRef {
                                            label: short_hex(row.hash.as_str()),
                                            hash: row.hash.clone(),
                                            chain,
                                        },
                                    ),
                                );
                                state.pending_transaction_preview = Some(row);
                                return Some(action);
                            }
                        }
                    }
                }
            },
            MainViewCommand::HydrationStarted | MainViewCommand::HydrationFinished => {},
        }
        None
    }
}

} // verus!
