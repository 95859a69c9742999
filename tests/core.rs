use alloy::primitives::{Address, U256};
use evm_tui::actions::{Action, Effect, Message};
use evm_tui::app::{App, FavoriteChange, FavoriteRecord};
use evm_tui::etherscan::{TransactionFetchError, TransactionListSource};
use evm_tui::hydrate::{
    apply_transactions_result, assemble_address, build_address_view, plan_overview,
    AccountOverview, HydratedAddress, HydratedTransaction, OverviewOutcome, OverviewPlan,
};
use evm_tui::model::{
    AddressRef, AddressTransaction, AddressTransactionRow, SelectedEntity, TransactionDirection,
    TransactionRef,
};
use evm_tui::input::{KeyCode, KeyEvent, KeyModifiers};
use evm_tui::navigation::{FocusedPane, MainViewMode, MainViewTab};
use evm_tui::state::SecretsState;
use evm_tui::wei::Wei;
use std::collections::HashMap;
use std::str::FromStr;

fn wei(v: u128) -> Wei {
    Wei { limbs: U256::from(v).into_limbs() }
}

fn address_ref(label: &str, address: &str) -> AddressRef {
    AddressRef { label: label.into(), address: address.into(), chain: "Mainnet".into() }
}

fn full_secrets() -> SecretsState {
    SecretsState { etherscan_api_key: Some("key".into()), anvil_rpc_url: Some("http://node".into()) }
}

fn tx(from: &str, to: Option<&str>, value: u128) -> AddressTransaction {
    AddressTransaction {
        hash: "0xhash".into(),
        block_number: 7,
        from: from.into(),
        to: to.map(|t| t.to_string()),
        value_wei: wei(value),
        is_error: false,
        input: None,
    }
}

fn hydrated_for(address: &str) -> HydratedAddress {
    build_address_view(address_ref("x", address), None, None, None, None)
}

#[test]
fn build_address_view_formats_overview() {
    let address = Address::from_str("0xf39fd6e51aad88f6f4ce6ab8827279cfffb92266").unwrap();
    let addr_ref = AddressRef {
        label: "Test Label".into(),
        address: format!("{:#x}", address),
        chain: "Local".into(),
    };
    let overview = AccountOverview {
        latest_block: 42,
        balance_wei: wei(1_000_000_000_000_000_000u128),
        transaction_count: 7,
        is_contract: false,
    };

    let hydrated = build_address_view(
        addr_ref,
        Some(overview.clone()),
        None,
        Some("https://eth.llamarpc.com".into()),
        None,
    );

    assert_eq!(hydrated.info.first().unwrap(), "RPC endpoint: https://eth.llamarpc.com");
    assert!(hydrated.info.iter().any(|line| line.contains("Latest block: 42")));
    assert!(hydrated.info.iter().any(|line| line.contains("Balance:")));
    assert_eq!(hydrated.overview.as_ref(), Some(&overview));
}

#[test]
fn hydrate_address_without_rpc_returns_note() {
    let address = Address::from_str("0xf39fd6e51aad88f6f4ce6ab8827279cfffb92266").unwrap();
    let addr_ref = AddressRef {
        label: "No RPC".into(),
        address: format!("{:#x}", address),
        chain: "Local".into(),
    };
    let hydrated = assemble_address(
        addr_ref,
        None,
        OverviewOutcome::NoEndpoint,
        Err(TransactionFetchError::MissingApiKey),
    );
    assert!(hydrated.info.first().expect("info entry").contains("Configure an Anvil RPC endpoint"));
    assert!(hydrated.overview.is_none());
}

#[test]
fn overview_lines_are_exact() {
    let overview = AccountOverview {
        latest_block: 42,
        balance_wei: wei(1_500_000_000_000_000_000u128),
        transaction_count: 7,
        is_contract: true,
    };
    let hydrated = build_address_view(address_ref("a", "0xabc"), Some(overview), None, None, None);
    assert_eq!(
        hydrated.info,
        vec![
            "Latest block: 42".to_string(),
            "Balance: 1.500000000000000000 ETH (1500000000000000000 wei)".to_string(),
            "Transaction count (nonce): 7".to_string(),
            "Account type: Contract".to_string(),
        ]
    );
    assert_eq!(hydrated.transactions, vec!["Transactions will appear once data is fetched.".to_string()]);
}

#[test]
fn empty_view_has_placeholder_line() {
    let hydrated = hydrated_for("0xabc");
    assert_eq!(hydrated.info, vec!["No account data available.".to_string()]);
}

#[test]
fn overview_outcomes_leave_notes() {
    let failed = assemble_address(
        address_ref("a", "0xabc"),
        Some("http://node".into()),
        OverviewOutcome::Failed { error: "boom".into(), latest_block: Some(9) },
        Err(TransactionFetchError::Api("limit".into())),
    );
    assert_eq!(
        failed.info,
        vec![
            "RPC endpoint: http://node".to_string(),
            "Latest block observed: 9".to_string(),
            "Failed to load account data: boom".to_string(),
        ]
    );
    assert_eq!(failed.transactions, vec!["Failed to load transactions: limit".to_string()]);
    let timed_out = assemble_address(
        address_ref("a", "0xabc"),
        Some("http://node".into()),
        OverviewOutcome::TimedOut { latest_block: None },
        Err(TransactionFetchError::UnsupportedChain("Moon".into())),
    );
    assert_eq!(timed_out.info[1], "Account query to http://node timed out");
    assert_eq!(
        timed_out.transactions,
        vec!["No Etherscan-compatible explorer configured for chain Moon.".to_string()]
    );
    let invalid = assemble_address(
        address_ref("a", "zz"),
        Some("http://node".into()),
        OverviewOutcome::InvalidAddress,
        Err(TransactionFetchError::Http("down".into())),
    );
    assert_eq!(invalid.info[1], "Address is not a valid hexadecimal string");
    assert_eq!(invalid.transactions, vec!["Failed to load transactions: network error: down".to_string()]);
}

#[test]
fn row_direction_classification() {
    let outgoing = AddressTransactionRow::from_transaction("0xAAA", &tx("0xAAA", Some("0xBBB"), 0));
    assert_eq!(outgoing.direction, TransactionDirection::Outgoing);
    let incoming = AddressTransactionRow::from_transaction("0xAAA", &tx("0xBBB", Some("0xAAA"), 0));
    assert_eq!(incoming.direction, TransactionDirection::Incoming);
    let own = AddressTransactionRow::from_transaction("0xAAA", &tx("0xAAA", Some("0xAAA"), 0));
    assert_eq!(own.direction, TransactionDirection::SelfTransfer);
    let other = AddressTransactionRow::from_transaction("0xAAA", &tx("0xBBB", Some("0xCCC"), 0));
    assert_eq!(other.direction, TransactionDirection::Interaction);
}

#[test]
fn row_matches_target_without_case() {
    let row = AddressTransactionRow::from_transaction("0xaaa", &tx("0xAAA", Some("0xBBB"), 0));
    assert_eq!(row.direction, TransactionDirection::Outgoing);
    assert_eq!(row.counterparty, "0xBBB");
}

#[test]
fn row_counterparty_and_value() {
    let long_to = "0x1234567890abcdef1234567890abcdef12345678";
    let out = AddressTransactionRow::from_transaction(
        "0xAAA",
        &tx("0xAAA", Some(long_to), 1_500_000_000_000_000_000),
    );
    assert_eq!(out.counterparty, "0x1234...5678");
    assert_eq!(out.value_display, "-1.5 ETH");
    let inc = AddressTransactionRow::from_transaction("0xAAA", &tx("0xBBB", Some("0xAAA"), 2_000_000_000_000_000_000));
    assert_eq!(inc.value_display, "+2 ETH");
    assert_eq!(inc.counterparty, "0xBBB");
    let own = AddressTransactionRow::from_transaction("0xAAA", &tx("0xAAA", Some("0xAAA"), 1_000_000_000_000_000_000));
    assert_eq!(own.value_display, "1 ETH");
    assert_eq!(own.counterparty, "Self");
    let create = AddressTransactionRow::from_transaction("0xAAA", &tx("0xAAA", None, 0));
    assert_eq!(create.counterparty, "Contract creation");
    assert_eq!(create.value_display, "0 ETH");
    assert_eq!(create.block_number, Some(7));
    let mut pending = tx("0xBBB", None, 0);
    pending.block_number = 0;
    let row = AddressTransactionRow::from_transaction("0xAAA", &pending);
    assert_eq!(row.block_number, None);
    assert_eq!(row.counterparty, "Contract creation");
}

#[test]
fn empty_history_shows_no_transactions_note() {
    let mut hydrated = hydrated_for("0xabc");
    let source = TransactionListSource { label: "Etherscan", api_version: "v2" };
    apply_transactions_result(&mut hydrated, Ok((Vec::new(), source)));
    assert!(hydrated.transactions_table.is_none());
    assert_eq!(hydrated.transactions, vec!["No transactions available via Etherscan (v2).".to_string()]);
    let mut failed = hydrated_for("0xabc");
    apply_transactions_result(&mut failed, Err(TransactionFetchError::Api("No transactions found".into())));
    assert_ne!(failed.transactions, hydrated.transactions);
}

#[test]
fn history_rows_fill_the_table() {
    let mut hydrated = hydrated_for("0xAAA");
    let source = TransactionListSource { label: "Etherscan", api_version: "v2" };
    apply_transactions_result(&mut hydrated, Ok((vec![tx("0xAAA", Some("0xBBB"), 0)], source)));
    let table = hydrated.transactions_table.as_ref().unwrap();
    assert_eq!(table.rows.len(), 1);
    assert_eq!(table.limit, 25);
    assert_eq!(
        hydrated.transactions,
        vec!["Latest 1 transaction(s) via Etherscan (v2) • newest first (max 25).".to_string()]
    );
}

#[test]
fn missing_key_explains_setup() {
    let mut hydrated = hydrated_for("0xabc");
    apply_transactions_result(&mut hydrated, Err(TransactionFetchError::MissingApiKey));
    assert_eq!(hydrated.transactions.len(), 2);
    assert_eq!(hydrated.transactions[0], "Add an Etherscan API key to load recent transactions.");
}

#[test]
fn empty_favorites_startup_selects_nothing() {
    let app = App::new(full_secrets(), Vec::new(), Vec::new());
    assert!(app.state.selected.is_none());
    assert!(app.effects.is_empty());
    assert!(app.secrets_modal.is_none());
}

#[test]
fn favorite_without_label_uses_identifier() {
    let record = FavoriteRecord { label: None, identifier: "0xabc".into(), chain: "Mainnet".into() };
    let mut app = App::new(full_secrets(), vec![record], Vec::new());
    assert_eq!(app.sidebar.addresses[0].label, "0xabc");
    match &app.state.selected {
        Some(SelectedEntity::Address(a)) => assert_eq!(a.label, "0xabc"),
        other => panic!("unexpected selection {:?}", other),
    }
    let effects = app.take_effects();
    assert_eq!(effects.len(), 1);
    assert!(matches!(&effects[0], Effect::HydrateAddress { address, .. } if address.address == "0xabc"));
    assert_eq!(app.state.navigation.main_view_tab, MainViewTab::AddressTransactions);
}

#[test]
fn missing_secrets_open_the_form() {
    let app = App::new(SecretsState::default(), Vec::new(), Vec::new());
    assert!(app.secrets_modal.is_some());
    assert_eq!(app.state.navigation.focused_pane, FocusedPane::Modal);
}

#[test]
fn superseded_hydration_is_ignored() {
    let mut app = App::new(full_secrets(), Vec::new(), Vec::new());
    app.dispatch(Action::SelectionChanged(SelectedEntity::Address(address_ref("A", "0xaaa"))));
    app.dispatch(Action::SelectionChanged(SelectedEntity::Address(address_ref("B", "0xbbb"))));
    app.handle_message(Message::AddressHydrated(hydrated_for("0xbbb")));
    assert_eq!(app.state.current_address.as_ref().unwrap().identifier, "0xbbb");
    app.handle_message(Message::AddressHydrated(hydrated_for("0xaaa")));
    match &app.state.selected {
        Some(SelectedEntity::Address(a)) => assert_eq!(a.address, "0xbbb"),
        other => panic!("unexpected selection {:?}", other),
    }
    assert_eq!(app.state.current_address.as_ref().unwrap().identifier, "0xbbb");
}

#[test]
fn hydration_result_applies_without_case() {
    let mut app = App::new(full_secrets(), Vec::new(), Vec::new());
    app.dispatch(Action::SelectionChanged(SelectedEntity::Address(address_ref("A", "0xAAA"))));
    assert!(app.state.loading.main_view.is_loading);
    app.handle_message(Message::AddressHydrated(hydrated_for("0xaaa")));
    assert!(app.state.current_address.is_some());
    assert!(!app.state.loading.main_view.is_loading);
    assert_eq!(app.top_bar.status.as_deref(), Some("No account data available."));
}

#[test]
fn stale_transaction_result_is_ignored() {
    let mut app = App::new(full_secrets(), Vec::new(), Vec::new());
    let t = TransactionRef { label: "T".into(), hash: "0x01".into(), chain: "Mainnet".into() };
    app.dispatch(Action::SelectionChanged(SelectedEntity::Transaction(t.clone())));
    let stale = HydratedTransaction {
        identifier: "0x02".into(),
        summary: Vec::new(),
        debug: Vec::new(),
        storage_diff: Vec::new(),
        from: None,
        to: None,
        value_formatted: None,
        calldata: None,
        block_number: None,
        status: None,
    };
    app.handle_message(Message::TransactionHydrated(stale));
    assert!(app.state.current_transaction.is_none());
    let fresh = evm_tui::hydrate::hydrate_transaction(&t, None);
    app.handle_message(Message::TransactionHydrated(fresh));
    assert!(app.state.current_transaction.is_some());
}

#[test]
fn toggle_twice_restores_favorites() {
    let mut app = App::new(full_secrets(), Vec::new(), Vec::new());
    app.dispatch(Action::SelectionChanged(SelectedEntity::Address(address_ref("A", "0xaaa"))));
    let mut store: HashMap<String, FavoriteRecord> = HashMap::new();
    let before = store.clone();
    for _ in 0..2 {
        let change = app.favorite_change().unwrap();
        match &change {
            FavoriteChange::Add { record, .. } => {
                store.insert(record.identifier.clone(), record.clone());
            }
            FavoriteChange::Remove { identifier, .. } => {
                store.remove(identifier);
            }
        }
        app.apply_favorite_change(change);
    }
    assert_eq!(store, before);
    assert!(app.state.favorite_addresses.is_empty());
    assert!(app.sidebar.addresses.is_empty());
}

#[test]
fn favoriting_adds_to_front_of_list() {
    let record = FavoriteRecord { label: Some("Old".into()), identifier: "0x01".into(), chain: "Mainnet".into() };
    let mut app = App::new(full_secrets(), vec![record], Vec::new());
    app.dispatch(Action::SelectionChanged(SelectedEntity::Address(address_ref("New", "0x02"))));
    let change = app.favorite_change().unwrap();
    assert!(matches!(change, FavoriteChange::Add { .. }));
    app.apply_favorite_change(change);
    assert_eq!(app.sidebar.addresses[0].address, "0x02");
    assert_eq!(app.state.favorite_addresses.len(), 2);
}

#[test]
fn normalize_is_idempotent() {
    let tabs = [
        MainViewTab::AddressInfo,
        MainViewTab::AddressTransactions,
        MainViewTab::AddressInternal,
        MainViewTab::AddressBalances,
        MainViewTab::AddressPermissions,
        MainViewTab::TransactionSummary,
        MainViewTab::TransactionDebug,
        MainViewTab::TransactionStorageDiff,
    ];
    for mode in [MainViewMode::Address, MainViewMode::Transaction] {
        for tab in tabs {
            let once = tab.normalize(mode);
            assert_eq!(once.normalize(mode), once);
            assert_eq!(tab.next(mode).previous(mode), once);
            assert_eq!(tab.previous(mode).next(mode), once);
        }
    }
    assert_eq!(MainViewTab::TransactionDebug.normalize(MainViewMode::Address), MainViewTab::AddressInfo);
    assert_eq!(MainViewTab::AddressPermissions.next(MainViewMode::Address), MainViewTab::AddressInfo);
    assert_eq!(MainViewTab::TransactionSummary.previous(MainViewMode::Transaction), MainViewTab::TransactionStorageDiff);
}

#[test]
fn overview_plan_checks_endpoint_and_address() {
    let good = "0xf39fd6e51aad88f6f4ce6ab8827279cfffb92266";
    assert_eq!(plan_overview(None, None, good), OverviewPlan::NoEndpoint);
    assert_eq!(plan_overview(None, Some("  ".into()), good), OverviewPlan::NoEndpoint);
    assert_eq!(
        plan_overview(None, Some("http://env".into()), good),
        OverviewPlan::Fetch { endpoint: "http://env".into() }
    );
    assert_eq!(
        plan_overview(Some("http://cfg".into()), Some("http://env".into()), &good[2..]),
        OverviewPlan::Fetch { endpoint: "http://cfg".into() }
    );
    assert_eq!(
        plan_overview(Some("http://cfg".into()), None, "0x123"),
        OverviewPlan::InvalidAddress { endpoint: "http://cfg".into() }
    );
}

fn plain(code: KeyCode) -> KeyEvent {
    KeyEvent { code, modifiers: KeyModifiers { shift: false, control: false, alt: false, other: false } }
}

#[test]
fn keys_move_focus_and_quit() {
    let mut app = App::new(full_secrets(), Vec::new(), Vec::new());
    app.on_key_event(plain(KeyCode::Tab));
    assert_eq!(app.state.navigation.focused_pane, FocusedPane::Sidebar);
    app.on_key_event(plain(KeyCode::Char('3')));
    assert_eq!(app.state.navigation.focused_pane, FocusedPane::MainView);
    app.on_key_event(plain(KeyCode::Char('/')));
    assert_eq!(app.state.navigation.focused_pane, FocusedPane::Top);
    assert!(app.top_bar.search_active);
    app.on_key_event(plain(KeyCode::Char('q')));
    assert!(app.running);
    assert_eq!(app.top_bar.search_value, "q");
    app.on_key_event(plain(KeyCode::Esc));
    assert!(!app.top_bar.search_active);
    app.on_key_event(plain(KeyCode::Char('q')));
    assert!(!app.running);
}

#[test]
fn cached_row_seeds_transaction_hydration() {
    let mut app = App::new(full_secrets(), Vec::new(), Vec::new());
    app.dispatch(Action::SelectionChanged(SelectedEntity::Address(address_ref("A", "0xAAA"))));
    let mut data = hydrated_for("0xAAA");
    let source = TransactionListSource { label: "Etherscan", api_version: "v2" };
    apply_transactions_result(&mut data, Ok((vec![tx("0xAAA", Some("0xBBB"), 0)], source)));
    app.handle_message(Message::AddressHydrated(data));
    app.take_effects();
    let t = TransactionRef { label: "T".into(), hash: "0xhash".into(), chain: "Mainnet".into() };
    app.dispatch(Action::SelectionChanged(SelectedEntity::Transaction(t)));
    let effects = app.take_effects();
    match effects.last() {
        Some(Effect::HydrateTransaction { preview: Some(row), .. }) => {
            assert_eq!(row.hash, "0xhash");
            assert_eq!(row.direction, TransactionDirection::Outgoing);
        }
        other => panic!("unexpected effect {:?}", other),
    }
    assert_eq!(app.state.navigation.main_view_mode, MainViewMode::Transaction);
}

#[test]
fn completed_search_selects_and_hydrates() {
    let mut app = App::new(full_secrets(), Vec::new(), Vec::new());
    let entity = SelectedEntity::Address(address_ref("A", "0xaaa"));
    app.dispatch(Action::LoadingStarted(FocusedPane::Top));
    app.state.search_error = Some("old".into());
    app.handle_message(Message::SearchCompleted { query: "0xaaa".into(), entity: entity.clone() });
    assert_eq!(app.state.selected, Some(entity));
    assert!(app.state.search_error.is_none());
    assert!(!app.state.loading.top.is_loading);
    assert_eq!(app.state.navigation.focused_pane, FocusedPane::MainView);
    assert!(matches!(app.effects.last(), Some(Effect::HydrateAddress { .. })));
}

#[test]
fn store_failure_leaves_favorites_alone() {
    let mut app = App::new(full_secrets(), Vec::new(), Vec::new());
    app.dispatch(Action::SelectionChanged(SelectedEntity::Address(address_ref("A", "0xaaa"))));
    assert!(app.favorite_change().is_some());
    app.show_store_error("disk full".into());
    assert!(app.state.favorite_addresses.is_empty());
    assert!(app.sidebar.addresses.is_empty());
    assert_eq!(app.top_bar.status.as_deref(), Some("Could not update storage: disk full"));
}
