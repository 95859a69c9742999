use evm_tui::actions::{Action, Effect, Message};
use evm_tui::etherscan::{
    prepare_transaction_query, read_payload, resolve_chain, transaction_from_raw, ApiPayload,
    RawTransaction, TransactionFetchError,
};
use evm_tui::hydrate::{hydrate_transaction, HydratedTransaction};
use evm_tui::input::{KeyCode, KeyEvent, KeyModifiers};
use evm_tui::main_view::MainView;
use evm_tui::model::{AddressRef, AddressTransactionRow, SelectedEntity, TransactionRef, TransactionStatus};
use evm_tui::navigation::{FocusedPane, MainViewMode, MainViewTab, NavigationState, SidebarTab};
use evm_tui::secrets::{SecretKey, SecretsFormCommand, SecretsModal, SecretsOutcome};
use evm_tui::sidebar::{Sidebar, SidebarCommand};
use evm_tui::state::{AddressTransactionsViewState, SecretsState};
use evm_tui::text::short_hex;
use evm_tui::top::{TopBar, TopCommand};
use evm_tui::wei::{format_eth_value, trim_decimal, Wei};

fn key(code: KeyCode) -> KeyEvent {
    KeyEvent { code, modifiers: KeyModifiers { shift: false, control: false, alt: false, other: false } }
}

fn raw(block: &str, to: &str, value: &str) -> RawTransaction {
    RawTransaction {
        block_number: block.into(),
        hash: "0xh".into(),
        from: "0xf".into(),
        to: to.into(),
        value: value.into(),
        is_error: Some("0".into()),
        txreceipt_status: Some("1".into()),
        input: None,
    }
}

fn address_ref(address: &str) -> AddressRef {
    AddressRef { label: address.into(), address: address.into(), chain: "Mainnet".into() }
}

#[test]
fn short_hex_trims_and_shortens() {
    assert_eq!(short_hex("  0x12  "), "0x12");
    assert_eq!(short_hex("0x12345678"), "0x12345678");
    assert_eq!(short_hex("0x12345678901"), "0x1234...8901");
}

#[test]
fn eth_values_are_trimmed() {
    assert_eq!(format_eth_value(&Wei::zero()), "0 ETH");
    assert_eq!(format_eth_value(&Wei::from_u64(1_500_000_000_000_000_000)), "1.5 ETH");
    assert_eq!(format_eth_value(&Wei::from_u64(1)), "0.000000000000000001 ETH");
    let mut s = String::from("2.500");
    trim_decimal(&mut s);
    assert_eq!(s, "2.5");
    let mut t = String::from("3.000");
    trim_decimal(&mut t);
    assert_eq!(t, "3");
    let mut u = String::from("300");
    trim_decimal(&mut u);
    assert_eq!(u, "300");
}

#[test]
fn wei_parsing_reads_prefixes() {
    assert_eq!(transaction_from_raw(raw("1", "0xt", "0x10")).value_wei, Wei::from_u64(16));
    assert_eq!(transaction_from_raw(raw("1", "0xt", "42")).value_wei, Wei::from_u64(42));
    assert!(transaction_from_raw(raw("1", "0xt", "nope")).value_wei.is_zero());
    assert!(Wei::from_u64(0).is_zero());
    assert!(!Wei::from_u64(3).is_zero());
}

#[test]
fn chains_resolve_without_case() {
    assert_eq!(resolve_chain("  MAINNET ").unwrap().chain_id, 1);
    assert_eq!(resolve_chain("Arbitrum One").unwrap().chain_id, 42161);
    assert_eq!(resolve_chain("base").unwrap().label, "Basescan");
    assert_eq!(resolve_chain("ethereum sepolia").unwrap().chain_id, 11155111);
    assert!(resolve_chain("moon").is_none());
}

#[test]
fn query_needs_key_and_chain() {
    let a = address_ref("0xabc");
    assert_eq!(prepare_transaction_query(&a, None, 25), Err(TransactionFetchError::MissingApiKey));
    assert_eq!(prepare_transaction_query(&a, Some("  "), 25), Err(TransactionFetchError::MissingApiKey));
    let mut moon = address_ref("0xabc");
    moon.chain = "Moon".into();
    assert_eq!(
        prepare_transaction_query(&moon, Some("k"), 25),
        Err(TransactionFetchError::UnsupportedChain("Moon".into()))
    );
    let q = prepare_transaction_query(&a, Some("k"), 0).unwrap();
    assert_eq!(q.offset, 1);
    assert_eq!(q.chain.chain_id, 1);
}

#[test]
fn fetch_errors_have_messages() {
    assert_eq!(TransactionFetchError::MissingApiKey.message(), "no Etherscan API key configured");
    assert_eq!(
        TransactionFetchError::UnsupportedChain("x".into()).message(),
        "no Etherscan-compatible chain mapping for \"x\""
    );
    assert_eq!(TransactionFetchError::Http("t".into()).message(), "network error: t");
    assert_eq!(TransactionFetchError::Parse("p".into()).message(), "response parse error: p");
    assert_eq!(TransactionFetchError::Api("a".into()).message(), "a");
}

#[test]
fn raw_entries_are_read() {
    let t = transaction_from_raw(raw("123", " ", "0x10"));
    assert_eq!(t.block_number, 123);
    assert_eq!(t.to, None);
    assert_eq!(t.value_wei, Wei::from_u64(16));
    assert!(!t.is_error);
    let mut failed = raw("oops", "0xt", "bad");
    failed.txreceipt_status = Some("0".into());
    let t = transaction_from_raw(failed);
    assert_eq!(t.block_number, 0);
    assert_eq!(t.to.as_deref(), Some("0xt"));
    assert!(t.value_wei.is_zero());
    assert!(t.is_error);
}

fn payload(status: &str, message: &str, text: Option<&str>, list: bool, entries: Result<Vec<RawTransaction>, String>) -> ApiPayload {
    ApiPayload {
        status: status.into(),
        message: message.into(),
        result_text: text.map(|t| t.to_string()),
        result_is_list: list,
        entries,
    }
}

#[test]
fn payloads_become_lists_or_errors() {
    let ok = read_payload(payload("1", "OK", None, true, Ok(vec![raw("1", "0xt", "0")]))).unwrap();
    assert_eq!(ok.len(), 1);
    let none = read_payload(payload("0", "No transactions found", None, true, Ok(Vec::new()))).unwrap();
    assert!(none.is_empty());
    assert_eq!(
        read_payload(payload("0", "NOTOK", Some("Invalid API Key"), false, Err("e".into()))).unwrap_err(),
        TransactionFetchError::Api("Invalid API Key".into())
    );
    assert_eq!(
        read_payload(payload("0", "NOTOK", None, false, Err("e".into()))).unwrap_err(),
        TransactionFetchError::Api("NOTOK".into())
    );
    assert_eq!(
        read_payload(payload("1", "OK", None, true, Err("bad entry".into()))).unwrap_err(),
        TransactionFetchError::Parse("bad entry".into())
    );
    assert_eq!(
        read_payload(payload("2", "odd", None, true, Ok(Vec::new()))).unwrap_err(),
        TransactionFetchError::Api("odd".into())
    );
}

#[test]
fn queries_decode_to_entities() {
    let address = format!("0x{}", "a".repeat(40));
    match TopBar::decode_query(&format!("  {address} ")).unwrap() {
        SelectedEntity::Address(a) => {
            assert_eq!(a.address, address);
            assert_eq!(a.label, "Address 0xaaaa...aaaa");
            assert_eq!(a.chain, "Mainnet");
        }
        other => panic!("unexpected {:?}", other),
    }
    let hash = "b".repeat(64);
    match TopBar::decode_query(&hash).unwrap() {
        SelectedEntity::Transaction(t) => assert_eq!(t.hash, format!("0x{hash}")),
        other => panic!("unexpected {:?}", other),
    }
    assert_eq!(TopBar::decode_query("0x").unwrap_err(), "Empty query");
    assert_eq!(
        TopBar::decode_query("0xzz").unwrap_err(),
        "Input could not be decoded as a valid address or transaction"
    );
    assert!(matches!(TopBar::search_message("0x".into()), Message::SearchFailed { .. }));
}

#[test]
fn search_prompt_edits_and_submits() {
    let mut bar = TopBar::default();
    let mut effects: Vec<Effect> = Vec::new();
    assert_eq!(bar.update(TopCommand::Submit, &mut effects), None);
    assert_eq!(bar.status.as_deref(), Some("Enter a value to search"));
    bar.update(TopCommand::InputChar('a'), &mut effects);
    bar.update(TopCommand::InputChar('b'), &mut effects);
    bar.update(TopCommand::Backspace, &mut effects);
    assert_eq!(bar.search_value, "a");
    assert!(bar.is_search_active());
    let action = bar.update(TopCommand::Submit, &mut effects);
    assert_eq!(action, Some(Action::LoadingStarted(FocusedPane::Top)));
    assert!(matches!(&effects[0], Effect::Search { query } if query == "a"));
    assert_eq!(bar.status.as_deref(), Some("Searching for a…"));
    bar.update(TopCommand::Cancel, &mut effects);
    assert!(!bar.is_search_active());
}

#[test]
fn navigation_focus_and_modal() {
    let mut nav = NavigationState::default();
    nav.focus_next();
    assert_eq!(nav.focused_pane, FocusedPane::Sidebar);
    nav.focus_previous();
    nav.focus_previous();
    assert_eq!(nav.focused_pane, FocusedPane::BottomBar);
    nav.focus_pane(FocusedPane::MainView);
    nav.focus_modal();
    nav.focus_modal();
    assert_eq!(nav.focused_pane, FocusedPane::Modal);
    nav.restore_focus_after_modal();
    assert_eq!(nav.focused_pane, FocusedPane::MainView);
    assert_eq!(FocusedPane::from_number(3), Some(FocusedPane::MainView));
    assert_eq!(FocusedPane::from_number(5), None);
    assert_eq!(SidebarTab::Addresses.next(), SidebarTab::Transactions);
    nav.set_main_view_mode(MainViewMode::Transaction);
    assert_eq!(nav.main_view_tab, MainViewTab::TransactionSummary);
}

#[test]
fn sidebar_adds_and_removes_favorites() {
    let mut sidebar = Sidebar::default();
    let mut tab = SidebarTab::Addresses;
    let a = SelectedEntity::Address(address_ref("0x01"));
    let action = sidebar.update(&SidebarCommand::AddFavorite(a.clone()), &mut tab);
    assert_eq!(action, Some(Action::SelectionChanged(a.clone())));
    assert_eq!(sidebar.update(&SidebarCommand::AddFavorite(a.clone()), &mut tab), None);
    assert_eq!(sidebar.addresses.len(), 1);
    assert_eq!(sidebar.display_label(SidebarTab::Addresses, 0), "0x01 [Mainnet]");
    sidebar.update(&SidebarCommand::RemoveFavorite(a), &mut tab);
    assert!(sidebar.addresses.is_empty());
    sidebar.update(&SidebarCommand::NextTab, &mut tab);
    assert_eq!(tab, SidebarTab::Transactions);
}

#[test]
fn view_index_is_clamped() {
    let mut view = AddressTransactionsViewState { selected_index: 9 };
    view.clamp(3);
    assert_eq!(view.selected_index, 2);
    view.clamp(0);
    assert_eq!(view.selected_index, 0);
}

#[test]
fn secrets_resolve_from_env_then_store() {
    assert_eq!(SecretsState::resolve_secret(Some("  v "), Some("s")), Some("v".to_string()));
    assert_eq!(SecretsState::resolve_secret(Some("  "), Some("s")), None);
    assert_eq!(SecretsState::resolve_secret(None, Some(" s ")), Some("s".to_string()));
    assert_eq!(SecretsState::resolve_secret(None, None), None);
    assert_eq!(SecretKey::EtherscanApiKey.env_var(), "ETHERSCAN_API_KEY");
    assert_eq!(SecretKey::AnvilRpcUrl.storage_key(), "v1::secret::anvil_rpc_url");
}

#[test]
fn secrets_form_validates_and_saves() {
    let mut modal = SecretsModal::new();
    assert!(matches!(modal.apply_command(SecretsFormCommand::Submit), SecretsOutcome::Nothing));
    assert_eq!(modal.message.as_deref(), Some("Etherscan API key is required"));
    modal.apply_command(SecretsFormCommand::InsertText("KEY\r\n".into()));
    assert_eq!(modal.etherscan_value, "KEY");
    modal.apply_command(SecretsFormCommand::FocusNextField);
    assert_eq!(modal.validate(), Err("Anvil RPC URL is required"));
    modal.apply_command(SecretsFormCommand::InsertText(" http://node ".into()));
    match modal.apply_command(SecretsFormCommand::Submit) {
        SecretsOutcome::Save { etherscan, anvil } => {
            assert_eq!(etherscan, "KEY");
            assert_eq!(anvil, "http://node");
        }
        other => panic!("unexpected {:?}", other),
    }
    assert!(matches!(
        SecretsModal::command_from_key(key(KeyCode::Esc)),
        Some(SecretsFormCommand::Cancel)
    ));
}

#[test]
fn transaction_view_uses_cached_row() {
    let t = TransactionRef { label: "T".into(), hash: "0xabcdef1234567890".into(), chain: "Mainnet".into() };
    let bare = hydrate_transaction(&t, None);
    assert_eq!(bare.summary[1], "Status: Not cached");
    assert_eq!(bare.summary.last().unwrap(), "Calldata: Calldata unavailable (connect debugger or provider)");
    assert_eq!(bare.debug, vec!["Trace data unavailable. Configure Alloy debug adapter.".to_string()]);
    let row = AddressTransactionRow {
        hash: t.hash.clone(),
        from: "0xf".into(),
        to: None,
        value_wei: Wei::from_u64(0),
        block_number: Some(5),
        direction: evm_tui::model::TransactionDirection::Interaction,
        counterparty: "0xf".into(),
        value_display: "0 ETH".into(),
        status: TransactionStatus::Failed,
        calldata: Some("0x00".into()),
    };
    let seeded = hydrate_transaction(&t, Some(row));
    assert_eq!(
        seeded.summary,
        vec![
            "Hash: 0xabcd...7890".to_string(),
            "Status: Failed".to_string(),
            "From: 0xf".to_string(),
            "To: Contract creation".to_string(),
            "Value: 0 ETH".to_string(),
            "Block: 5".to_string(),
            "Calldata: 0x00".to_string(),
        ]
    );
    let text = MainView::transaction_summary_text(&seeded);
    assert_eq!(
        text,
        "Hash: 0xabcd...7890\nStatus: Failed\nFrom: 0xf\nTo: Contract creation\nValue: 0 ETH\nBlock: 5\nCalldata: 0x00"
    );
    let empty = HydratedTransaction { status: None, to: None, ..seeded };
    assert!(MainView::transaction_summary_text(&empty).contains("To: Not cached"));
    assert_eq!(MainView::tab_index(MainViewMode::Address, MainViewTab::TransactionDebug), 0);
    assert_eq!(MainView::tab_titles(MainViewMode::Transaction)[2].0, "Storage Diff");
}

#[test]
fn decimal_numbers_parse_exactly() {
    assert_eq!(evm_tui::text::parse_u64("+5"), Some(5));
    assert_eq!(evm_tui::text::parse_u64("18446744073709551615"), Some(u64::MAX));
    assert_eq!(evm_tui::text::parse_u64("18446744073709551616"), None);
    assert_eq!(evm_tui::text::parse_u64(""), None);
    assert_eq!(evm_tui::text::parse_u64("+"), None);
    assert_eq!(evm_tui::text::parse_u64("1a"), None);
    assert!(evm_tui::text::eq_ignore_case("0xAbC", "0XaBc"));
    assert!(!evm_tui::text::eq_ignore_case("0xab", "0xabc"));
    assert_eq!(evm_tui::text::shorten("0x1234567890abcdef"), "0x1234...cdef");
}
