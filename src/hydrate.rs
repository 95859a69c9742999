//! What a finished hydration carries: the assembled view of an address from
//! its account overview and transaction history, and the view of a
//! transaction seeded from a cached row.
use vstd::prelude::*;
use crate::etherscan::{error_message, TransactionFetchError, TransactionListSource};
use crate::model::{
    is_row_of, one_line, push_line, short_of, status_text, texts, AddressRef, AddressTransaction,
    AddressTransactionRow, TransactionRef, TransactionStatus,
};
use crate::text::{copy_opt, decimal, join2, join3, short_hex, u64_text};
use crate::top::is_hex_char;
use crate::wei::{ether_text, format_ether, wei_decimal, Wei};

verus! {

/// How many transactions a history request asks for.
pub const TRANSACTION_FETCH_LIMIT: usize = 25;

/// Account data read from the node: latest block, balance, nonce, and whether
/// the account holds code.
#[derive(Debug, Clone, Copy, PartialEq, Eq)]
pub struct AccountOverview {
    pub latest_block: u64,
    pub balance_wei: Wei,
    pub transaction_count: u64,
    pub is_contract: bool,
}

#[derive(Debug, PartialEq, Eq)]
pub struct AddressTransactionsTable {
    pub source_label: String,
    pub source_api_version: String,
    pub limit: usize,
    pub rows: Vec<AddressTransactionRow>,
}

#[derive(Debug, PartialEq, Eq)]
pub struct HydratedAddress {
    pub identifier: String,
    pub info: Vec<String>,
    pub transactions: Vec<String>,
    pub transactions_table: Option<AddressTransactionsTable>,
    pub internal: Vec<String>,
    pub balances: Vec<String>,
    pub permissions: Vec<String>,
    pub overview: Option<AccountOverview>,
}

#[derive(Debug, PartialEq, Eq)]
pub struct HydratedTransaction {
    pub identifier: String,
    pub summary: Vec<String>,
    pub debug: Vec<String>,
    pub storage_diff: Vec<String>,
    pub from: Option<String>,
    pub to: Option<String>,
    pub value_formatted: Option<String>,
    pub calldata: Option<String>,
    pub block_number: Option<u64>,
    pub status: Option<TransactionStatus>,
}

/// The lines that describe an account overview.
pub open spec fn overview_lines(o: AccountOverview) -> Seq<Seq<char>> {
    seq![
        "Latest block: "@ + decimal(o.latest_block as nat),
        "Balance: "@ + ether_text(o.balance_wei@) + " ETH ("@ + decimal(o.balance_wei@) + " wei)"@,
        "Transaction count (nonce): "@ + decimal(o.transaction_count as nat),
        "Account type: "@ + (if o.is_contract {
            "Contract"@
        } else {
            "Externally Owned Account"@
        }),
    ]
}

pub open spec fn endpoint_lines(rpc_endpoint: Option<Seq<char>>) -> Seq<Seq<char>> {
    match rpc_endpoint {
        Some(u) => seq!["RPC endpoint: "@ + u],
        None => Seq::empty(),
    }
}

pub open spec fn overview_opt_lines(overview: Option<AccountOverview>) -> Seq<Seq<char>> {
    match overview {
        Some(o) => overview_lines(o),
        None => Seq::empty(),
    }
}

pub open spec fn opt_lines(o: Option<Seq<char>>) -> Seq<Seq<char>> {
    match o {
        Some(s) => seq![s],
        None => Seq::empty(),
    }
}

/// The info lines of an address view: endpoint, overview, block note, note;
/// a single placeholder when there is none of them.
pub open spec fn info_lines(
    rpc_endpoint: Option<Seq<char>>,
    overview: Option<AccountOverview>,
    note: Option<Seq<char>>,
    block_note: Option<Seq<char>>,
) -> Seq<Seq<char>> {
    let l = endpoint_lines(rpc_endpoint) + overview_opt_lines(overview) + opt_lines(block_note)
        + opt_lines(note);
    if l.len() == 0 {
        seq!["No account data available."@]
    } else {
        l
    }
}

fn overview_line_list(o: &AccountOverview, info: &mut Vec<String>)
    ensures
        texts(final(info)@) == texts(old(info)@) + overview_lines(*o),
{
    let ghost start = texts(info@);
    push_line(info, join2("Latest block: ", u64_text(o.latest_block).as_str()));
    let eth = format_ether(&o.balance_wei);
    let wei = wei_decimal(&o.balance_wei);
    let balance = join3("Balance: ", eth.as_str(), " ETH (");
    push_line(info, join3(balance.as_str(), wei.as_str(), " wei)"));
    push_line(info, join2("Transaction count (nonce): ", u64_text(o.transaction_count).as_str()));
    let kind = if o.is_contract { "Contract" } else { "Externally Owned Account" };
    push_line(info, join2("Account type: ", kind));
    assert(texts(info@) =~= start + overview_lines(*o));
}

/// The view of an address before its transaction history is known.
#[verifier::rlimit(50)]
pub fn build_address_view(
    addr: AddressRef,
    overview: Option<AccountOverview>,
    note: Option<String>,
    rpc_endpoint: Option<String>,
    block_note: Option<String>,
) -> (r: HydratedAddress)
    ensures
        r.identifier == addr.address,
        texts(r.info@) == info_lines(
            view_opt(rpc_endpoint),
            overview,
            view_opt(note),
            view_opt(block_note),
        ),
        texts(r.transactions@) == seq!["Transactions will appear once data is fetched."@],
        r.transactions_table is None,
        texts(r.internal@) == seq!["Internal transactions not yet implemented."@],
        texts(r.balances@) == seq!["Balance inspection not yet implemented."@],
        texts(r.permissions@) == seq!["Permission analysis not yet implemented."@],
        r.overview == overview,
{
    let mut info: Vec<String> = Vec::new();
    assert(texts(info@) =~= Seq::<Seq<char>>::empty());
    let ghost l1 = endpoint_lines(view_opt(rpc_endpoint));
    if let Some(url) = &rpc_endpoint {
        push_line(&mut info, join2("RPC endpoint: ", url.as_str()));
    }
    assert(texts(info@) =~= l1);
    if let Some(summary) = &overview {
        overview_line_list(summary, &mut info);
    }
    let ghost l2 = l1 + overview_opt_lines(overview);
    assert(texts(info@) =~= l2);
    if let Some(line) = block_note {
        push_line(&mut info, line);
    }
    assert(texts(info@) =~= l2 + opt_lines(view_opt(block_note)));
    if let Some(message) = note {
        push_line(&mut info, message);
    }
    let ghost l = l2 + opt_lines(view_opt(block_note)) + opt_lines(view_opt(note));
    assert(texts(info@) =~= l);
    assert(info@.len() == l.len());
    if info.len() == 0 {
        push_line(&mut info, "No account data available.".to_owned());
        assert(texts(info@) =~= seq!["No account data available."@]);
    }
    HydratedAddress {
        identifier: addr.address,
        info,
        transactions: one_line("Transactions will appear once data is fetched.".to_owned()),
        transactions_table: None,
        internal: one_line("Internal transactions not yet implemented.".to_owned()),
        balances: one_line("Balance inspection not yet implemented.".to_owned()),
        permissions: one_line("Permission analysis not yet implemented.".to_owned()),
        overview,
    }
}

/// How the account-overview fetch went.
#[derive(Debug, PartialEq, Eq)]
pub enum OverviewOutcome {
    /// No node endpoint is configured.
    NoEndpoint,
    /// The address is not 40 hexadecimal digits.
    InvalidAddress,
    Loaded(AccountOverview),
    /// The fetch failed; `latest_block` is what the fallback query saw, if it answered.
    Failed { error: String, latest_block: Option<u64> },
    /// The fetch ran out of time; `latest_block` is what the fallback query saw, if it answered.
    TimedOut { latest_block: Option<u64> },
}

pub open spec fn block_note_of(b: Option<u64>) -> Option<Seq<char>> {
    match b {
        Some(n) => Some("Latest block observed: "@ + decimal(n as nat)),
        None => None,
    }
}

pub open spec fn view_opt(o: Option<String>) -> Option<Seq<char>> {
    match o {
        Some(s) => Some(s@),
        None => None,
    }
}

/// The overview, the note and the block note that an outcome leaves.
pub open spec fn outcome_parts(rpc: Seq<char>, outcome: OverviewOutcome) -> (
    Option<AccountOverview>,
    Option<Seq<char>>,
    Option<Seq<char>>,
) {
    match outcome {
        OverviewOutcome::NoEndpoint => (
            None,
            Some("Configure an Anvil RPC endpoint to load account data."@),
            None,
        ),
        OverviewOutcome::InvalidAddress => (
            None,
            Some("Address is not a valid hexadecimal string"@),
            None,
        ),
        OverviewOutcome::Loaded(o) => (Some(o), None, None),
        OverviewOutcome::Failed { error, latest_block } => (
            None,
            Some("Failed to load account data: "@ + error@),
            block_note_of(latest_block),
        ),
        OverviewOutcome::TimedOut { latest_block } => (
            None,
            Some("Account query to "@ + rpc + " timed out"@),
            block_note_of(latest_block),
        ),
    }
}

fn block_note(b: Option<u64>) -> (r: Option<String>)
    ensures
        view_opt(r) == block_note_of(b),
{
    match b {
        Some(n) => Some(join2("Latest block observed: ", u64_text(n).as_str())),
        None => None,
    }
}

/// The overview, the note and the block note that an outcome of the overview
/// fetch against endpoint `rpc` leaves for the address view.
pub fn overview_parts(rpc: &str, outcome: OverviewOutcome) -> (r: (
    Option<AccountOverview>,
    Option<String>,
    Option<String>,
))
    ensures
        (r.0, view_opt(r.1), view_opt(r.2)) == outcome_parts(rpc@, outcome),
{
    match outcome {
        OverviewOutcome::NoEndpoint => (
            None,
            Some("Configure an Anvil RPC endpoint to load account data.".to_owned()),
            None,
        ),
        OverviewOutcome::InvalidAddress => (
            None,
            Some("Address is not a valid hexadecimal string".to_owned()),
            None,
        ),
        OverviewOutcome::Loaded(o) => (Some(o), None, None),
        OverviewOutcome::Failed { error, latest_block } => (
            None,
            Some(join2("Failed to load account data: ", error.as_str())),
            block_note(latest_block),
        ),
        OverviewOutcome::TimedOut { latest_block } => (
            None,
            Some(join3("Account query to ", rpc, " timed out")),
            block_note(latest_block),
        ),
    }
}

/// The rows of a transaction table, one per transaction, seen from `target`.
pub fn rows_for(target: &str, entries: &Vec<AddressTransaction>) -> (r: Vec<AddressTransactionRow>)
    ensures
        r@.len() == entries@.len(),
        forall|i: int| 0 <= i < r@.len() ==> is_row_of(#[trigger] r@[i], target@, entries@[i]),
{
    let mut rows: Vec<AddressTransactionRow> = Vec::new();
    let mut i: usize = 0;
    while i < entries.len()
        invariant
            i <= entries@.len(),
            rows@.len() == i,
            forall|j: int| 0 <= j < i ==> is_row_of(#[trigger] rows@[j], target@, entries@[j]),
        decreases entries@.len() - i,
    {
        rows.push(AddressTransactionRow::from_transaction(target, &entries[i]));
        i = i + 1;
    }
    rows
}

/// The lines shown for a transaction history that has no rows.
pub open spec fn empty_history_lines(source: TransactionListSource) -> Seq<Seq<char>> {
    seq!["No transactions available via "@ + source.label@ + " ("@ + source.api_version@ + ")."@]
}

/// The lines shown for a history with `n` rows.
pub open spec fn history_lines(n: nat, source: TransactionListSource) -> Seq<Seq<char>> {
    seq![
        "Latest "@ + decimal(n) + " transaction(s) via "@ + source.label@ + " ("@
            + source.api_version@ + ") • newest first (max "@ + decimal(
            TRANSACTION_FETCH_LIMIT as nat,
        ) + ")."@,
    ]
}

/// The lines shown when the history could not be loaded.
pub open spec fn history_error_lines(e: TransactionFetchError) -> Seq<Seq<char>> {
    match e {
        TransactionFetchError::MissingApiKey => seq![
            "Add an Etherscan API key to load recent transactions."@,
            "Open Settings → Secrets and enter ETHERSCAN_API_KEY."@,
        ],
        TransactionFetchError::UnsupportedChain(chain) => seq![
            "No Etherscan-compatible explorer configured for chain "@ + chain@ + "."@,
        ],
        _ => seq!["Failed to load transactions: "@ + error_message(e)],
    }
}

/// Fills the transaction part of an address view from the outcome of the
/// history fetch: a table when there are rows, a "no transactions" note when
/// the list is empty, and a note naming the problem otherwise.
pub fn apply_transactions_result(
    hydrated: &mut HydratedAddress,
    result: Result<(Vec<AddressTransaction>, TransactionListSource), TransactionFetchError>,
)
    ensures
        final(hydrated).identifier == old(hydrated).identifier,
        final(hydrated).info == old(hydrated).info,
        final(hydrated).internal == old(hydrated).internal,
        final(hydrated).balances == old(hydrated).balances,
        final(hydrated).permissions == old(hydrated).permissions,
        final(hydrated).overview == old(hydrated).overview,
        match result {
            Ok((entries, source)) => if entries@.len() == 0 {
                &&& final(hydrated).transactions_table is None
                &&& texts(final(hydrated).transactions@) == empty_history_lines(source)
            } else {
                &&& texts(final(hydrated).transactions@) == history_lines(entries@.len(), source)
                &&& final(hydrated).transactions_table matches Some(t)
                &&& t.source_label@ == source.label@
                &&& t.source_api_version@ == source.api_version@
                &&& t.limit == TRANSACTION_FETCH_LIMIT
                &&& t.rows@.len() == entries@.len()
                &&& forall|i: int| 0 <= i < t.rows@.len() ==> is_row_of(
                    #[trigger] t.rows@[i],
                    old(hydrated).identifier@,
                    entries@[i],
                )
            },
            Err(e) => {
                &&& final(hydrated).transactions_table is None
                &&& texts(final(hydrated).transactions@) == history_error_lines(e)
            },
        },
{
    match result {
        Ok((entries, source)) => {
            let rows = rows_for(hydrated.identifier.as_str(), &entries);
            if rows.len() == 0 {
                let a = join3("No transactions available via ", source.label, " (");
                hydrated.transactions = one_line(join3(a.as_str(), source.api_version, ")."));
                hydrated.transactions_table = None;
                assert(texts(hydrated.transactions@) =~= empty_history_lines(source));
            } else {
                let a = join3("Latest ", u64_text(rows.len() as u64).as_str(), " transaction(s) via ");
                let b = join3(a.as_str(), source.label, " (");
                let c = join3(b.as_str(), source.api_version, ") • newest first (max ");
                let d = join3(c.as_str(), u64_text(TRANSACTION_FETCH_LIMIT as u64).as_str(), ").");
                hydrated.transactions = one_line(d);
                assert(texts(hydrated.transactions@) =~= history_lines(entries@.len(), source));
                hydrated.transactions_table = Some(
                    AddressTransactionsTable {
                        source_label: source.label.to_owned(),
                        source_api_version: source.api_version.to_owned(),
                        limit: TRANSACTION_FETCH_LIMIT,
                        rows,
                    },
                );
            }
        },
        Err(TransactionFetchError::MissingApiKey) => {
            let mut lines: Vec<String> = one_line(
                "Add an Etherscan API key to load recent transactions.".to_owned(),
            );
            push_line(&mut lines, "Open Settings → Secrets and enter ETHERSCAN_API_KEY.".to_owned());
            hydrated.transactions = lines;
            hydrated.transactions_table = None;
            assert(texts(hydrated.transactions@) =~= history_error_lines(
                TransactionFetchError::MissingApiKey,
            ));
        },
        Err(TransactionFetchError::UnsupportedChain(chain)) => {
            hydrated.transactions = one_line(
                join3("No Etherscan-compatible explorer configured for chain ", chain.as_str(), "."),
            );
            hydrated.transactions_table = None;
            assert(texts(hydrated.transactions@) =~= history_error_lines(
                TransactionFetchError::UnsupportedChain(chain),
            ));
        },
        Err(err) => {
            let m = err.message();
            hydrated.transactions = one_line(join2("Failed to load transactions: ", m.as_str()));
            hydrated.transactions_table = None;
            assert(texts(hydrated.transactions@) =~= history_error_lines(err));
        },
    }
}

/// Assembles the view of an address from the outcome of its overview fetch
/// (against endpoint `rpc_url`, when one is configured) and of its history fetch.
pub fn assemble_address(
    addr: AddressRef,
    rpc_url: Option<String>,
    outcome: OverviewOutcome,
    transactions: Result<(Vec<AddressTransaction>, TransactionListSource), TransactionFetchError>,
) -> (r: HydratedAddress)
    ensures
        r.identifier == addr.address,
        ({
            let rpc = match rpc_url {
                Some(u) => u@,
                None => Seq::empty(),
            };
            let parts = outcome_parts(rpc, outcome);
            &&& r.overview == parts.0
            &&& texts(r.info@) == info_lines(view_opt(rpc_url), parts.0, parts.1, parts.2)
        }),
        match transactions {
            Ok((entries, source)) => if entries@.len() == 0 {
                &&& r.transactions_table is None
                &&& texts(r.transactions@) == empty_history_lines(source)
            } else {
                &&& texts(r.transactions@) == history_lines(entries@.len(), source)
                &&& r.transactions_table matches Some(t)
                &&& t.source_label@ == source.label@
                &&& t.source_api_version@ == source.api_version@
                &&& t.limit == TRANSACTION_FETCH_LIMIT
                &&& t.rows@.len() == entries@.len()
                &&& forall|i: int| 0 <= i < t.rows@.len() ==> is_row_of(
                    #[trigger] t.rows@[i],
                    addr.address@,
                    entries@[i],
                )
            },
            Err(e) => {
                &&& r.transactions_table is None
                &&& texts(r.transactions@) == history_error_lines(e)
            },
        },
{
    let rpc_text = match &rpc_url {
        Some(u) => u.clone(),
        None => String::new(),
    };
    let (overview, note, block_note) = overview_parts(rpc_text.as_str(), outcome);
    let mut hydrated = build_address_view(addr, overview, note, rpc_url, block_note);
    apply_transactions_result(&mut hydrated, transactions);
    hydrated
}

/// The summary lines of a transaction, seeded from a cached row when there is one.
pub open spec fn summary_lines(hash: Seq<char>, preview: Option<AddressTransactionRow>) -> Seq<Seq<char>> {
    let middle = match preview {
        Some(row) => seq![
            "Status: "@ + status_text(row.status),
            "From: "@ + short_of(row.from@),
            "To: "@ + (match row.to {
                Some(t) => short_of(t@),
                None => "Contract creation"@,
            }),
            "Value: "@ + row.value_display@,
        ] + (match row.block_number {
            Some(b) => seq!["Block: "@ + decimal(b as nat)],
            None => Seq::empty(),
        }),
        None => seq![
            "Status: Not cached"@,
            "From: Not cached"@,
            "To: Not cached"@,
            "Value: Not cached"@,
        ],
    };
    let calldata = match preview {
        Some(row) => match row.calldata {
            Some(c) => c@,
            None => "Calldata unavailable (connect debugger or provider)"@,
        },
        None => "Calldata unavailable (connect debugger or provider)"@,
    };
    seq!["Hash: "@ + short_of(hash)] + middle + seq!["Calldata: "@ + calldata]
}

fn preview_lines(row: &AddressTransactionRow, summary: &mut Vec<String>)
    ensures
        texts(final(summary)@) == texts(old(summary)@) + seq![
            "Status: "@ + status_text(row.status),
            "From: "@ + short_of(row.from@),
            "To: "@ + (match row.to {
                Some(t) => short_of(t@),
                None => "Contract creation"@,
            }),
            "Value: "@ + row.value_display@,
        ] + (match row.block_number {
            Some(b) => seq!["Block: "@ + decimal(b as nat)],
            None => Seq::<Seq<char>>::empty(),
        }),
{
    let ghost start = texts(summary@);
    push_line(summary, join2("Status: ", row.status.label()));
    push_line(summary, join2("From: ", short_hex(row.from.as_str()).as_str()));
    let to = match &row.to {
        Some(addr) => short_hex(addr.as_str()),
        None => "Contract creation".to_owned(),
    };
    push_line(summary, join2("To: ", to.as_str()));
    push_line(summary, join2("Value: ", row.value_display.as_str()));
    let ghost four = texts(summary@);
    if let Some(block) = row.block_number {
        push_line(summary, join2("Block: ", u64_text(block).as_str()));
    }
    assert(texts(summary@) =~= texts(old(summary)@) + seq![
        "Status: "@ + status_text(row.status),
        "From: "@ + short_of(row.from@),
        "To: "@ + (match row.to {
            Some(t) => short_of(t@),
            None => "Contract creation"@,
        }),
        "Value: "@ + row.value_display@,
    ] + (match row.block_number {
        Some(b) => seq!["Block: "@ + decimal(b as nat)],
        None => Seq::<Seq<char>>::empty(),
    }));
}

/// The view of a transaction: its fields come from the cached row when there is
/// one (no further fetch), and read "Not cached" otherwise; the trace and the
/// storage diff always carry a note that they need a debugger.
pub fn hydrate_transaction(tx: &TransactionRef, preview: Option<AddressTransactionRow>) -> (r:
    HydratedTransaction)
    ensures
        r.identifier == tx.hash,
        texts(r.summary@) == summary_lines(tx.hash@, preview),
        texts(r.debug@) == seq!["Trace data unavailable. Configure Alloy debug adapter."@],
        texts(r.storage_diff@) == seq!["Storage diff requires debugger export (`e`)."@],
        match preview {
            Some(row) => {
                &&& r.from == Some(row.from)
                &&& r.to == row.to
                &&& r.value_formatted == Some(row.value_display)
                &&& r.block_number == row.block_number
                &&& r.status == Some(row.status)
                &&& r.calldata == row.calldata
            },
            None => {
                &&& r.from is None
                &&& r.to is None
                &&& r.value_formatted is None
                &&& r.block_number is None
                &&& r.status is None
                &&& r.calldata is None
            },
        },
{
    proof {
        reveal_strlit("Status: Not cached");
        reveal_strlit("From: Not cached");
        reveal_strlit("To: Not cached");
        reveal_strlit("Value: Not cached");
    }
    let mut summary = one_line(join2("Hash: ", short_hex(tx.hash.as_str()).as_str()));
    let calldata = match &preview {
        Some(row) => copy_opt(&row.calldata),
        None => None,
    };
    let calldata_message = match &calldata {
        Some(c) => c.clone(),
        None => "Calldata unavailable (connect debugger or provider)".to_owned(),
    };
    let ghost head = texts(summary@);
    match &preview {
        Some(row) => {
            preview_lines(row, &mut summary);
        },
        None => {
            push_line(&mut summary, "Status: Not cached".to_owned());
            push_line(&mut summary, "From: Not cached".to_owned());
            push_line(&mut summary, "To: Not cached".to_owned());
            push_line(&mut summary, "Value: Not cached".to_owned());
        },
    }
    push_line(&mut summary, join2("Calldata: ", calldata_message.as_str()));
    assert(texts(summary@) =~= summary_lines(tx.hash@, preview));
    let (from, to, value_formatted, block_number, status) = match &preview {
        Some(row) => (
            Some(row.from.clone()),
            copy_opt(&row.to),
            Some(row.value_display.clone()),
            row.block_number,
            Some(row.status),
        ),
        None => (None, None, None, None, None),
    };
    HydratedTransaction {
        identifier: tx.hash.clone(),
        summary,
        debug: one_line("Trace data unavailable. Configure Alloy debug adapter.".to_owned()),
        storage_diff: one_line("Storage diff requires debugger export (`e`).".to_owned()),
        from,
        to,
        value_formatted,
        calldata,
        block_number,
        status,
    }
}

/// Forty hexadecimal digits, optionally after `0x` or `0X`.
pub open spec fn hex_address(s: Seq<char>) -> bool {
    ||| (s.len() == 42 && s[0] == '0' && (s[1] == 'x' || s[1] == 'X') && forall|i: int|
        2 <= i < 42 ==> is_hex_char(#[trigger] s[i]))
    ||| (s.len() == 40 && forall|i: int| 0 <= i < 40 ==> is_hex_char(#[trigger] s[i]))
}

/// Relies on `alloy::primitives::Address`'s `FromStr` (hex decoding of twenty
/// bytes, with an optional `0x` or `0X` prefix).
#[verifier::external_body]
fn address_parses(s: &str) -> (r: bool)
    ensures
        r == hex_address(s@),
{
    s.parse::<alloy::primitives::Address>().is_ok()
}

/// What the account-overview step does for an address.
#[derive(Debug, PartialEq, Eq)]
pub enum OverviewPlan {
    NoEndpoint,
    InvalidAddress { endpoint: String },
    Fetch { endpoint: String },
}

/// The node endpoint: the configured one, else the environment's when it is
/// not blank.
pub open spec fn chosen_endpoint(configured: Option<String>, env_value: Option<String>) -> Option<String> {
    match configured {
        Some(c) => Some(c),
        None => match env_value {
            Some(e) => if crate::text::trimmed_text(e@).len() == 0 { None } else { Some(e) },
            None => None,
        },
    }
}

/// Decides the account-overview step: without an endpoint there is nothing
/// to ask; an address that is not forty hexadecimal digits is not asked for.
pub fn plan_overview(configured: Option<String>, env_value: Option<String>, address: &str) -> (r:
    OverviewPlan)
    ensures
        match chosen_endpoint(configured, env_value) {
            None => r == OverviewPlan::NoEndpoint,
            Some(e) => if hex_address(address@) {
                r == OverviewPlan::Fetch { endpoint: e }
            } else {
                r == OverviewPlan::InvalidAddress { endpoint: e }
            },
        },
{
    let endpoint = match configured {
        Some(c) => Some(c),
        None => match env_value {
            Some(e) => {
                if crate::text::trim_text(e.as_str()).as_str().is_empty() {
                    None
                } else {
                    Some(e)
                }
            },
            None => None,
        },
    };
    match endpoint {
        None => OverviewPlan::NoEndpoint,
        Some(e) => if address_parses(address) {
            OverviewPlan::Fetch { endpoint: e }
        } else {
            OverviewPlan::InvalidAddress { endpoint: e }
        },
    }
}

} // verus!
