//! The transaction-history source: which chains it serves, what a request
//! needs, and how its response becomes a list of transactions or an error.
use vstd::prelude::*;
use crate::model::{AddressRef, AddressTransaction};
use crate::text::{
    ascii_lowercase, eq_ignore_case, join2, join3, lower_text, parse_u64, parsed_u64,
    same_ignoring_case, text_is, trim_text, trimmed_text,
};
use crate::wei::{parse_wei, parsed_wei, Wei};

verus! {

/// Which explorer served a transaction list.
#[derive(Debug, Clone, Copy, PartialEq, Eq)]
pub struct TransactionListSource {
    pub label: &'static str,
    pub api_version: &'static str,
}

/// Why the transaction history could not be loaded.
#[derive(Debug, PartialEq, Eq)]
pub enum TransactionFetchError {
    MissingApiKey,
    UnsupportedChain(String),
    Http(String),
    Parse(String),
    Api(String),
}

/// The message shown to the user for an error.
pub open spec fn error_message(e: TransactionFetchError) -> Seq<char> {
    match e {
        TransactionFetchError::MissingApiKey => "no Etherscan API key configured"@,
        TransactionFetchError::UnsupportedChain(c) => "no Etherscan-compatible chain mapping for \""@
            + c@ + "\""@,
        TransactionFetchError::Http(m) => "network error: "@ + m@,
        TransactionFetchError::Parse(m) => "response parse error: "@ + m@,
        TransactionFetchError::Api(m) => m@,
    }
}

impl TransactionFetchError {
    /// The message shown to the user.
    pub fn message(&self) -> (r: String)
        ensures
            r@ == error_message(*self),
    {
        match self {
            TransactionFetchError::MissingApiKey => "no Etherscan API key configured".to_owned(),
            TransactionFetchError::UnsupportedChain(c) => join3(
                "no Etherscan-compatible chain mapping for \"",
                c.as_str(),
                "\"",
            ),
            TransactionFetchError::Http(e) => join2("network error: ", e.as_str()),
            TransactionFetchError::Parse(e) => join2("response parse error: ", e.as_str()),
            TransactionFetchError::Api(m) => m.clone(),
        }
    }
}

/// An explorer for one chain.
#[derive(Debug, Clone, Copy, PartialEq, Eq)]
pub struct ChainConfig {
    pub chain_id: u64,
    pub label: &'static str,
}

/// The chain id that a chain name (already trimmed and in lower case) maps to.
pub open spec fn chain_id_for(name: Seq<char>) -> Option<u64> {
    if name == "mainnet"@ || name == "ethereum"@ || name == "ethereum mainnet"@ {
        Some(1u64)
    } else if name == "arbitrum"@ || name == "arbitrum one"@ {
        Some(42161u64)
    } else if name == "base"@ || name == "base mainnet"@ {
        Some(8453u64)
    } else if name == "sepolia"@ || name == "ethereum sepolia"@ {
        Some(11155111u64)
    } else {
        None
    }
}

/// The explorer's label for a chain name (already trimmed and in lower case).
pub open spec fn chain_label_for(name: Seq<char>) -> Seq<char> {
    if name == "mainnet"@ || name == "ethereum"@ || name == "ethereum mainnet"@ {
        "Etherscan"@
    } else if name == "arbitrum"@ || name == "arbitrum one"@ {
        "Arbiscan"@
    } else if name == "base"@ || name == "base mainnet"@ {
        "Basescan"@
    } else {
        "Etherscan (Sepolia)"@
    }
}

pub open spec fn chain_key(chain: Seq<char>) -> Seq<char> {
    lower_text(trimmed_text(chain))
}

/// The explorer for a chain name, compared without surrounding white space and
/// without case.
pub fn resolve_chain(chain: &str) -> (r: Option<ChainConfig>)
    ensures
        r is Some == (chain_id_for(chain_key(chain@)) is Some),
        r is Some ==> Some(r->0.chain_id) == chain_id_for(chain_key(chain@)),
        r is Some ==> r->0.label@ == chain_label_for(chain_key(chain@)),
{
    let trimmed = trim_text(chain);
    let normalized = ascii_lowercase(trimmed.as_str());
    let n = normalized.as_str();
    if text_is(n, "mainnet") || text_is(n, "ethereum") || text_is(n, "ethereum mainnet") {
        Some(ChainConfig { chain_id: 1, label: "Etherscan" })
    } else if text_is(n, "arbitrum") || text_is(n, "arbitrum one") {
        Some(ChainConfig { chain_id: 42161, label: "Arbiscan" })
    } else if text_is(n, "base") || text_is(n, "base mainnet") {
        Some(ChainConfig { chain_id: 8453, label: "Basescan" })
    } else if text_is(n, "sepolia") || text_is(n, "ethereum sepolia") {
        Some(ChainConfig { chain_id: 11155111, label: "Etherscan (Sepolia)" })
    } else {
        None
    }
}

/// What a request for an address's transaction list carries.
#[derive(Debug, PartialEq, Eq)]
pub struct TransactionQuery {
    pub chain: ChainConfig,
    pub address: String,
    pub offset: usize,
    pub api_key: String,
}

/// Checks the credential and the chain before any request is made.
pub fn prepare_transaction_query(address: &AddressRef, api_key: Option<&str>, limit: usize) -> (r:
    Result<TransactionQuery, TransactionFetchError>)
    ensures
        (match api_key {
            None => true,
            Some(k) => trimmed_text(k@).len() == 0,
        }) ==> r == Err::<TransactionQuery, TransactionFetchError>(
            TransactionFetchError::MissingApiKey,
        ),
        (api_key matches Some(k) && trimmed_text(k@).len() != 0) ==> (match r {
            Err(e) => chain_id_for(chain_key(address.chain@)) is None
                && e == TransactionFetchError::UnsupportedChain(address.chain),
            Ok(q) => Some(q.chain.chain_id) == chain_id_for(chain_key(address.chain@))
                && q.chain.label@ == chain_label_for(chain_key(address.chain@))
                && q.address == address.address && q.api_key@ == api_key->0@
                && q.offset == if limit == 0 { 1 } else { limit },
        }),
{
    let key = match api_key {
        None => {
            return Err(TransactionFetchError::MissingApiKey);
        },
        Some(k) => k,
    };
    let trimmed = trim_text(key);
    if trimmed.as_str().is_empty() {
        return Err(TransactionFetchError::MissingApiKey);
    }
    let chain = match resolve_chain(address.chain.as_str()) {
        Some(c) => c,
        None => {
            return Err(TransactionFetchError::UnsupportedChain(address.chain.clone()));
        },
    };
    Ok(TransactionQuery {
        chain,
        address: address.address.clone(),
        offset: if limit == 0 { 1 } else { limit },
        api_key: key.to_owned(),
    })
}

/// One entry of the explorer's list, with every field as text.
#[derive(Debug, PartialEq, Eq)]
pub struct RawTransaction {
    pub block_number: String,
    pub hash: String,
    pub from: String,
    pub to: String,
    pub value: String,
    pub is_error: Option<String>,
    pub txreceipt_status: Option<String>,
    pub input: Option<String>,
}

/// The body of the explorer's answer: its status and message, the result when
/// it is a text, whether it is a list, and the result read as a list of entries
/// (or why it could not be).
#[derive(Debug)]
pub struct ApiPayload {
    pub status: String,
    pub message: String,
    pub result_text: Option<String>,
    pub result_is_list: bool,
    pub entries: Result<Vec<RawTransaction>, String>,
}

pub open spec fn opt_is(o: Option<String>, lit: Seq<char>) -> bool {
    o matches Some(s) && s@ == lit
}

/// The transaction an entry describes.
pub open spec fn is_transaction_of(t: AddressTransaction, raw: RawTransaction) -> bool {
    &&& t.hash == raw.hash
    &&& t.from == raw.from
    &&& t.block_number == (match parsed_u64(raw.block_number@) {
        Some(n) => n,
        None => 0,
    })
    &&& t.to == (if trimmed_text(raw.to@).len() == 0 { None } else { Some(raw.to) })
    &&& t.value_wei@ == (match parsed_wei(raw.value@) {
        Some(v) => v,
        None => 0,
    })
    &&& t.is_error == (opt_is(raw.is_error, "1"@) || opt_is(raw.txreceipt_status, "0"@))
    &&& t.input == raw.input
}

fn opt_text_is(o: &Option<String>, lit: &str) -> (r: bool)
    ensures
        r == opt_is(*o, lit@),
{
    match o {
        Some(s) => text_is(s.as_str(), lit),
        None => false,
    }
}

/// Reads one entry: unreadable block numbers and values count as zero, an empty
/// recipient means a contract creation.
pub fn transaction_from_raw(raw: RawTransaction) -> (r: AddressTransaction)
    ensures
        is_transaction_of(r, raw),
{
    let block_number = match parse_u64(raw.block_number.as_str()) {
        Some(n) => n,
        None => 0,
    };
    let to_trimmed = trim_text(raw.to.as_str());
    let is_error = opt_text_is(&raw.is_error, "1") || opt_text_is(&raw.txreceipt_status, "0");
    let value_wei = match parse_wei(raw.value.as_str()) {
        Some(v) => v,
        None => Wei::zero(),
    };
    let to = if to_trimmed.as_str().is_empty() { None } else { Some(raw.to) };
    AddressTransaction {
        hash: raw.hash,
        block_number,
        from: raw.from,
        to,
        value_wei,
        is_error,
        input: raw.input,
    }
}

/// The entries of a list, read one by one.
pub fn transactions_from_raw(entries: Vec<RawTransaction>) -> (r: Vec<AddressTransaction>)
    ensures
        r@.len() == entries@.len(),
        forall|i: int| 0 <= i < r@.len() ==> is_transaction_of(#[trigger] r@[i], entries@[i]),
{
    let mut out: Vec<AddressTransaction> = Vec::new();
    let mut rest = entries;
    let ghost orig = entries@;
    let ghost n = entries@.len();
    while rest.len() > 0
        invariant
            out@.len() + rest@.len() == n,
            n == orig.len(),
            rest@ == orig.subrange(out@.len() as int, n as int),
            forall|i: int| 0 <= i < out@.len() ==> is_transaction_of(#[trigger] out@[i], orig[i]),
        decreases rest@.len(),
    {
        let raw = rest.remove(0);
        let t = transaction_from_raw(raw);
        out.push(t);
        assert(rest@ =~= orig.subrange(out@.len() as int, n as int));
    }
    out
}

/// The transactions, or the error, that an answer of the explorer stands for.
pub open spec fn payload_outcome_ok(p: ApiPayload) -> Option<bool> {
    if p.status@ == "1"@ {
        Some(true)
    } else if p.status@ == "0"@ {
        if same_ignoring_case(p.message@, "No transactions found"@) {
            Some(false)
        } else if p.result_text is Some {
            None
        } else if p.result_is_list {
            Some(true)
        } else {
            None
        }
    } else {
        None
    }
}

/// Turns the explorer's answer into the transactions it lists, or the error it
/// reports. A status of `1` carries a list; a status of `0` carries either
/// "No transactions found", a reason as text, or a list; any other status is
/// an error, with the reason when there is one.
pub fn read_payload(payload: ApiPayload) -> (r: Result<Vec<AddressTransaction>, TransactionFetchError>)
    ensures
        payload_outcome_ok(payload) == Some(false) ==> (r matches Ok(v) && v@.len() == 0),
        payload_outcome_ok(payload) == Some(true) ==> (match payload.entries {
            Ok(es) => (r matches Ok(v) && v@.len() == es@.len() && forall|i: int|
                0 <= i < v@.len() ==> is_transaction_of(#[trigger] v@[i], es@[i])),
            Err(e) => r == Err::<Vec<AddressTransaction>, TransactionFetchError>(
                TransactionFetchError::Parse(e),
            ),
        }),
        payload_outcome_ok(payload) is None ==> r == Err::<Vec<AddressTransaction>, TransactionFetchError>(
            TransactionFetchError::Api(
                match payload.result_text {
                    Some(t) => t,
                    None => payload.message,
                },
            ),
        ),
{
    let is_one = text_is(payload.status.as_str(), "1");
    let is_zero = text_is(payload.status.as_str(), "0");
    let entries = if is_one {
        payload.entries
    } else if is_zero {
        if eq_ignore_case(payload.message.as_str(), "No transactions found") {
            Ok(Vec::new())
        } else {
            match payload.result_text {
                Some(reason) => {
                    return Err(TransactionFetchError::Api(reason));
                },
                None => {
                    if payload.result_is_list {
                        payload.entries
                    } else {
                        return Err(TransactionFetchError::Api(payload.message));
                    }
                },
            }
        }
    } else {
        match payload.result_text {
            Some(reason) => {
                return Err(TransactionFetchError::Api(reason));
            },
            None => {
                return Err(TransactionFetchError::Api(payload.message));
            },
        }
    };
    match entries {
        Ok(list) => Ok(transactions_from_raw(list)),
        Err(e) => Err(TransactionFetchError::Parse(e)),
    }
}

} // verus!
