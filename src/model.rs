//! The selected entity, the rows of an address's transaction table and the
//! hydrated data of an address or a transaction.
use vstd::prelude::*;
use crate::text::{copy_opt, eq_ignore_case, same_ignoring_case, short_form, short_hex, trimmed_text, join2};
use crate::wei::{eth_display, format_eth_value, Wei};

verus! {

/// The shortened display form of an identifier.
pub open spec fn short_of(s: Seq<char>) -> Seq<char> {
    short_form(trimmed_text(s))
}

/// The texts held by a list of strings.
pub open spec fn texts(v: Seq<String>) -> Seq<Seq<char>> {
    v.map_values(|s: String| s@)
}

/// Appends a line to a list of strings.
pub fn push_line(v: &mut Vec<String>, s: String)
    ensures
        texts(final(v)@) == texts(old(v)@).push(s@),
{
    v.push(s);
    assert(texts(v@) =~= texts(old(v)@).push(s@));
}

/// A list of one line.
pub fn one_line(s: String) -> (r: Vec<String>)
    ensures
        texts(r@) == seq![s@],
{
    let mut v: Vec<String> = Vec::new();
    assert(texts(v@) =~= Seq::<Seq<char>>::empty());
    push_line(&mut v, s);
    assert(texts(v@) =~= seq![s@]);
    v
}

#[derive(Debug, PartialEq, Eq)]
pub struct AddressRef {
    pub label: String,
    pub address: String,
    pub chain: String,
}

impl Clone for AddressRef {
    fn clone(&self) -> (r: Self)
        ensures
            r == *self,
    {
        AddressRef { label: self.label.clone(), address: self.address.clone(), chain: self.chain.clone() }
    }
}

#[derive(Debug, PartialEq, Eq)]
pub struct TransactionRef {
    pub label: String,
    pub hash: String,
    pub chain: String,
}

impl Clone for TransactionRef {
    fn clone(&self) -> (r: Self)
        ensures
            r == *self,
    {
        TransactionRef { label: self.label.clone(), hash: self.hash.clone(), chain: self.chain.clone() }
    }
}

/// What is currently shown: an address or a transaction.
#[derive(Debug, PartialEq, Eq)]
pub enum SelectedEntity {
    Address(AddressRef),
    Transaction(TransactionRef),
}

impl Clone for SelectedEntity {
    fn clone(&self) -> (r: Self)
        ensures
            r == *self,
    {
        match self {
            SelectedEntity::Address(a) => SelectedEntity::Address(a.clone()),
            SelectedEntity::Transaction(t) => SelectedEntity::Transaction(t.clone()),
        }
    }
}

impl SelectedEntity {
    /// The identifier that results are matched against: the address or the hash.
    pub open spec fn identifier(&self) -> Seq<char> {
        match self {
            SelectedEntity::Address(a) => a.address@,
            SelectedEntity::Transaction(t) => t.hash@,
        }
    }
}

#[derive(Debug, Clone, Copy, PartialEq, Eq, Structural)]
pub enum TransactionStatus {
    Success,
    Failed,
}

#[derive(Debug, Clone, Copy, PartialEq, Eq, Structural)]
pub enum TransactionDirection {
    Incoming,
    Outgoing,
    SelfTransfer,
    Interaction,
}

pub open spec fn status_text(s: TransactionStatus) -> Seq<char> {
    match s {
        TransactionStatus::Success => "OK"@,
        TransactionStatus::Failed => "Failed"@,
    }
}

impl TransactionStatus {
    pub fn label(self) -> (r: &'static str)
        ensures
            r@ == status_text(self),
    {
        match self {
            TransactionStatus::Success => "OK",
            TransactionStatus::Failed => "Failed",
        }
    }
}

impl TransactionDirection {
    pub fn label(self) -> (r: &'static str)
        ensures
            r@ == (match self {
                TransactionDirection::Incoming => "Incoming"@,
                TransactionDirection::Outgoing => "Outgoing"@,
                TransactionDirection::SelfTransfer => "Self"@,
                TransactionDirection::Interaction => "Interaction"@,
            }),
    {
        match self {
            TransactionDirection::Incoming => "Incoming",
            TransactionDirection::Outgoing => "Outgoing",
            TransactionDirection::SelfTransfer => "Self",
            TransactionDirection::Interaction => "Interaction",
        }
    }
}

/// One transaction as the history source reports it.
#[derive(Debug, PartialEq, Eq)]
pub struct AddressTransaction {
    pub hash: String,
    pub block_number: u64,
    pub from: String,
    pub to: Option<String>,
    pub value_wei: Wei,
    pub is_error: bool,
    pub input: Option<String>,
}

impl Clone for AddressTransaction {
    fn clone(&self) -> (r: Self)
        ensures
            r == *self,
    {
        AddressTransaction {
            hash: self.hash.clone(),
            block_number: self.block_number,
            from: self.from.clone(),
            to: copy_opt(&self.to),
            value_wei: self.value_wei,
            is_error: self.is_error,
            input: copy_opt(&self.input),
        }
    }
}

/// One transaction seen from a target address.
#[derive(Debug, PartialEq, Eq)]
pub struct AddressTransactionRow {
    pub hash: String,
    pub from: String,
    pub to: Option<String>,
    pub value_wei: Wei,
    pub block_number: Option<u64>,
    pub direction: TransactionDirection,
    pub counterparty: String,
    pub value_display: String,
    pub status: TransactionStatus,
    pub calldata: Option<String>,
}

impl Clone for AddressTransactionRow {
    fn clone(&self) -> (r: Self)
        ensures
            r == *self,
    {
        AddressTransactionRow {
            hash: self.hash.clone(),
            from: self.from.clone(),
            to: copy_opt(&self.to),
            value_wei: self.value_wei,
            block_number: self.block_number,
            direction: self.direction,
            counterparty: self.counterparty.clone(),
            value_display: self.value_display.clone(),
            status: self.status,
            calldata: copy_opt(&self.calldata),
        }
    }
}

pub open spec fn is_sender(target: Seq<char>, tx: AddressTransaction) -> bool {
    same_ignoring_case(tx.from@, target)
}

pub open spec fn is_recipient(target: Seq<char>, tx: AddressTransaction) -> bool {
    tx.to matches Some(to) && same_ignoring_case(to@, target)
}

/// Outgoing when the target sent, Incoming when it received, SelfTransfer when
/// both, Interaction when neither.
pub open spec fn spec_direction(sender: bool, recipient: bool) -> TransactionDirection {
    if sender && recipient {
        TransactionDirection::SelfTransfer
    } else if sender {
        TransactionDirection::Outgoing
    } else if recipient {
        TransactionDirection::Incoming
    } else {
        TransactionDirection::Interaction
    }
}

/// The other side of a transaction, in shortened form; "Contract creation"
/// whenever there is no recipient.
pub open spec fn spec_counterparty(target: Seq<char>, tx: AddressTransaction) -> Seq<char> {
    let s = is_sender(target, tx);
    let r = is_recipient(target, tx);
    if s && r {
        "Self"@
    } else if s {
        match tx.to {
            Some(to) => short_of(to@),
            None => "Contract creation"@,
        }
    } else if r {
        short_of(tx.from@)
    } else {
        match tx.to {
            Some(to) => short_of(to@),
            None => "Contract creation"@,
        }
    }
}

/// The value shown for a row: signed only for plain incoming or outgoing
/// transfers of a non-zero amount.
pub open spec fn spec_value_display(value: nat, direction: TransactionDirection) -> Seq<char> {
    if value != 0 && direction == TransactionDirection::Outgoing {
        seq!['-'] + eth_display(value)
    } else if value != 0 && direction == TransactionDirection::Incoming {
        seq!['+'] + eth_display(value)
    } else {
        eth_display(value)
    }
}

/// The row built from a transaction for a target address.
pub open spec fn is_row_of(row: AddressTransactionRow, target: Seq<char>, tx: AddressTransaction) -> bool {
    &&& row.hash == tx.hash
    &&& row.from == tx.from
    &&& row.to == tx.to
    &&& row.value_wei == tx.value_wei
    &&& row.block_number == (if tx.block_number > 0 { Some(tx.block_number) } else { None })
    &&& row.direction == spec_direction(is_sender(target, tx), is_recipient(target, tx))
    &&& row.counterparty@ == spec_counterparty(target, tx)
    &&& row.value_display@ == spec_value_display(tx.value_wei@, row.direction)
    &&& row.status == (if tx.is_error { TransactionStatus::Failed } else { TransactionStatus::Success })
    &&& row.calldata == tx.input
}

impl AddressTransactionRow {
    pub fn from_transaction(target_address: &str, tx: &AddressTransaction) -> (r: Self)
        ensures
            is_row_of(r, target_address@, *tx),
    {
        let is_sender = eq_ignore_case(tx.from.as_str(), target_address);
        let is_recipient = match &tx.to {
            Some(addr) => eq_ignore_case(addr.as_str(), target_address),
            None => false,
        };
        let direction = if is_sender && is_recipient {
            TransactionDirection::SelfTransfer
        } else if is_sender {
            TransactionDirection::Outgoing
        } else if is_recipient {
            TransactionDirection::Incoming
        } else {
            TransactionDirection::Interaction
        };
        let counterparty = if is_sender && is_recipient {
            "Self".to_owned()
        } else if is_sender {
            match &tx.to {
                Some(addr) => short_hex(addr.as_str()),
                None => "Contract creation".to_owned(),
            }
        } else if is_recipient {
            short_hex(tx.from.as_str())
        } else {
            match &tx.to {
                Some(addr) => short_hex(addr.as_str()),
                None => "Contract creation".to_owned(),
            }
        };
        let mut value = format_eth_value(&tx.value_wei);
        proof {
            reveal_strlit("-");
            reveal_strlit("+");
        }
        if !tx.value_wei.is_zero() {
            match direction {
                TransactionDirection::Outgoing => {
                    value = join2("-", value.as_str());
                    assert(value@ =~= seq!['-'] + eth_display(tx.value_wei@));
                },
                TransactionDirection::Incoming => {
                    value = join2("+", value.as_str());
                    assert(value@ =~= seq!['+'] + eth_display(tx.value_wei@));
                },
                _ => {},
            }
        }
        AddressTransactionRow {
            hash: tx.hash.clone(),
            from: tx.from.clone(),
            to: copy_opt(&tx.to),
            value_wei: tx.value_wei,
            block_number: if tx.block_number > 0 { Some(tx.block_number) } else { None },
            direction,
            counterparty,
            value_display: value,
            status: if tx.is_error { TransactionStatus::Failed } else { TransactionStatus::Success },
            calldata: copy_opt(&tx.input),
        }
    }
}

} // verus!
