//! The top bar: the search prompt, the decoding of a query into an address or
//! a transaction, and the status line.
use vstd::prelude::*;
use crate::actions::{Action, Effect, Message};
use crate::model::{short_of, AddressRef, SelectedEntity, TransactionRef};
use crate::navigation::FocusedPane;
use crate::text::{join2, join3, push_char, short_hex, trim_text, trimmed_text};

verus! {

#[derive(Debug)]
pub struct TopBar {
    pub title: String,
    pub search_active: bool,
    pub search_value: String,
    pub pending_search: bool,
    pub status: Option<String>,
}

#[derive(Debug)]
pub enum TopCommand {
    ActivateSearch,
    InputChar(char),
    Backspace,
    Submit,
    Cancel,
    SearchCompleted { query: String, entity: SelectedEntity },
    SearchFailed { query: String, error: String },
    ShowStatus(String),
}

pub open spec fn is_hex_char(c: char) -> bool {
    ('0' <= c && c <= '9') || ('a' <= c && c <= 'f') || ('A' <= c && c <= 'F')
}

pub open spec fn all_hex(s: Seq<char>) -> bool {
    forall|i: int| 0 <= i < s.len() ==> is_hex_char(#[trigger] s[i])
}

/// The query without surrounding white space and without a leading `0x`.
pub open spec fn query_body(q: Seq<char>) -> Seq<char> {
    let t = trimmed_text(q);
    if t.len() >= 2 && t[0] == '0' && t[1] == 'x' {
        t.subrange(2, t.len() as int)
    } else {
        t
    }
}

pub open spec fn hex_prefix() -> Seq<char> {
    seq!['0', 'x']
}

/// What a query decodes to: forty hexadecimal digits make an address, sixty-four
/// a transaction hash, both written with a `0x` prefix and placed on mainnet.
pub open spec fn decodes_to(q: Seq<char>, r: Result<SelectedEntity, String>) -> bool {
    let body = query_body(q);
    let id = hex_prefix() + body;
    if body.len() == 0 {
        r matches Err(e) && e@ == "Empty query"@
    } else if body.len() == 40 && all_hex(body) {
        r matches Ok(SelectedEntity::Address(a)) && a.address@ == id && a.label@ == "Address "@
            + short_of(id) && a.chain@ == "Mainnet"@
    } else if body.len() == 64 && all_hex(body) {
        r matches Ok(SelectedEntity::Transaction(t)) && t.hash@ == id && t.label@ == "Txn "@
            + short_of(id) && t.chain@ == "Mainnet"@
    } else {
        r matches Err(e) && e@ == "Input could not be decoded as a valid address or transaction"@
    }
}

fn is_hex_text(s: &str) -> (r: bool)
    ensures
        r == all_hex(s@),
{
    let n = s.unicode_len();
    let mut i: usize = 0;
    while i < n
        invariant
            n == s@.len(),
            i <= n,
            forall|j: int| 0 <= j < i ==> is_hex_char(#[trigger] s@[j]),
        decreases n - i,
    {
        let c = s.get_char(i);
        if !(('0' <= c && c <= '9') || ('a' <= c && c <= 'f') || ('A' <= c && c <= 'F')) {
            return false;
        }
        i = i + 1;
    }
    true
}

impl Default for TopBar {
    fn default() -> (r: Self)
        ensures
            r.title@ == "evm-tui"@,
            !r.search_active,
            r.search_value@.len() == 0,
            !r.pending_search,
            r.status is None,
    {
        TopBar {
            title: "evm-tui".to_owned(),
            search_active: false,
            search_value: String::new(),
            pending_search: false,
            status: None,
        }
    }
}

/// The status shown after a search found an entity.
pub open spec fn loaded_status(entity: SelectedEntity) -> Seq<char> {
    match entity {
        SelectedEntity::Address(a) => "Loaded address "@ + short_of(a.address@),
        SelectedEntity::Transaction(t) => "Loaded transaction "@ + short_of(t.hash@),
    }
}

impl TopBar {
    /// The settings key under which the last successful query is kept.
    pub const LAST_QUERY_KEY: &'static str = "top:last_query";

    pub fn is_search_active(&self) -> (r: bool)
        ensures
            r == self.search_active,
    {
        self.search_active
    }

    /// Puts back the last query that was kept, when there is a non-empty one.
    pub fn restore_query(&mut self, value: Option<String>)
        ensures
            final(self).search_value == (match value {
                Some(v) => if v@.len() > 0 { v } else { old(self).search_value },
                None => old(self).search_value,
            }),
            final(self).search_active == old(self).search_active,
            final(self).pending_search == old(self).pending_search,
            final(self).status == old(self).status,
    {
        if let Some(v) = value {
            if !v.as_str().is_empty() {
                self.search_value = v;
            }
        }
    }

    pub fn decode_query(query: &str) -> (r: Result<SelectedEntity, String>)
        ensures
            decodes_to(query@, r),
    {
        proof {
            reveal_strlit("0x");
        }
        let trimmed = trim_text(query);
        let t = trimmed.as_str();
        let n = t.unicode_len();
        let body = if n >= 2 && t.get_char(0) == '0' && t.get_char(1) == 'x' {
            t.substring_char(2, n)
        } else {
            t.substring_char(0, n)
        };
        assert(t@.subrange(0, n as int) =~= t@);
        assert(body@ == query_body(query@));
        let len = body.unicode_len();
        if len == 0 {
            return Err("Empty query".to_owned());
        }
        if len == 40 && is_hex_text(body) {
            let address = join2("0x", body);
            assert(address@ =~= hex_prefix() + body@);
            let label = join2("Address ", short_hex(address.as_str()).as_str());
            return Ok(
                SelectedEntity::Address(AddressRef { label, address, chain: "Mainnet".to_owned() }),
            );
        }
        if len == 64 && is_hex_text(body) {
            let hash = join2("0x", body);
            assert(hash@ =~= hex_prefix() + body@);
            let label = join2("Txn ", short_hex(hash.as_str()).as_str());
            return Ok(
                SelectedEntity::Transaction(TransactionRef { label, hash, chain: "Mainnet".to_owned() }),
            );
        }
        Err("Input could not be decoded as a valid address or transaction".to_owned())
    }

    /// The message a finished search sends back: the decoded entity, or why
    /// the query could not be decoded.
    pub fn search_message(query: String) -> (r: Message)
        ensures
            match r {
                Message::SearchCompleted { query: q, entity } => q == query && decodes_to(
                    query@,
                    Ok(entity),
                ),
                Message::SearchFailed { query: q, error } => q == query && decodes_to(query@, Err(error)),
                _ => false,
            },
    {
        match TopBar::decode_query(query.as_str()) {
            Ok(entity) => Message::SearchCompleted { query, entity },
            Err(error) => Message::SearchFailed { query, error },
        }
    }

    /// Applies a command. A submitted query asks for a search (through
    /// `effects`) and reports the top pane as loading; a completed search asks
    /// for the query to be kept.
    pub fn update(&mut self, command: TopCommand, effects: &mut Vec<Effect>) -> (r: Option<Action>)
        ensures
            final(self).title == old(self).title,
            match command {
                TopCommand::ActivateSearch => {
                    &&& final(self).search_active
                    &&& !final(self).pending_search
                    &&& final(self).search_value == old(self).search_value
                    &&& final(self).status matches Some(s) && s@ == "Type an address or transaction hash"@
                    &&& r is None && final(effects)@ == old(effects)@
                },
                TopCommand::InputChar(c) => {
                    &&& final(self).search_active
                    &&& final(self).pending_search == old(self).pending_search
                    &&& final(self).search_value@ == old(self).search_value@.push(c)
                    &&& final(self).status == old(self).status
                    &&& r is None && final(effects)@ == old(effects)@
                },
                TopCommand::Backspace => {
                    &&& final(self).search_active == old(self).search_active
                    &&& final(self).pending_search == old(self).pending_search
                    &&& final(self).search_value@ == (if old(self).search_value@.len() > 0 {
                        old(self).search_value@.drop_last()
                    } else {
                        old(self).search_value@
                    })
                    &&& final(self).status == old(self).status
                    &&& r is None && final(effects)@ == old(effects)@
                },
                TopCommand::Submit => {
                    let q = trimmed_text(old(self).search_value@);
                    &&& final(self).search_active == old(self).search_active
                    &&& final(self).search_value == old(self).search_value
                    &&& if q.len() == 0 {
                        &&& final(self).pending_search == old(self).pending_search
                        &&& final(self).status matches Some(s) && s@ == "Enter a value to search"@
                        &&& r is None && final(effects)@ == old(effects)@
                    } else {
                        &&& final(self).pending_search
                        &&& final(self).status matches Some(s) && s@ == "Searching for "@ + q + "…"@
                        &&& r == Some(Action::LoadingStarted(FocusedPane::Top))
                        &&& final(effects)@.len() == old(effects)@.len() + 1
                        &&& final(effects)@.subrange(0, old(effects)@.len() as int) == old(effects)@
                        &&& final(effects)@.last() matches Effect::Search { query } && query@ == q
                    }
                },
                TopCommand::Cancel => {
                    &&& !final(self).search_active
                    &&& !final(self).pending_search
                    &&& final(self).search_value == old(self).search_value
                    &&& final(self).status matches Some(s) && s@ == "Search cancelled"@
                    &&& r is None && final(effects)@ == old(effects)@
                },
                TopCommand::SearchCompleted { query, entity } => {
                    &&& !final(self).search_active
                    &&& !final(self).pending_search
                    &&& final(self).search_value == query
                    &&& final(self).status matches Some(s) && s@ == loaded_status(entity)
                    &&& r is None
                    &&& final(effects)@ == old(effects)@.push(Effect::SaveLastQuery { query })
                },
                TopCommand::SearchFailed { query, error } => {
                    &&& final(self).search_active == old(self).search_active
                    &&& !final(self).pending_search
                    &&& final(self).search_value == old(self).search_value
                    &&& final(self).status matches Some(s) && s@ == "Failed to load "@ + short_of(query@)
                        + ": "@ + error@
                    &&& r is None && final(effects)@ == old(effects)@
                },
                TopCommand::ShowStatus(m) => {
                    &&& !final(self).search_active
                    &&& !final(self).pending_search
                    &&& final(self).search_value == old(self).search_value
                    &&& final(self).status == Some(m)
                    &&& r is None && final(effects)@ == old(effects)@
                },
            },
    {
        match command {
            TopCommand::ActivateSearch => {
                self.search_active = true;
                self.pending_search = false;
                self.status = Some("Type an address or transaction hash".to_owned());
            },
            TopCommand::InputChar(c) => {
                if !self.search_active {
                    self.search_active = true;
                }
                push_char(&mut self.search_value, c);
            },
            TopCommand::Backspace => {
                let n = self.search_value.as_str().unicode_len();
                if n > 0 {
                    let kept = self.search_value.as_str().substring_char(0, n - 1).to_owned();
                    self.search_value = kept;
                }
            },
            TopCommand::Submit => {
                let query = trim_text(self.search_value.as_str());
                if query.as_str().is_empty() {
                    self.status = Some("Enter a value to search".to_owned());
                    return None;
                }
                self.pending_search = true;
                self.status = Some(join3("Searching for ", query.as_str(), "…"));
                let ghost before = effects@;
                effects.push(Effect::Search { query });
                assert(effects@.subrange(0, before.len() as int) =~= before);
                return Some(Action::LoadingStarted(FocusedPane::Top));
            },
            TopCommand::Cancel => {
                self.search_active = false;
                self.pending_search = false;
                self.status = Some("Search cancelled".to_owned());
            },
            TopCommand::SearchCompleted { query, entity } => {
                self.pending_search = false;
                self.status = Some(
                    match &entity {
                        SelectedEntity::Address(addr) => join2(
                            "Loaded address ",
                            short_hex(addr.address.as_str()).as_str(),
                        ),
                        SelectedEntity::Transaction(tx) => join2(
                            "Loaded transaction ",
                            short_hex(tx.hash.as_str()).as_str(),
                        ),
                    },
                );
                self.search_value = query.clone();
                self.search_active = false;
                effects.push(Effect::SaveLastQuery { query });
            },
            TopCommand::SearchFailed { query, error } => {
                self.pending_search = false;
                let head = join3("Failed to load ", short_hex(query.as_str()).as_str(), ": ");
                self.status = Some(join2(head.as_str(), error.as_str()));
            },
            TopCommand::ShowStatus(message) => {
                self.status = Some(message);
                self.search_active = false;
                self.pending_search = false;
            },
        }
        None
    }
}

} // verus!
