//! What crosses the boundaries of the dispatcher: actions it applies,
//! messages that background work sends back, and outside work it asks for.
use vstd::prelude::*;
use crate::hydrate::{HydratedAddress, HydratedTransaction};
use crate::model::{AddressRef, AddressTransactionRow, SelectedEntity, TransactionRef};
use crate::navigation::FocusedPane;
use crate::state::SecretsState;

verus! {

/// A discrete change that the dispatcher applies to the state.
#[derive(Debug, PartialEq, Eq)]
pub enum Action {
    Quit,
    FocusPane(FocusedPane),
    FocusNextPane,
    FocusPreviousPane,
    SelectionChanged(SelectedEntity),
    LoadingStarted(FocusedPane),
    LoadingFinished(FocusedPane),
    CloseModal,
    SecretsSaved,
}

/// The result of a background task, consumed once by the drain step.
#[derive(Debug)]
pub enum Message {
    SearchCompleted { query: String, entity: SelectedEntity },
    SearchFailed { query: String, error: String },
    AddressHydrated(HydratedAddress),
    TransactionHydrated(HydratedTransaction),
}

/// Outside work that the dispatcher asks the surrounding loop to start.
#[derive(Debug)]
pub enum Effect {
    /// Fetch the account overview and the transaction history of an address.
    HydrateAddress { address: AddressRef, secrets: SecretsState },
    /// Build the view of a transaction, from the cached row when there is one.
    HydrateTransaction { transaction: TransactionRef, preview: Option<AddressTransactionRow> },
    /// Decode a search query after a short delay.
    Search { query: String },
    /// Remember the last successful query in the settings store.
    SaveLastQuery { query: String },
}

} // verus!
