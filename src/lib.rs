//! Orchestration core of a terminal browser for blockchain addresses and
//! transactions: navigation, favorites, hydration results and the dispatcher.
pub mod actions;
pub mod app;
pub mod etherscan;
pub mod hydrate;
pub mod input;
pub mod main_view;
pub mod model;
pub mod navigation;
pub mod secrets;
pub mod sidebar;
pub mod state;
pub mod text;
pub mod top;
pub mod wei;
