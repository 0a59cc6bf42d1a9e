//! Session and window browsing for a terminal multiplexer: the tree model,
//! selection and scrolling, history, the two searches and the modal key
//! handling, all stated and proved over sequences of characters and lines.

pub mod app;
pub mod config;
pub mod fuzzy;
pub mod history;
pub mod quick_search;
pub mod ranking;
pub mod search;
pub mod selection;
pub mod text;
pub mod tmux;
pub mod tree;
pub mod ui;
pub mod widgets;
