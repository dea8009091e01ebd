//! Navigation core of a chat bot that browses a cocktail catalog: the
//! callback token codec, pagination arithmetic, keyboard layouts and the
//! dialogue state machine.

pub mod decimal;
pub mod item_id;
pub mod commands;
pub mod decode;
pub mod pagination;
pub mod domain;
pub mod keyboards;
pub mod dialogue;
pub mod config;
pub mod card;
