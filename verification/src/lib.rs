//! A personal todo-list manager, as a library without input or output.
//!
//! Lists and items live in an embedded relational store. This crate holds
//! everything that can be decided without touching that store or a terminal:
//! the in-memory lists with their dirty tracking, the decoding of rows, the
//! state machine of the terminal interface, the mapping from keys to
//! messages and the contents of each screen. A driver performs the store
//! requests that the state machine asks for and hands the replies back.

pub mod ids;
pub mod timestamp;
pub mod error;
pub mod fault;
pub mod item;
pub mod items;
pub mod message;
pub mod selection;
pub mod state;
pub mod store;
pub mod text;
pub mod todo_list;
pub mod update;
pub mod view;
