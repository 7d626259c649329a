//! The storage engine of a wallet: encrypted records with searchable tags,
//! kept in four tables of a relational backend.
//!
//! The engine performs no input or output. Every operation is a machine
//! that asks for one request at a time and is advanced with the reply
//! ([`protocol`], [`operation`]); whoever holds the connections performs
//! the requests. [`storage`] and [`lifecycle`] hand the operations out,
//! [`write`], [`read`], [`command`], [`search`] and [`iterator`] define
//! them.
//!
//! [`memory`] holds the tables of the schema in memory, with the meaning of
//! every statement of the engine, and runs the operations on them. What the
//! operations guarantee is proved of these runs ([`laws`]).
//!
//! [`credential`] holds the values of the attributes that a credential is
//! shown with before a wallet stores it.

pub mod bytes;
pub mod command;
pub mod config;
pub mod credential;
pub mod decimal;
pub mod error;
pub mod iterator;
pub mod laws;
pub mod lifecycle;
pub mod memory;
pub mod operation;
pub mod options;
pub mod protocol;
pub mod read;
pub mod record;
pub mod search;
pub mod statement;
pub mod storage;
pub mod write;
