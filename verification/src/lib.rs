//! Transactions of a replicated ledger: what a client signs, how it is written and read, what
//! comes of it, and how it travels with the proof that it is in the ledger.
//!
//! A [`transaction::RawTransaction`] is signed into a [`transaction::SignedTransaction`]. Both have
//! canonical bytes ([`codec`], over the primitives of [`canonical`]), which are what is hashed and
//! signed. Executing a transaction yields an [`output::TransactionOutput`]; what is stored of it is
//! an [`info::TransactionInfo`], and what it does to the ledger is a
//! [`commit::TransactionToCommit`]. Transactions are handed to others as a
//! [`with_proof::SignedTransactionWithProof`] or a [`list::TransactionListWithProof`]. All of them
//! travel in the messages of [`proto`] ([`convert`]).
//!
//! Hash functions, the signature scheme and the verification of accumulator proofs are given to
//! the functions that need them; contracts say what they are called with and what becomes of their
//! answers. [`text`] and [`show`] hold the texts of values. What holds of the library as a whole is
//! in [`laws`]; what each part is, part by part, is in [`layout`] for bytes, [`fields`] for
//! messages, [`wording`] for texts and [`calls`] for the functions that are given.

pub mod address;
pub mod argument;
pub mod calls;
pub mod canonical;
pub mod codec;
pub mod commit;
pub mod convert;
pub mod error;
pub mod event;
pub mod fields;
pub mod info;
pub mod laws;
pub mod layout;
pub mod list;
pub mod output;
pub mod payload;
pub mod program;
pub mod proto;
pub mod show;
pub mod status;
pub mod text;
pub mod time;
pub mod transaction;
pub mod with_proof;
pub mod wording;
pub mod write_set;
