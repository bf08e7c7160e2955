//! Core of a desktop application for chatting with a language model that runs
//! entirely on the local machine.
//!
//! The heart of the crate is the embedded inference session: planning how
//! much context window the host hardware can afford (`budget`), keeping the
//! role-tagged transcript in shape (`transcript`) and turning it into a
//! backend-ready prompt (`format`), and running the autoregressive
//! decode/sample loop under a fixed token budget while honouring cancellation
//! (`session`). The model and backend handles are owned by a lifecycle
//! manager (`lifecycle`). Around that core sit the data types and pure rules
//! of the surrounding application: stored conversation records and their
//! summaries (`conversation`), document type detection (`document`), the
//! local trial/license records with their tamper-evident hash (`license`,
//! `hashing`), and the built-in model catalogue (`models`).
//!
//! All decisions are made on plain values; the inference backend itself and
//! every kind of I/O live outside this crate and feed events into it.

pub mod budget;
pub mod conversation;
pub mod document;
pub mod format;
pub mod hashing;
pub mod license;
pub mod lifecycle;
pub mod models;
pub mod session;
pub mod strutil;
pub mod transcript;
