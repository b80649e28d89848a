//! The decisions of an Ethereum JSON-RPC client that asks several providers
//! over HTTPS outcalls: which providers are asked, what each of them is sent,
//! how large a response is expected, and what is made of the replies.
//!
//! The library performs no I/O. A caller runs the outcalls that it describes
//! and hands the replies back.

pub mod call;
pub mod e2e;
pub mod error;
pub mod lifecycle;
pub mod rpc;
pub mod service;
pub mod text;
