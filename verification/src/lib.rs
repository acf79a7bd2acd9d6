//! Connection core of a FIX session engine.
//!
//! The crate owns the decisions of one session's connection: who may send to
//! a session, how a connection is admitted, what each loop does with each
//! event, and what is left behind when the connection ends. Waiting, reading
//! and writing are left to the caller, which reports what happened and is
//! told what to do next.

pub mod connection;
pub mod error;
pub mod event;
pub mod input_loop;
pub mod input_stream;
pub mod message;
pub mod output_loop;
pub mod output_stream;
pub mod registry;
pub mod sender;
pub mod session_id;
pub mod table;
pub mod timing;
