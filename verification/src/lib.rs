//! Signal schema, register decoding and time-series synchronisation for a
//! device that is polled over a fieldbus.
//!
//! The library holds no connection. It says which registers to read and
//! which commands to send; the caller reads and sends, and hands back what
//! came of it.
//!
//! - [`parser`] builds the catalog of signals from a definition source.
//! - [`registers`] decodes the words of a group of signals.
//! - [`fieldbus`] plans the reads of a poll and stores their answers.
//! - [`store`] holds the commands for the time-series store.
//! - [`datalogger`] keeps the catalog of one device and plans each cycle.
//! - [`text`] holds what the others need of strings.

pub mod datalogger;
pub mod fieldbus;
pub mod parser;
pub mod registers;
pub mod store;
pub mod text;
