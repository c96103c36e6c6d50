//! Session layer between a host application and external hardware.
//!
//! Two transports are covered: a serial link to a device, and the scanning of
//! wireless advertisements. The library holds the rules of both: which
//! settings are accepted, which session a key maps to, what the read loop and
//! the write loop of a session do with each outcome of their I/O, how a
//! session is torn down, and what becomes of each event of the radio adapter.
//! It performs no I/O itself: the caller reads, writes, waits and publishes,
//! and hands every outcome to the library as a plain value.
//!
//! - [`adapter`]: the settings of a serial session and their validation.
//! - [`registry`]: at most one session per key; opening, closing, looking up.
//! - [`reader`]: the read loop.
//! - [`writer`]: the commands of the write/control loop, and the drain wait.
//! - [`teardown`]: the order in which a session is shut down.
//! - [`scan`]: the advertisement scan and its device records.
//! - [`event`]: what a serial session reports to the host.
//! - [`error`]: what can go wrong, and how it reads.
//! - [`text`]: case folding, decimal and hexadecimal notation.

pub mod adapter;
pub mod error;
pub mod event;
pub mod reader;
pub mod registry;
pub mod scan;
pub mod teardown;
pub mod text;
pub mod writer;
