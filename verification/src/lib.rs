//! Escrow and balance bookkeeping for a peer-to-peer car rental marketplace.
//!
//! The engine keeps car listings, active rentals, the platform commission and
//! the value held in custody. Every operation is one atomic step: it either
//! applies all of its changes or refuses and leaves the state as it was.
//!
//! - [`contract`] holds the engine and its operations.
//! - [`interface`] says what each operation means over the state as
//!   mathematics, and proves what holds of every state that can be reached.
//! - [`methods`] holds the checks that operations make before they change
//!   anything: on amounts, on approvals, and on the transfers they order.
//! - [`storage`] holds what the engine keeps between calls, and the functions
//!   that read and write it.
//!
//! The engine does no input or output. The host that runs it verifies
//! approvals, supplies the time, stores the state and moves the value that
//! an operation orders.
pub mod contract;
pub mod interface;
pub mod methods;
pub mod storage;
