//! A verified command layer for a ticket-tracking chat bot.
//!
//! Two components, composed linearly: a command dispatcher that matches an
//! inbound message against a fixed prefix and a registry of named commands,
//! and a ticket store offering create, list-all and count operations over an
//! explicit model of its backing engine. Gateway connection management and
//! the actual persistence engine are external collaborators; the binary
//! around this library wires them up.

pub mod dispatch;
pub mod store;
pub mod ticket;
