//! Seat-usage bookkeeping for GitHub Copilot organizations.
//!
//! The crate holds the rules of the tool and leaves the network, the
//! terminal and the process environment to its caller:
//!
//! * [`types`] defines instants, seat statuses and classified seats;
//! * [`error`] defines the ways a fetch can fail;
//! * [`github_client`] decides, reply by reply, how a paginated fetch of
//!   seat assignments proceeds;
//! * [`pagination`] proves what holds of every such fetch;
//! * [`processor`] classifies seats as active or inactive;
//! * [`formatter`] turns classified seats into the rows and the counts of a
//!   listing;
//! * [`calendar`] reads the clock and writes dates.

pub mod calendar;
pub mod error;
pub mod formatter;
pub mod github_client;
pub mod pagination;
pub mod processor;
pub mod types;
