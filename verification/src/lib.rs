//! Pure core of the stake program's per-market buyback.
//!
//! * [`buyback`]: a market's risk-weighted exposure and the economic gates that
//!   decide whether, and for how much, a buyback may fire.
//! * [`error`]: the program's error codes and their hints.
//! * [`event`]: the wire format of the two buyback events.
//! * [`wire`]: the little-endian encoding that the events use.
//!
//! Nothing here reads a clock, an account or an oracle: callers pass what they
//! resolved, and write out what comes back.

pub mod buyback;
pub mod error;
pub mod event;
pub mod wire;
