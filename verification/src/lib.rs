//! A pooled, round-based wagering game, verified.
//!
//! Participants stake a fixed amount into a shared pot for a round; when the
//! round closes, one participant is selected as winner and receives the pot
//! minus a configured fee, and a successor round opens. The round lifecycle,
//! the custody arithmetic, and the winner-selection check are verified; the
//! host that stores records, moves native value, and supplies the clock sits
//! outside this crate and hands the protocol plain values.

pub mod counter;
pub mod custody;
pub mod errors;
pub mod identity;
pub mod protocol;
pub mod records;
