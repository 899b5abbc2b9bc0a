//! Per-bounty analytics for bounty escrow contracts: the records that track
//! how much of a bounty was locked, released and refunded, and the rules by
//! which lock, release and refund events update them.

pub mod analytics;
