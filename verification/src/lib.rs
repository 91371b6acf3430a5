//! Reward accounting for a platform of serialized stories: scoring of works
//! into mining power, the weekly epoch protocol, claims and their split,
//! vesting of NFT holders' shares, and the readers' monthly lottery.
//!
//! Every operation is a function from the current state and the time to the
//! next state and the payouts and events that follow. The time is always an
//! argument, and value is moved by the caller. An operation that is rejected
//! changes nothing.

pub mod author;
pub mod claim;
pub mod constants;
pub mod draw;
pub mod emission;
pub mod epoch;
pub mod errors;
pub mod events;
pub mod indices;
pub mod keys;
pub mod lottery;
pub mod nft;
pub mod platform;
pub mod reader;
pub mod scoring;
pub mod story;
pub mod tafortoken;
