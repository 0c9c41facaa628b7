//! Cross-venue spread detection and guarded execution dispatch.
//!
//! Pools of the same asset pair on two venues report their reserves; when
//! the prices that follow from them drift apart by a configured number of
//! basis points, one execution per pair is handed off and followed to its end.
//!
//! Everything here is plain computation on plain values. Reading the chain,
//! waiting and sending are left to the caller, which feeds events in and
//! carries actions out:
//!
//! - [`listener`] decodes update events and decides how a lost subscription
//!   is taken up again; [`queue`] is the bounded queue that the listeners fill.
//! - [`cache`], [`price`], [`detector`] and [`aggregator`] keep the latest
//!   reserves per pool, normalise prices, and find opportunities.
//! - [`guard`] admits at most one execution per pair at a time.
//! - [`calldata`], [`gas`], [`nonce`] and [`submitter`] build an execution,
//!   price and number it, and track it until it is confirmed, reverted or dropped.
//! - [`market`], [`uint256`] and [`clock`] hold the shared vocabulary.

pub mod aggregator;
pub mod cache;
pub mod calldata;
pub mod clock;
pub mod detector;
pub mod gas;
pub mod guard;
pub mod listener;
pub mod market;
pub mod nonce;
pub mod price;
pub mod queue;
pub mod submitter;
pub mod uint256;
