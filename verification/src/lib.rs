//! Incremental harvester for a paginated public feed.
//!
//! The library holds the verified core: decoding feed payloads into the
//! domain model, the crawl state machine with its termination and stall
//! guards, and the planning of media downloads with per-item isolation.
//! Network and file transfers are left to the caller, which performs the
//! actions the crawl loop asks for and hands the outcomes back as events.

pub mod crawl;
pub mod json;
pub mod model;
pub mod service;
pub mod text;
