//! Verified extraction of per-concept financial facts from XBRL instance
//! documents.
//!
//! The heart of the crate is the fact resolution engine: it turns a parsed
//! XML tree into deduplicated `(period, value)` records for a requested
//! financial concept, handling the XBRL context/period/segment model and the
//! tag-fallback tiers needed because filers tag the same economic fact
//! inconsistently.  The engine is a pure query layer over an immutable
//! document snapshot; every function of it carries a contract checked by
//! Verus.  The XML tokenizer itself is an outside collaborator, reached
//! through a small trusted tree-access layer.

pub mod company;
pub mod dart;
pub mod date;
pub mod edgar;
pub mod error;
pub mod hex;
pub mod krx;
pub mod krx_web;
pub mod prices;
pub mod settings;
pub mod statement;
pub mod text;
pub mod ticker;
pub mod tree;
pub mod xbrl;
