//! Ingestion core of a ledger indexer.
//!
//! The library holds the decisions of the pipeline and none of its I/O:
//! `feed` says when to subscribe to the block feed, when to wait and when
//! to receive; `indexer` turns a raw confirmed block into canonical
//! transactions with their balance movements; `db` says, write by write,
//! how the records of a block are persisted so that the block leaves all
//! of its rows or none; `models` holds the records; `config` picks the
//! connection and its endpoint.

pub mod config;
pub mod db;
pub mod feed;
pub mod indexer;
pub mod models;
