//! How the indexer reaches the network.

pub mod solana_config;
