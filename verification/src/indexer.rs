//! Block normalization: raw confirmed blocks in, canonical transactions out.

pub mod block;
pub mod lemmas;
pub mod transaction;
