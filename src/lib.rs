//! A small single-key P2WPKH wallet: fee estimation, transaction building and
//! signing, and the decisions of a send, each with a proved contract.
pub mod explorer;
pub mod fee;
pub mod model;
pub mod primitives;
pub mod send;
pub mod wallet;
