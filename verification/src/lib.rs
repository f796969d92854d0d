//! Batch minting of inscriptions: one commit transaction that funds a row of
//! Taproot outputs, and one reveal transaction per output that carries the
//! inscription in its witness.

pub mod api;
pub mod error;
pub mod chain;
pub mod keys;
pub mod script;
pub mod consensus;
pub mod taproot;
pub mod inscription;
pub mod fee;
pub mod utxo;
pub mod slot;
pub mod reveal_tx;
pub mod commit;
pub mod mint;
pub mod accounting;
pub mod text;
pub mod inscription_id;
pub mod index;
pub mod recovery;
pub mod broadcast;
pub mod subcommand;
