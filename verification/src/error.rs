use crate::chain::Txid;
use vstd::prelude::*;

verus! {

/// Everything that can stop a mint.
#[derive(Clone, Copy, Debug, PartialEq, Eq)]
pub enum Error {
    /// After the inscribed outputs are taken away the wallet has nothing left to spend.
    NoCardinalUtxos,
    /// The inputs do not cover the mint outputs and the commit fee.
    InsufficientFunds,
    /// An amount or a fee does not fit in 64 bits.
    FeeOverflow,
    /// The reveal output would be below the dust threshold of its script.
    Dust,
    /// A reveal transaction is heavier than the standard limit.
    NonStandardWeight,
    /// A mint output is worth less than the fee of its reveal.
    InsufficientCommitOutput,
    /// An input spends an output that the bookkeeping does not know.
    DanglingInput,
    /// The outputs of a transaction are worth more than its inputs.
    NegativeFee,
    /// The tweaked secret does not unlock the output that was derived for it.
    RecoveryKeyMismatch,
    /// The node refused the commit transaction.
    CommitBroadcastFailed,
    /// The node refused the reveal transaction of this slot, which has this id.
    RevealBroadcastFailed { slot: usize, txid: Txid },
    /// The node did not import the recovery key of some slot.
    RecoveryImportFailed,
    /// The recovery log could not be written.
    IoError,
    /// An event came that answers nothing the broadcast was waiting for.
    OutOfTurn,
}

/// Why a query of the index gave nothing.
#[derive(Clone, Copy, Debug, PartialEq, Eq, Structural)]
pub enum QueryError {
    /// The text names no inscription id.
    InvalidId,
    /// The index has no inscription under the id or the number, or no place for it.
    UnknownInscription,
    /// The index lacks the transaction that holds the inscription.
    UnknownTransaction,
    /// The transaction that holds the inscription has no input.
    NoInput,
    /// An output pays to a script that has no address.
    NotAnAddress,
    /// The index has no record of the inscription's number and time.
    NoEntry,
    /// The index has no content for the inscription.
    NoContent,
    /// The inscription has no body.
    NoBody,
    /// The inscription has no content type, or one that is no text.
    NoContentType,
}

} // verus!
