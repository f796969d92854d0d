//! The backup of a slot's recovery key: the descriptor that the node's
//! wallet imports, and the line of the recovery log.

use crate::chain::{Transaction, TransactionView};
use crate::consensus::txid_of;
use crate::keys::{wif_of, Network, SecretKey};
use crate::text::{concat, debug_text, debug_text_of, raw_hex, raw_hex_of, txid_text, txid_text_of};
use vstd::prelude::*;

verus! {

/// What the wallet is asked to import.
#[derive(Clone, Debug, PartialEq, Eq)]
pub struct ImportDescriptor {
    pub descriptor: String,
    /// Whether the key is to be taken as created now, so that nothing is rescanned.
    pub timestamp_now: bool,
    pub active: bool,
    pub internal: bool,
    pub label: String,
}

/// The descriptor of the raw Taproot key with this import format.
pub open spec fn descriptor_of(wif: Seq<char>) -> Seq<char> {
    "rawtr("@ + wif + ")"@
}

/// A descriptor followed by its checksum.
pub open spec fn checked_descriptor_of(wif: Seq<char>, checksum: Seq<char>) -> Seq<char> {
    descriptor_of(wif) + "#"@ + checksum
}

/// The label under which recovery keys are imported.
pub open spec fn recovery_label() -> Seq<char> {
    "commit tx recovery key"@
}

/// The line of the recovery log for a reveal and the key that recovers its
/// input: the reveal's id, the reveal in hexadecimal, and the bytes of the key.
pub open spec fn recovery_log_line_of(reveal: TransactionView, recovery_key: Seq<u8>) -> Seq<char> {
    txid_text_of(txid_of(reveal)) + " "@ + raw_hex_of(reveal) + " "@ + debug_text_of(recovery_key)
}

/// The descriptor of `recovery_key` whose checksum the node is asked for.
pub fn recovery_descriptor(recovery_key: &SecretKey, network: Network) -> (descriptor: String)
    ensures
        descriptor@ == descriptor_of(wif_of(recovery_key@, network)),
{
    let wif = recovery_key.to_wif(network);
    let open = concat("rawtr(", wif.as_str());
    concat(open.as_str(), ")")
}

/// The request to import `recovery_key` under the checksum that the node gave
/// for its descriptor: not active, not internal, created now.
pub fn import_request(recovery_key: &SecretKey, network: Network, checksum: &str) -> (request:
    ImportDescriptor)
    ensures
        request.descriptor@ == checked_descriptor_of(wif_of(recovery_key@, network), checksum@),
        request.timestamp_now,
        !request.active,
        !request.internal,
        request.label@ == recovery_label(),
{
    let descriptor = recovery_descriptor(recovery_key, network);
    let marked = concat(descriptor.as_str(), "#");
    ImportDescriptor {
        descriptor: concat(marked.as_str(), checksum),
        timestamp_now: true,
        active: false,
        internal: false,
        label: "commit tx recovery key".to_owned(),
    }
}

/// Whether the node reported success for every descriptor of an import.
pub fn import_succeeded(results: &Vec<bool>) -> (ok: bool)
    ensures
        ok == (forall|i: int| 0 <= i < results@.len() ==> results@[i]),
{
    let mut i: usize = 0;
    while i < results.len()
        invariant
            i <= results.len(),
            forall|j: int| 0 <= j < i ==> results@[j],
        decreases results.len() - i,
    {
        if !results[i] {
            return false;
        }
        i += 1;
    }
    true
}

/// The line of the recovery log for `reveal` and the key of its slot.
pub fn recovery_log_line(reveal: &Transaction, recovery_key: &SecretKey) -> (line: String)
    ensures
        line@ == recovery_log_line_of(reveal@, recovery_key@),
{
    let id = txid_text(&reveal.txid());
    let hex = raw_hex(reveal);
    let key = debug_text(&recovery_key.secret_bytes());
    let mut line = concat(id.as_str(), " ");
    line = concat(line.as_str(), hex.as_str());
    line = concat(line.as_str(), " ");
    concat(line.as_str(), key.as_str())
}

/// The name of the recovery log of the commit with this id.
pub fn recovery_log_name(commit: &Transaction) -> (name: String)
    ensures
        name@ == "output_"@ + txid_text_of(txid_of(commit@)) + ".txt"@,
{
    let id = txid_text(&commit.txid());
    let named = concat("output_", id.as_str());
    concat(named.as_str(), ".txt")
}

} // verus!
