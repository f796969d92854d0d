//! Script bytes: pushes, opcodes, and the Taproot output program.

use vstd::prelude::*;

verus! {

pub const OP_FALSE: u8 = 0x00;

pub const OP_PUSHDATA1: u8 = 0x4c;

pub const OP_PUSHDATA2: u8 = 0x4d;

pub const OP_PUSHNUM_1: u8 = 0x51;

pub const OP_IF: u8 = 0x63;

pub const OP_ENDIF: u8 = 0x68;

pub const OP_CHECKSIG: u8 = 0xac;

/// The longest item that a script may push.
pub const MAX_SCRIPT_ELEMENT_SIZE: usize = 520;

pub const OP_PUSHDATA4: u8 = 0x4e;

/// The bytes that announce a push of `len` bytes, for `len` below 2^32: the
/// length itself where it is under 76, else an opcode and the length in one,
/// two or four bytes, lowest first.
pub open spec fn push_header(len: nat) -> Seq<u8> {
    if len < 0x4c {
        seq![len as u8]
    } else if len < 0x100 {
        seq![OP_PUSHDATA1, len as u8]
    } else if len < 0x10000 {
        seq![OP_PUSHDATA2, (len % 0x100) as u8, (len / 0x100) as u8]
    } else {
        seq![
            OP_PUSHDATA4,
            (len % 0x100) as u8,
            ((len / 0x100) % 0x100) as u8,
            ((len / 0x10000) % 0x100) as u8,
            (len / 0x1000000) as u8,
        ]
    }
}

/// A script followed by the push of `data`.
pub open spec fn with_push(script: Seq<u8>, data: Seq<u8>) -> Seq<u8> {
    script + push_header(data.len()) + data
}

/// `bitcoin::ScriptBuf::push_slice`: trusted to append the push header for the
/// length of `data` and then `data` itself. The outside function gives up on
/// 2^32 bytes and more.
#[verifier::external_body]
pub(crate) fn push_slice(script: Vec<u8>, data: &[u8]) -> (r: Vec<u8>)
    requires
        data@.len() < 0x1_0000_0000,
    ensures
        r@ == with_push(script@, data@),
{
    let mut buf = bitcoin::ScriptBuf::from_bytes(script);
    let bytes: &bitcoin::script::PushBytes = data.try_into().unwrap();
    buf.push_slice(bytes);
    buf.into_bytes()
}

/// `bitcoin::ScriptBuf::push_opcode`: trusted to append the opcode's one byte.
#[verifier::external_body]
pub(crate) fn push_opcode(script: Vec<u8>, opcode: u8) -> (r: Vec<u8>)
    ensures
        r@ == script@.push(opcode),
{
    let mut buf = bitcoin::ScriptBuf::from_bytes(script);
    buf.push_opcode(bitcoin::opcodes::All::from(opcode));
    buf.into_bytes()
}

/// The script that pays to a Taproot output key: `OP_1`, then the push of the key.
pub open spec fn p2tr_script(output_key: Seq<u8>) -> Seq<u8> {
    seq![OP_PUSHNUM_1, 32u8] + output_key
}

/// The script that pays to the Taproot output key `output_key`.
pub fn p2tr_script_pubkey(output_key: &[u8; 32]) -> (script: Vec<u8>)
    ensures
        script@ == p2tr_script(output_key@),
{
    let mut script: Vec<u8> = Vec::new();
    script.push(OP_PUSHNUM_1);
    script.push(32u8);
    let mut i: usize = 0;
    while i < 32
        invariant
            i <= 32,
            script@ == seq![OP_PUSHNUM_1, 32u8] + output_key@.subrange(0, i as int),
        decreases 32 - i,
    {
        script.push(output_key[i]);
        i += 1;
    }
    assert(output_key@.subrange(0, 32) == output_key@);
    script
}

/// Whether two byte strings are equal.
pub fn bytes_equal(a: &[u8], b: &[u8]) -> (r: bool)
    ensures
        r == (a@ == b@),
{
    if a.len() != b.len() {
        return false;
    }
    let mut i: usize = 0;
    while i < a.len()
        invariant
            i <= a.len(),
            a.len() == b.len(),
            forall|j: int| 0 <= j < i ==> a@[j] == b@[j],
        decreases a.len() - i,
    {
        if a[i] != b[i] {
            return false;
        }
        i += 1;
    }
    assert(a@ =~= b@);
    true
}

/// A copy of a byte string.
pub fn copy_bytes(a: &[u8]) -> (r: Vec<u8>)
    ensures
        r@ == a@,
{
    let mut r: Vec<u8> = Vec::new();
    let mut i: usize = 0;
    while i < a.len()
        invariant
            i <= a.len(),
            r@ == a@.subrange(0, i as int),
        decreases a.len() - i,
    {
        r.push(a[i]);
        i += 1;
    }
    assert(a@.subrange(0, a.len() as int) == a@);
    r
}

} // verus!
