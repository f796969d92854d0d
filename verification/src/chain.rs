//! Plain-value model of transactions: what the planner reads and writes.

use vstd::prelude::*;

verus! {

/// Sequence number that signals replaceability and leaves the lock time off.
pub const ENABLE_RBF_NO_LOCKTIME: u32 = 0xFFFF_FFFD;

/// A transaction id, in the byte order in which it is hashed and stored.
#[derive(Clone, Copy, Debug, PartialEq, Eq)]
pub struct Txid {
    pub bytes: [u8; 32],
}

/// One output of one transaction.
#[derive(Clone, Copy, Debug, PartialEq, Eq)]
pub struct OutPoint {
    pub txid: Txid,
    pub vout: u32,
}

#[derive(Clone, Debug, PartialEq, Eq)]
pub struct TxIn {
    pub previous_output: OutPoint,
    pub script_sig: Vec<u8>,
    pub sequence: u32,
    pub witness: Vec<Vec<u8>>,
}

#[derive(Clone, Debug, PartialEq, Eq)]
pub struct TxOut {
    pub value: u64,
    pub script_pubkey: Vec<u8>,
}

#[derive(Clone, Debug, PartialEq, Eq)]
pub struct Transaction {
    pub version: i32,
    pub lock_time: u32,
    pub input: Vec<TxIn>,
    pub output: Vec<TxOut>,
}

pub struct TxInView {
    pub previous_output: OutPoint,
    pub script_sig: Seq<u8>,
    pub sequence: u32,
    pub witness: Seq<Seq<u8>>,
}

pub struct TxOutView {
    pub value: u64,
    pub script_pubkey: Seq<u8>,
}

pub struct TransactionView {
    pub version: i32,
    pub lock_time: u32,
    pub input: Seq<TxInView>,
    pub output: Seq<TxOutView>,
}

impl View for TxIn {
    type V = TxInView;

    open spec fn view(&self) -> TxInView {
        TxInView {
            previous_output: self.previous_output,
            script_sig: self.script_sig@,
            sequence: self.sequence,
            witness: self.witness@.map_values(|item: Vec<u8>| item@),
        }
    }
}

impl View for TxOut {
    type V = TxOutView;

    open spec fn view(&self) -> TxOutView {
        TxOutView { value: self.value, script_pubkey: self.script_pubkey@ }
    }
}

impl View for Transaction {
    type V = TransactionView;

    open spec fn view(&self) -> TransactionView {
        TransactionView {
            version: self.version,
            lock_time: self.lock_time,
            input: self.input@.map_values(|txin: TxIn| txin@),
            output: self.output@.map_values(|txout: TxOut| txout@),
        }
    }
}

/// The views of a row of outputs.
pub open spec fn outputs_view(outputs: Seq<TxOut>) -> Seq<TxOutView> {
    outputs.map_values(|txout: TxOut| txout@)
}

/// The views of a row of transactions.
pub open spec fn transactions_view(txs: Seq<Transaction>) -> Seq<TransactionView> {
    txs.map_values(|tx: Transaction| tx@)
}

/// The sum of the values of `outputs`.
pub open spec fn output_total(outputs: Seq<TxOutView>) -> int
    decreases outputs.len(),
{
    if outputs.len() == 0 {
        0
    } else {
        output_total(outputs.drop_last()) + outputs.last().value
    }
}

/// Whether the bytes of `a` from position `from` on come before those of `b`
/// in the order of the dictionary.
pub open spec fn bytes_precede(a: Seq<u8>, b: Seq<u8>, from: int) -> bool
    decreases 32 - from,
{
    if from < 0 || from >= 32 {
        false
    } else if a[from] != b[from] {
        a[from] < b[from]
    } else {
        bytes_precede(a, b, from + 1)
    }
}

/// Whether `a` sorts before `b`: by the bytes of the id, then by the index.
pub open spec fn precedes(a: OutPoint, b: OutPoint) -> bool {
    bytes_precede(a.txid.bytes@, b.txid.bytes@, 0) || (a.txid == b.txid && a.vout < b.vout)
}

proof fn lemma_bytes_precede_transitive(a: Seq<u8>, b: Seq<u8>, c: Seq<u8>, from: int)
    requires
        0 <= from <= 32,
        bytes_precede(a, b, from),
        bytes_precede(b, c, from) || (forall|j: int| from <= j < 32 ==> b[j] == c[j]),
    ensures
        bytes_precede(a, c, from),
    decreases 32 - from,
{
    if from < 32 && a[from] == b[from] && b[from] == c[from] {
        lemma_bytes_precede_transitive(a, b, c, from + 1);
    }
}

proof fn lemma_bytes_precede_transitive_left(a: Seq<u8>, b: Seq<u8>, c: Seq<u8>, from: int)
    requires
        0 <= from <= 32,
        forall|j: int| from <= j < 32 ==> a[j] == b[j],
        bytes_precede(b, c, from),
    ensures
        bytes_precede(a, c, from),
    decreases 32 - from,
{
    if from < 32 && b[from] == c[from] {
        lemma_bytes_precede_transitive_left(a, b, c, from + 1);
    }
}

proof fn lemma_bytes_precede_total(a: Seq<u8>, b: Seq<u8>, from: int)
    requires
        0 <= from <= 32,
    ensures
        bytes_precede(a, b, from) || bytes_precede(b, a, from) || (forall|j: int|
            from <= j < 32 ==> a[j] == b[j]),
        !(bytes_precede(a, b, from) && bytes_precede(b, a, from)),
        bytes_precede(a, b, from) ==> !(forall|j: int| from <= j < 32 ==> a[j] == b[j]),
    decreases 32 - from,
{
    if from < 32 {
        lemma_bytes_precede_total(a, b, from + 1);
        if a[from] == b[from] {
            if bytes_precede(a, b, from) {
                assert(!(forall|j: int| from + 1 <= j < 32 ==> a[j] == b[j]));
            }
        }
    }
}

/// The order of outpoints is transitive.
pub proof fn lemma_precedes_transitive(a: OutPoint, b: OutPoint, c: OutPoint)
    requires
        precedes(a, b),
        precedes(b, c),
    ensures
        precedes(a, c),
{
    let (x, y, z) = (a.txid.bytes@, b.txid.bytes@, c.txid.bytes@);
    if bytes_precede(x, y, 0) {
        lemma_bytes_precede_transitive(x, y, z, 0);
    } else if bytes_precede(y, z, 0) {
        lemma_bytes_precede_transitive_left(x, y, z, 0);
    } else {
        assert(a.txid.bytes =~= c.txid.bytes);
    }
}

/// Of two outpoints one comes first, or they are the same; never both.
pub proof fn lemma_precedes_total(a: OutPoint, b: OutPoint)
    ensures
        precedes(a, b) || precedes(b, a) || a == b,
        !(precedes(a, b) && precedes(b, a)),
        !precedes(a, a),
{
    lemma_bytes_precede_total(a.txid.bytes@, b.txid.bytes@, 0);
    lemma_bytes_precede_total(a.txid.bytes@, a.txid.bytes@, 0);
    if !bytes_precede(a.txid.bytes@, b.txid.bytes@, 0) && !bytes_precede(
        b.txid.bytes@,
        a.txid.bytes@,
        0,
    ) {
        assert(a.txid.bytes =~= b.txid.bytes);
    }
}

impl TxOut {
    /// A copy of this output.
    pub fn duplicate(&self) -> (r: TxOut)
        ensures
            r@ == self@,
    {
        let mut script_pubkey: Vec<u8> = Vec::new();
        let mut i: usize = 0;
        while i < self.script_pubkey.len()
            invariant
                i <= self.script_pubkey.len(),
                script_pubkey@ == self.script_pubkey@.take(i as int),
            decreases self.script_pubkey.len() - i,
        {
            script_pubkey.push(self.script_pubkey[i]);
            assert(self.script_pubkey@.take(i + 1) == self.script_pubkey@.take(i as int).push(
                self.script_pubkey@[i as int],
            ));
            i += 1;
        }
        assert(self.script_pubkey@.take(self.script_pubkey.len() as int) == self.script_pubkey@);
        TxOut { value: self.value, script_pubkey }
    }
}

impl TxIn {
    /// The input that spends `previous_output` with nothing to unlock it yet,
    /// and that signals replaceability.
    pub fn unsigned(previous_output: OutPoint) -> (r: TxIn)
        ensures
            r@ == Self::spec_unsigned(previous_output),
    {
        let r = TxIn {
            previous_output,
            script_sig: Vec::new(),
            sequence: ENABLE_RBF_NO_LOCKTIME,
            witness: Vec::new(),
        };
        assert(r@.witness =~= Seq::<Seq<u8>>::empty());
        r
    }

    pub open spec fn spec_unsigned(previous_output: OutPoint) -> TxInView {
        TxInView {
            previous_output,
            script_sig: Seq::<u8>::empty(),
            sequence: ENABLE_RBF_NO_LOCKTIME,
            witness: Seq::<Seq<u8>>::empty(),
        }
    }
}

impl OutPoint {
    /// Whether this outpoint sorts before `other`.
    pub fn comes_before(&self, other: &OutPoint) -> (r: bool)
        ensures
            r == precedes(*self, *other),
    {
        let mut i: usize = 0;
        while i < 32
            invariant
                i <= 32,
                forall|j: int| 0 <= j < i ==> self.txid.bytes[j] == other.txid.bytes[j],
                bytes_precede(self.txid.bytes@, other.txid.bytes@, 0) == bytes_precede(
                    self.txid.bytes@,
                    other.txid.bytes@,
                    i as int,
                ),
            decreases 32 - i,
        {
            if self.txid.bytes[i] != other.txid.bytes[i] {
                return self.txid.bytes[i] < other.txid.bytes[i];
            }
            i += 1;
        }
        assert(self.txid.bytes =~= other.txid.bytes);
        self.vout < other.vout
    }

    /// The outpoint that spends nothing: an all-zero id and the largest index.
    pub open spec fn spec_null() -> OutPoint {
        OutPoint {
            txid: Txid { bytes: vstd::array::spec_array_fill_for_copy_type::<u8, 32>(0u8) },
            vout: 0xFFFF_FFFF,
        }
    }

    #[verifier::when_used_as_spec(spec_null)]
    pub fn null() -> (r: OutPoint)
        ensures
            r == Self::spec_null(),
    {
        OutPoint { txid: Txid { bytes: [0u8; 32] }, vout: 0xFFFF_FFFF }
    }

    /// Whether two outpoints name the same output.
    pub fn same(&self, other: &OutPoint) -> (r: bool)
        ensures
            r == (*self == *other),
    {
        self.vout == other.vout && self.txid.same(&other.txid)
    }
}

impl Txid {
    /// Whether two ids are the same.
    pub fn same(&self, other: &Txid) -> (r: bool)
        ensures
            r == (*self == *other),
    {
        let mut i: usize = 0;
        while i < 32
            invariant
                i <= 32,
                forall|j: int| 0 <= j < i ==> self.bytes[j] == other.bytes[j],
            decreases 32 - i,
        {
            if self.bytes[i] != other.bytes[i] {
                return false;
            }
            i += 1;
        }
        assert(self.bytes =~= other.bytes);
        true
    }
}

} // verus!
