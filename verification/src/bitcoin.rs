//! Bitcoin-side wire shapes: decoded transactions as the node's
//! `getrawtransaction` reports them, and decoded blocks.
//!
//! Output values are integer satoshi; the node's decimal rendering is
//! converted at the process edge.

use vstd::prelude::*;

use crate::hash::H256;

verus! {

/// The script kind the node reports for an output.
#[derive(Clone, Copy, PartialEq, Eq, Structural, Debug)]
pub enum ScriptType {
    NonStandard,
    PubKey,
    PubKeyHash,
    ScriptHash,
    Multisig,
    NullData,
    WitnessScript,
    WitnessKey,
}

/// The unlocking script of an input, with its textual disassembly.
pub struct TransactionInputScript {
    pub assembly: String,
    pub hex: String,
}

/// The locking script of an output, with the addresses the node decoded
/// from it, when it could.
pub struct TransactionOutputScript {
    pub assembly: String,
    pub hex: String,
    pub req_sigs: Option<u32>,
    pub script_type: ScriptType,
    pub addresses: Option<Vec<String>>,
}

/// One input of a signed transaction.
pub struct SignedTransactionInput {
    pub txid: H256,
    pub vout: u32,
    pub script_sig: TransactionInputScript,
    pub sequence: u32,
    pub txinwitness: Option<Vec<String>>,
}

/// One output of a signed transaction. `value` is in satoshi.
pub struct SignedTransactionOutput {
    pub value: u64,
    pub n: u32,
    pub script: TransactionOutputScript,
}

/// A decoded Bitcoin transaction.
pub struct Transaction {
    pub txid: H256,
    pub hex: String,
    pub hash: H256,
    pub size: usize,
    pub vsize: usize,
    pub version: i32,
    pub locktime: i32,
    pub vin: Vec<SignedTransactionInput>,
    pub vout: Vec<SignedTransactionOutput>,
    pub blockhash: H256,
    pub confirmations: u32,
    pub time: u32,
    pub blocktime: u32,
}

/// A Bitcoin block with its non-coinbase transactions fetched. The
/// coinbase (`tx_hashes[0]`) is never fetched, so `transactions` holds
/// the bodies of `tx_hashes[1..]`.
pub struct Block {
    pub hash: H256,
    pub height: u64,
    pub tx_hashes: Vec<H256>,
    pub transactions: Vec<Transaction>,
}

/// Whether two optional address lists hold the same strings.
pub open spec fn spec_opt_strings_eq(a: Option<Vec<String>>, b: Option<Vec<String>>) -> bool {
    match (a, b) {
        (Some(x), Some(y)) => x@ == y@,
        (None, None) => true,
        _ => false,
    }
}

/// Whether two output scripts are equal, field by field.
pub open spec fn spec_script_eq(a: TransactionOutputScript, b: TransactionOutputScript) -> bool {
    &&& a.assembly == b.assembly
    &&& a.hex == b.hex
    &&& a.req_sigs == b.req_sigs
    &&& a.script_type == b.script_type
    &&& spec_opt_strings_eq(a.addresses, b.addresses)
}

/// Whether two inputs are equal, field by field.
pub open spec fn spec_input_eq(a: SignedTransactionInput, b: SignedTransactionInput) -> bool {
    &&& a.txid == b.txid
    &&& a.vout == b.vout
    &&& a.script_sig == b.script_sig
    &&& a.sequence == b.sequence
    &&& spec_opt_strings_eq(a.txinwitness, b.txinwitness)
}

/// Whether two outputs are equal, field by field.
pub open spec fn spec_output_eq(a: SignedTransactionOutput, b: SignedTransactionOutput) -> bool {
    &&& a.value == b.value
    &&& a.n == b.n
    &&& spec_script_eq(a.script, b.script)
}

/// Whether two decoded transactions are equal, field by field. Spoken
/// instead of `==` because a vector value is only observable through its
/// contents.
pub open spec fn spec_tx_eq(a: Transaction, b: Transaction) -> bool {
    &&& a.txid == b.txid
    &&& a.hex == b.hex
    &&& a.hash == b.hash
    &&& a.size == b.size
    &&& a.vsize == b.vsize
    &&& a.version == b.version
    &&& a.locktime == b.locktime
    &&& a.vin@.len() == b.vin@.len()
    &&& forall|i: int| 0 <= i < a.vin@.len() ==> spec_input_eq(#[trigger] a.vin@[i], b.vin@[i])
    &&& a.vout@.len() == b.vout@.len()
    &&& forall|i: int| 0 <= i < a.vout@.len() ==> spec_output_eq(#[trigger] a.vout@[i], b.vout@[i])
    &&& a.blockhash == b.blockhash
    &&& a.confirmations == b.confirmations
    &&& a.time == b.time
    &&& a.blocktime == b.blocktime
}

/// A copy of a string vector with the same contents.
fn clone_strings(v: &Vec<String>) -> (r: Vec<String>)
    ensures
        r@ == v@,
{
    let mut out: Vec<String> = Vec::new();
    let n = v.len();
    for i in 0..n
        invariant
            n == v@.len(),
            out@ == v@.take(i as int),
    {
        out.push(v[i].clone());
        proof {
            assert(out@ =~= v@.take(i + 1));
        }
    }
    proof {
        assert(out@ =~= v@);
    }
    out
}

/// A copy of an optional string vector with the same contents.
fn clone_opt_strings(v: &Option<Vec<String>>) -> (r: Option<Vec<String>>)
    ensures
        spec_opt_strings_eq(r, *v),
{
    match v {
        Some(list) => Some(clone_strings(list)),
        None => None,
    }
}

impl TransactionInputScript {
    /// An equal copy.
    pub fn duplicate(&self) -> (r: TransactionInputScript)
        ensures
            r == *self,
    {
        TransactionInputScript { assembly: self.assembly.clone(), hex: self.hex.clone() }
    }
}

impl TransactionOutputScript {
    /// A copy equal field by field.
    pub fn duplicate(&self) -> (r: TransactionOutputScript)
        ensures
            spec_script_eq(r, *self),
    {
        TransactionOutputScript {
            assembly: self.assembly.clone(),
            hex: self.hex.clone(),
            req_sigs: self.req_sigs,
            script_type: self.script_type,
            addresses: clone_opt_strings(&self.addresses),
        }
    }
}

impl SignedTransactionInput {
    /// A copy equal field by field.
    pub fn duplicate(&self) -> (r: SignedTransactionInput)
        ensures
            spec_input_eq(r, *self),
    {
        SignedTransactionInput {
            txid: self.txid,
            vout: self.vout,
            script_sig: self.script_sig.duplicate(),
            sequence: self.sequence,
            txinwitness: clone_opt_strings(&self.txinwitness),
        }
    }
}

impl SignedTransactionOutput {
    /// A copy equal field by field.
    pub fn duplicate(&self) -> (r: SignedTransactionOutput)
        ensures
            spec_output_eq(r, *self),
    {
        SignedTransactionOutput { value: self.value, n: self.n, script: self.script.duplicate() }
    }
}

/// A copy of a transaction's inputs, equal element by element.
fn clone_inputs(v: &Vec<SignedTransactionInput>) -> (r: Vec<SignedTransactionInput>)
    ensures
        r@.len() == v@.len(),
        forall|i: int| 0 <= i < v@.len() ==> spec_input_eq(#[trigger] r@[i], v@[i]),
{
    let mut out: Vec<SignedTransactionInput> = Vec::new();
    let n = v.len();
    for i in 0..n
        invariant
            n == v@.len(),
            out@.len() == i,
            forall|k: int| 0 <= k < i ==> spec_input_eq(#[trigger] out@[k], v@[k]),
    {
        out.push(v[i].duplicate());
    }
    out
}

/// A copy of a transaction's outputs, equal element by element.
fn clone_outputs(v: &Vec<SignedTransactionOutput>) -> (r: Vec<SignedTransactionOutput>)
    ensures
        r@.len() == v@.len(),
        forall|i: int| 0 <= i < v@.len() ==> spec_output_eq(#[trigger] r@[i], v@[i]),
{
    let mut out: Vec<SignedTransactionOutput> = Vec::new();
    let n = v.len();
    for i in 0..n
        invariant
            n == v@.len(),
            out@.len() == i,
            forall|k: int| 0 <= k < i ==> spec_output_eq(#[trigger] out@[k], v@[k]),
    {
        out.push(v[i].duplicate());
    }
    out
}

impl Transaction {
    /// A copy of the whole decoded transaction, equal field by field, as
    /// the raw-record insert persists it.
    pub fn duplicate(&self) -> (r: Transaction)
        ensures
            spec_tx_eq(r, *self),
    {
        Transaction {
            txid: self.txid,
            hex: self.hex.clone(),
            hash: self.hash,
            size: self.size,
            vsize: self.vsize,
            version: self.version,
            locktime: self.locktime,
            vin: clone_inputs(&self.vin),
            vout: clone_outputs(&self.vout),
            blockhash: self.blockhash,
            confirmations: self.confirmations,
            time: self.time,
            blocktime: self.blocktime,
        }
    }
}

} // verus!
