//! Reconstruction of a confirmed payment's details from node-supplied data:
//! the funding input's source address and amount, the classification of the
//! outputs into recipient and change, the fee magnitude, and the confirming
//! block. All amounts are in subunits (satoshis).
use vstd::prelude::*;

use crate::CoreError;
use crate::address::Address;
use crate::address::address_from_script;
use crate::address::address_text_of_script;

verus! {

/// A reference to one output of an earlier transaction: the transaction it
/// belongs to and the position in that transaction's output list.
pub struct OutPoint {
    /// Identifier of the transaction the referenced output belongs to.
    pub txid: String,
    /// Position of the referenced output in that transaction's output list.
    pub vout: u32,
}

/// One transaction output: the locking script and the value it carries.
pub struct TxOut {
    /// The output's locking script, as raw bytes.
    pub script_pubkey: Vec<u8>,
    /// The output's value in subunits.
    pub value_sat: u64,
}

/// A decoded transaction, reduced to what inspection reads: its inputs'
/// previous-output references and its outputs.
pub struct DecodedTx {
    /// The previous-output reference of each input, in input order.
    pub inputs: Vec<OutPoint>,
    /// The outputs, in output order.
    pub outputs: Vec<TxOut>,
}

/// A classified output: the address its script pays to, and its value.
pub struct OutputEntry {
    /// The address reconstructed from the output's locking script.
    pub address: Address,
    /// The output's value in subunits.
    pub amount_sat: u64,
}

impl View for OutputEntry {
    type V = (Seq<char>, u64);

    open spec fn view(&self) -> (Seq<char>, u64) {
        (self.address@, self.amount_sat)
    }
}

/// The reconstructed details of one confirmed payment. A record carries a
/// confirming block by construction: none exists for an unconfirmed
/// transaction.
pub struct TransactionRecord {
    /// Identifier of the inspected transaction.
    pub txid: String,
    /// Source of the first (and, by assumption, only) funding input.
    pub input: OutputEntry,
    /// The output paying the expected recipient, if any.
    pub recipient_output: Option<OutputEntry>,
    /// The output returning change to the sender, if any.
    pub change_output: Option<OutputEntry>,
    /// The network fee, as a non-negative magnitude in subunits.
    pub fee_sat: u64,
    /// Height of the confirming block.
    pub block_height: u64,
    /// Hash of the confirming block, in text form.
    pub block_hash: String,
}

/// The address text an output's locking script reconstructs to.
pub open spec fn out_text(out: TxOut) -> Option<Seq<char>> {
    address_text_of_script(out.script_pubkey@)
}

/// Whether every output's script has an address form.
pub open spec fn all_addressable(outs: Seq<TxOut>) -> bool {
    forall|i: int| 0 <= i < outs.len() ==> out_text(outs[i]) is Some
}

/// The outputs resolved to (address text, value) pairs; meaningful only
/// where every script is addressable.
pub open spec fn entries_of(outs: Seq<TxOut>) -> Seq<(Seq<char>, u64)> {
    Seq::new(outs.len(), |i: int| (out_text(outs[i]).unwrap(), outs[i].value_sat))
}

/// Classification of resolved outputs into (recipient, change), walking the
/// outputs in order: an output whose address equals the recipient's becomes
/// the recipient output, any other becomes the change output, and a later
/// output overwrites an earlier one of the same class. (With more than one
/// genuine change output the last one wins — a documented simplification of
/// the single-recipient, single-change assumption.)
pub open spec fn classify_rec(entries: Seq<(Seq<char>, u64)>, recipient: Seq<char>) -> (
    Option<(Seq<char>, u64)>,
    Option<(Seq<char>, u64)>,
)
    decreases entries.len(),
{
    if entries.len() == 0 {
        (None, None)
    } else {
        let prev = classify_rec(entries.drop_last(), recipient);
        let last = entries.last();
        if last.0 == recipient {
            (Some(last), prev.1)
        } else {
            (prev.0, Some(last))
        }
    }
}

/// The view of an optional classified output.
pub open spec fn opt_entry_view(o: Option<OutputEntry>) -> Option<(Seq<char>, u64)> {
    match o {
        Some(e) => Some(e@),
        None => None,
    }
}

/// The fee magnitude a wallet-reported fee stands for: a missing fee
/// defaults to zero (a documented simplification, not a claim that the fee
/// is known to be zero), and a reported fee — a cost, so normally
/// non-positive — is reported by its absolute value.
pub open spec fn fee_magnitude_of(fee: Option<i64>) -> int {
    match fee {
        None => 0,
        Some(f) => if f >= 0 {
            f as int
        } else {
            -(f as int)
        },
    }
}

/// The non-negative fee magnitude in subunits.
pub fn fee_magnitude_sat(fee: Option<i64>) -> (m: u64)
    ensures
        m == fee_magnitude_of(fee),
{
    match fee {
        None => 0,
        Some(f) => if f >= 0 {
            f as u64
        } else if f == i64::MIN {
            9_223_372_036_854_775_808u64
        } else {
            (-f) as u64
        },
    }
}

/// Require a confirming block: a transaction that has none is a
/// precondition failure of inspection, never the source of a partial
/// record.
pub fn confirming_block(blockhash: Option<String>) -> (r: Result<String, CoreError>)
    ensures
        r is Ok <==> blockhash is Some,
        blockhash matches Some(h) ==> r matches Ok(g) && g == h,
        r matches Err(e) ==> e == CoreError::NotConfirmed,
{
    match blockhash {
        Some(h) => Ok(h),
        None => Err(CoreError::NotConfirmed),
    }
}

/// The single funding input this design assumes: the first input's
/// previous-output reference. A transaction without inputs cannot be
/// inspected.
pub fn first_input(tx: &DecodedTx) -> (r: Result<&OutPoint, CoreError>)
    ensures
        r is Ok <==> tx.inputs@.len() > 0,
        r matches Ok(o) ==> *o == tx.inputs@[0],
        r matches Err(e) ==> e == CoreError::MissingInput,
{
    if tx.inputs.len() > 0 {
        Ok(&tx.inputs[0])
    } else {
        Err(CoreError::MissingInput)
    }
}

/// Resolve a funding input against the outputs of the transaction it
/// references: index the output list at the referenced position and
/// reconstruct the source address from that output's locking script.
pub fn resolve_funding(prev_outputs: &Vec<TxOut>, vout: usize) -> (r: Result<
    OutputEntry,
    CoreError,
>)
    ensures
        r is Ok <==> (vout < prev_outputs@.len() && out_text(prev_outputs@[vout as int]) is Some),
        vout >= prev_outputs@.len() ==> (r matches Err(e) && e == CoreError::MissingPreviousOutput),
        vout < prev_outputs@.len() && out_text(prev_outputs@[vout as int]) is None ==> (
        r matches Err(e) && e == CoreError::NonStandardScript),
        r matches Ok(entry) ==> Some(entry.address@) == out_text(prev_outputs@[vout as int])
            && entry.amount_sat == prev_outputs@[vout as int].value_sat,
{
    if vout >= prev_outputs.len() {
        return Err(CoreError::MissingPreviousOutput);
    }
    let out = &prev_outputs[vout];
    match address_from_script(&out.script_pubkey) {
        Ok(address) => Ok(OutputEntry { address, amount_sat: out.value_sat }),
        Err(e) => Err(e),
    }
}

/// Classify every output of the transaction by recipient: reconstruct each
/// output's address and compare it with the expected recipient's. Any
/// script without an address form aborts classification.
pub fn classify_outputs(outputs: &Vec<TxOut>, recipient: &Address) -> (r: Result<
    (Option<OutputEntry>, Option<OutputEntry>),
    CoreError,
>)
    ensures
        r is Ok <==> all_addressable(outputs@),
        r matches Err(e) ==> e == CoreError::NonStandardScript,
        r matches Ok(pair) ==> ({
            let c = classify_rec(entries_of(outputs@), recipient@);
            opt_entry_view(pair.0) == c.0 && opt_entry_view(pair.1) == c.1
        }),
{
    let mut recipient_output: Option<OutputEntry> = None;
    let mut change_output: Option<OutputEntry> = None;
    let mut i: usize = 0;
    while i < outputs.len()
        invariant
            0 <= i <= outputs@.len(),
            forall|j: int| 0 <= j < i ==> out_text(outputs@[j]) is Some,
            ({
                let c = classify_rec(entries_of(outputs@).take(i as int), recipient@);
                opt_entry_view(recipient_output) == c.0 && opt_entry_view(change_output) == c.1
            }),
        decreases outputs@.len() - i,
    {
        let out = &outputs[i];
        let address = match address_from_script(&out.script_pubkey) {
            Ok(a) => a,
            Err(e) => {
                assert(out_text(outputs@[i as int]) is None);
                return Err(e);
            },
        };
        proof {
            let ents = entries_of(outputs@);
            assert(ents.take(i + 1 as int).drop_last() =~= ents.take(i as int));
            assert(ents.take(i + 1 as int).last() == ents[i as int]);
        }
        let entry = OutputEntry { address, amount_sat: out.value_sat };
        if entry.address.same_as(recipient) {
            recipient_output = Some(entry);
        } else {
            change_output = Some(entry);
        }
        i = i + 1;
    }
    proof {
        assert(entries_of(outputs@).take(outputs@.len() as int) =~= entries_of(outputs@));
    }
    Ok((recipient_output, change_output))
}

/// Whether the funding input of `inputs` can be resolved against the
/// referenced transaction's outputs `prev`.
pub open spec fn funding_resolvable(inputs: Seq<OutPoint>, prev: Seq<TxOut>) -> bool {
    &&& inputs.len() > 0
    &&& (inputs[0].vout as int) < prev.len()
    &&& out_text(prev[inputs[0].vout as int]) is Some
}

/// Reconstruct the full record of a confirmed payment from the data the
/// node returned for it: the decoded transaction, the outputs of the
/// transaction its first input spends, the wallet-reported fee, and the
/// confirming block's hash and height. Taking the block hash (not an
/// optional one) keeps an unconfirmed transaction from ever reaching a
/// record; see [`confirming_block`].
pub fn inspect_confirmed(
    txid: String,
    block_hash: String,
    block_height: u64,
    fee_sat: Option<i64>,
    tx: &DecodedTx,
    funding_outputs: &Vec<TxOut>,
    recipient: &Address,
) -> (r: Result<TransactionRecord, CoreError>)
    ensures
        r is Ok <==> (funding_resolvable(tx.inputs@, funding_outputs@) && all_addressable(
            tx.outputs@,
        )),
        tx.inputs@.len() == 0 ==> (r matches Err(e) && e == CoreError::MissingInput),
        tx.inputs@.len() > 0 && tx.inputs@[0].vout as int >= funding_outputs@.len() ==> (
        r matches Err(e) && e == CoreError::MissingPreviousOutput),
        tx.inputs@.len() > 0 && (tx.inputs@[0].vout as int) < funding_outputs@.len() && (out_text(
            funding_outputs@[tx.inputs@[0].vout as int],
        ) is None || !all_addressable(tx.outputs@)) ==> (r matches Err(e) && e
            == CoreError::NonStandardScript),
        r matches Ok(rec) ==> ({
            let fo = funding_outputs@[tx.inputs@[0].vout as int];
            let c = classify_rec(entries_of(tx.outputs@), recipient@);
            &&& rec.txid@ == txid@
            &&& rec.block_hash@ == block_hash@
            &&& rec.block_height == block_height
            &&& rec.fee_sat == fee_magnitude_of(fee_sat)
            &&& Some(rec.input.address@) == out_text(fo)
            &&& rec.input.amount_sat == fo.value_sat
            &&& opt_entry_view(rec.recipient_output) == c.0
            &&& opt_entry_view(rec.change_output) == c.1
        }),
{
    let vout = match first_input(tx) {
        Ok(o) => o.vout,
        Err(e) => {
            return Err(e);
        },
    };
    let input = match resolve_funding(funding_outputs, vout as usize) {
        Ok(f) => f,
        Err(e) => {
            return Err(e);
        },
    };
    let (recipient_output, change_output) = match classify_outputs(&tx.outputs, recipient) {
        Ok(p) => p,
        Err(e) => {
            return Err(e);
        },
    };
    let fee = fee_magnitude_sat(fee_sat);
    Ok(
        TransactionRecord {
            txid,
            input,
            recipient_output,
            change_output,
            fee_sat: fee,
            block_height,
            block_hash,
        },
    )
}

/// Classification never invents an output: a recipient output is one of
/// the transaction's resolved outputs and pays the recipient's address, a
/// change output is one of them and does not, and a transaction without
/// outputs classifies to none at all.
pub proof fn lemma_classification_sound(entries: Seq<(Seq<char>, u64)>, recipient: Seq<char>)
    ensures
        ({
            let c = classify_rec(entries, recipient);
            &&& (c.0 matches Some(e) ==> (exists|i: int|
                0 <= i < entries.len() && entries[i] == e) && e.0 == recipient)
            &&& (c.1 matches Some(e) ==> (exists|i: int|
                0 <= i < entries.len() && entries[i] == e) && e.0 != recipient)
            &&& (entries.len() == 0 ==> c.0 is None && c.1 is None)
        }),
    decreases entries.len(),
{
    if entries.len() > 0 {
        let prefix = entries.drop_last();
        lemma_classification_sound(prefix, recipient);
        let cp = classify_rec(prefix, recipient);
        assert(entries.last() == entries[entries.len() - 1]);
        if cp.0 is Some {
            let e = cp.0.unwrap();
            let i = choose|i: int| 0 <= i < prefix.len() && prefix[i] == e;
            assert(entries[i] == e);
        }
        if cp.1 is Some {
            let e = cp.1.unwrap();
            let i = choose|i: int| 0 <= i < prefix.len() && prefix[i] == e;
            assert(entries[i] == e);
        }
    }
}

/// For a transaction with exactly two outputs, one paying the recipient's
/// address and one not, classification sets both outputs — the matching one
/// as the recipient output, the other as change — and the two never name
/// the same address.
pub proof fn lemma_two_output_classification(entries: Seq<(Seq<char>, u64)>, recipient: Seq<char>)
    requires
        entries.len() == 2,
        (entries[0].0 == recipient) != (entries[1].0 == recipient),
    ensures
        ({
            let c = classify_rec(entries, recipient);
            &&& c.0 is Some
            &&& c.1 is Some
            &&& c.0.unwrap().0 == recipient
            &&& c.1.unwrap().0 != recipient
            &&& (entries[0].0 == recipient ==> c == (
                Some(entries[0]),
                Some(entries[1]),
            ))
            &&& (entries[1].0 == recipient ==> c == (
                Some(entries[1]),
                Some(entries[0]),
            ))
        }),
{
    let first = entries.drop_last();
    assert(first.len() == 1);
    assert(first[0] == entries[0]);
    assert(classify_rec(first.drop_last(), recipient) == (
        None::<(Seq<char>, u64)>,
        None::<(Seq<char>, u64)>,
    ));
    assert(first.last() == entries[0]);
    assert(entries.last() == entries[1]);
    if entries[0].0 == recipient {
        assert(classify_rec(first, recipient) == (
            Some(entries[0]),
            None::<(Seq<char>, u64)>,
        ));
        assert(classify_rec(entries, recipient) == (Some(entries[0]), Some(entries[1])));
    } else {
        assert(classify_rec(first, recipient) == (
            None::<(Seq<char>, u64)>,
            Some(entries[0]),
        ));
        assert(classify_rec(entries, recipient) == (Some(entries[1]), Some(entries[0])));
    }
}

} // verus!
