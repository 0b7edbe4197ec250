use vstd::prelude::*;

use crate::error::Error;
use crate::hashing::blake2b_ckb;
use crate::transition::{
    first_governed_output_index, governed_input_count, governed_output_count,
    lemma_single_governed, output_is_governed, Transition,
};
use crate::validator::{spec_entry_code, spec_validate_type_id};

verus! {

/// Mint identity: when a transition consumes no governed cell, produces
/// exactly one governed cell, at position `i`, and satisfies the
/// authorization binding, validation accepts exactly when the identity
/// declared in the first 32 args bytes equals the digest of the first
/// input's serialized form followed by `i` as eight little-endian bytes.
pub proof fn lemma_mint_identity(tx: Transition, own_hash: Seq<u8>, i: int)
    requires
        governed_input_count(tx.inputs@, own_hash) == 0,
        0 <= i < tx.outputs@.len(),
        output_is_governed(tx.outputs@[i], own_hash),
        forall|j: int|
            0 <= j < tx.outputs@.len() && j != i ==> !output_is_governed(
                #[trigger] tx.outputs@[j],
                own_hash,
            ),
        tx.inputs@.len() > 0,
        tx.args@.len() >= 64,
        tx.outputs@[i].lock_hash@ == tx.args@.subrange(32, 64),
    ensures
        spec_entry_code(tx, own_hash) == if tx.args@.subrange(0, 32) == blake2b_ckb(
            tx.inputs@[0].serialized@ + vstd::bytes::spec_u64_to_le_bytes(i as u64),
        ) {
            0int
        } else {
            21int
        },
{
    lemma_single_governed(tx.outputs@, own_hash, 0, i);
}

/// Update invariance: when a transition consumes exactly one governed cell
/// and produces exactly one, the declared identity is carried forward with
/// no digest entering the outcome, which is decided by the args length and
/// the authorization binding alone.
pub proof fn lemma_update_invariance(tx: Transition, own_hash: Seq<u8>)
    requires
        governed_input_count(tx.inputs@, own_hash) == 1,
        governed_output_count(tx.outputs@, own_hash) == 1,
        tx.args@.len() >= 32,
    ensures
        spec_entry_code(tx, own_hash) == if tx.args@.len() < 64 {
            22int
        } else if tx.outputs@[first_governed_output_index(tx.outputs@, own_hash)].lock_hash@
            == tx.args@.subrange(32, 64) {
            0int
        } else {
            23int
        },
{
}

/// No destroy: a transition that consumes a governed cell and produces none
/// is rejected for its cardinality, whatever identity is declared and
/// whatever the rest of the transition holds.  The host-level code is 20
/// provided the args reach the 32 bytes needed to load a declared identity
/// at all; shorter args are rejected for their length before any rule runs.
pub proof fn lemma_no_destroy(tx: Transition, own_hash: Seq<u8>, type_id: Seq<u8>)
    requires
        governed_input_count(tx.inputs@, own_hash) == 1,
        governed_output_count(tx.outputs@, own_hash) == 0,
    ensures
        spec_validate_type_id(tx, own_hash, type_id) == Result::<(), Error>::Err(
            Error::InvalidTypeIDCellNum,
        ),
        tx.args@.len() >= 32 ==> spec_entry_code(tx, own_hash) == 20,
{
}

/// Cardinality first: a transition of the wrong shape — more than one
/// governed input, or not exactly one governed output — is rejected with
/// the cardinality code whatever identity it declares; a mismatched
/// identity can never surface once cardinality is violated.
pub proof fn lemma_cardinality_first(tx: Transition, own_hash: Seq<u8>, type_id: Seq<u8>)
    requires
        governed_input_count(tx.inputs@, own_hash) >= 2 || governed_output_count(
            tx.outputs@,
            own_hash,
        ) != 1,
    ensures
        spec_validate_type_id(tx, own_hash, type_id) == Result::<(), Error>::Err(
            Error::InvalidTypeIDCellNum,
        ),
        tx.args@.len() >= 32 ==> spec_entry_code(tx, own_hash) == 20,
{
}

/// Authorization binding: whenever the type ID rules themselves pass but
/// the governed output's lock hash differs from the authorization hash
/// required in the args, the outcome is the authorization code.
pub proof fn lemma_authorization_binding(tx: Transition, own_hash: Seq<u8>)
    requires
        tx.args@.len() >= 64,
        spec_validate_type_id(tx, own_hash, tx.args@.subrange(0, 32)) == Result::<(), Error>::Ok(
            (),
        ),
        tx.outputs@[first_governed_output_index(tx.outputs@, own_hash)].lock_hash@
            != tx.args@.subrange(32, 64),
    ensures
        spec_entry_code(tx, own_hash) == 23,
{
}

} // verus!
