use vstd::prelude::*;

use crate::error::Error;
use crate::hashing::{blake2b_ckb, compute_expected_type_id};
use crate::transition::{
    first_governed_output_index, first_governed_output_index_from, governed_input_count,
    governed_input_count_from, governed_output_count, governed_output_count_from,
    input_is_governed, lemma_found_index_properties, lemma_none_found_iff_count_zero,
    output_is_governed, InputCell, OutputCell, Transition,
};

verus! {

/// Whether two 32-byte hashes are equal.
pub fn bytes32_equal(a: &[u8; 32], b: &[u8; 32]) -> (r: bool)
    ensures
        r == (a@ == b@),
{
    let mut i: usize = 0;
    while i < 32
        invariant
            i <= 32,
            forall|j: int| 0 <= j < i ==> a@[j] == b@[j],
        decreases 32 - i,
    {
        if a[i] != b[i] {
            return false;
        }
        i = i + 1;
    }
    proof {
        assert(a@ =~= b@);
    }
    true
}

/// Reads the 32 bytes of `data` that start at `offset`.
fn read_32_at(data: &[u8], offset: usize) -> (r: [u8; 32])
    requires
        offset + 32 <= data@.len(),
    ensures
        r@ == data@.subrange(offset as int, offset as int + 32),
{
    let n: usize = data.len();
    let mut ret: [u8; 32] = [0; 32];
    let mut i: usize = 0;
    while i < 32
        invariant
            i <= 32,
            offset + 32 <= n == data@.len(),
            ret@.len() == 32,
            forall|j: int| 0 <= j < i ==> ret@[j] == data@[offset + j],
        decreases 32 - i,
    {
        ret[i] = data[offset + i];
        i = i + 1;
    }
    proof {
        assert(ret@ =~= data@.subrange(offset as int, offset as int + 32));
    }
    ret
}

/// Whether the governed group holds at least `n` of the consumed cells.
pub fn group_input_count_at_least(tx: &Transition, own_hash: &[u8; 32], n: usize) -> (r: bool)
    ensures
        r == (governed_input_count(tx.inputs@, own_hash@) >= n),
{
    let mut count: usize = 0;
    let mut i: usize = 0;
    while i < tx.inputs.len()
        invariant
            i <= tx.inputs@.len(),
            count <= i,
            governed_input_count(tx.inputs@, own_hash@) == count + governed_input_count_from(
                tx.inputs@,
                own_hash@,
                i as int,
            ),
        decreases tx.inputs@.len() - i,
    {
        let governed = match &tx.inputs[i].kind {
            Some(k) => bytes32_equal(k, own_hash),
            None => false,
        };
        if governed {
            count = count + 1;
        }
        i = i + 1;
    }
    count >= n
}

/// Whether the governed group holds at least `n` of the produced cells.
pub fn group_output_count_at_least(tx: &Transition, own_hash: &[u8; 32], n: usize) -> (r: bool)
    ensures
        r == (governed_output_count(tx.outputs@, own_hash@) >= n),
{
    let mut count: usize = 0;
    let mut i: usize = 0;
    while i < tx.outputs.len()
        invariant
            i <= tx.outputs@.len(),
            count <= i,
            governed_output_count(tx.outputs@, own_hash@) == count + governed_output_count_from(
                tx.outputs@,
                own_hash@,
                i as int,
            ),
        decreases tx.outputs@.len() - i,
    {
        let governed = match &tx.outputs[i].kind {
            Some(k) => bytes32_equal(k, own_hash),
            None => false,
        };
        if governed {
            count = count + 1;
        }
        i = i + 1;
    }
    count >= n
}

/// Scans the produced cells in order for the first one whose kind tag hash
/// equals the executing validator's own identity hash, and fails if there is
/// none, as the read layer does when a scan runs past the last cell.
pub fn locate_first_type_id_output_index(tx: &Transition, own_hash: &[u8; 32]) -> (r: Result<
    usize,
    Error,
>)
    ensures
        match r {
            Ok(i) => first_governed_output_index(tx.outputs@, own_hash@) == i as int,
            Err(e) => first_governed_output_index(tx.outputs@, own_hash@) == -1 && e
                == Error::IndexOutOfBound,
        },
{
    let mut i: usize = 0;
    while i < tx.outputs.len()
        invariant
            i <= tx.outputs@.len(),
            first_governed_output_index(tx.outputs@, own_hash@)
                == first_governed_output_index_from(tx.outputs@, own_hash@, i as int),
        decreases tx.outputs@.len() - i,
    {
        let governed = match &tx.outputs[i].kind {
            Some(k) => bytes32_equal(k, own_hash),
            None => false,
        };
        if governed {
            return Ok(i);
        }
        i = i + 1;
    }
    Err(Error::IndexOutOfBound)
}

/// What `validate_type_id` decides, given the transition, the executing
/// validator's own identity hash, and the type id declared in args: first
/// the cardinality rules, then, only when no governed cell is consumed (a
/// mint), the freshly derived identity must equal the declared one.
pub open spec fn spec_validate_type_id(
    tx: Transition,
    own_hash: Seq<u8>,
    type_id: Seq<u8>,
) -> Result<(), Error> {
    if governed_input_count(tx.inputs@, own_hash) >= 2 {
        Err(Error::InvalidTypeIDCellNum)
    } else if governed_output_count(tx.outputs@, own_hash) != 1 {
        Err(Error::InvalidTypeIDCellNum)
    } else if governed_input_count(tx.inputs@, own_hash) == 0 {
        if tx.inputs@.len() == 0 {
            Err(Error::IndexOutOfBound)
        } else {
            let idx = first_governed_output_index(tx.outputs@, own_hash);
            let expected = blake2b_ckb(
                tx.inputs@[0].serialized@ + vstd::bytes::spec_u64_to_le_bytes(idx as u64),
            );
            if expected == type_id {
                Ok(())
            } else {
                Err(Error::TypeIDNotMatch)
            }
        }
    } else {
        Ok(())
    }
}

/// Checks the transition against the type ID rules under the given declared
/// 32-byte type id: at most one governed input, exactly one governed output,
/// and, on a mint, a declared identity equal to the digest of the first
/// input's serialized form and the governed output's position.
pub fn validate_type_id(tx: &Transition, own_hash: &[u8; 32], type_id: &[u8; 32]) -> (r: Result<
    (),
    Error,
>)
    ensures
        r == spec_validate_type_id(*tx, own_hash@, type_id@),
{
    if group_input_count_at_least(tx, own_hash, 2) {
        return Err(Error::InvalidTypeIDCellNum);
    }
    if !group_output_count_at_least(tx, own_hash, 1) || group_output_count_at_least(
        tx,
        own_hash,
        2,
    ) {
        return Err(Error::InvalidTypeIDCellNum);
    }
    if !group_input_count_at_least(tx, own_hash, 1) {
        // A new type ID cell is being minted: its declared identity must be
        // freshly derived from this very transition.
        let index = match locate_first_type_id_output_index(tx, own_hash) {
            Ok(i) => i,
            Err(e) => {
                proof {
                    lemma_none_found_iff_count_zero(tx.outputs@, own_hash@, 0);
                }
                return Err(e);
            },
        };
        if tx.inputs.len() == 0 {
            return Err(Error::IndexOutOfBound);
        }
        let expected = compute_expected_type_id(tx.inputs[0].serialized.as_slice(), index as u64);
        if !bytes32_equal(&expected, type_id) {
            return Err(Error::TypeIDNotMatch);
        }
    }
    Ok(())
}

/// Reads the declared 32-byte type id out of the script args, starting at
/// `offset`; the args must reach at least `offset + 32` bytes.
pub fn load_type_id_from_script_args(args: &Vec<u8>, offset: usize) -> (r: Result<[u8; 32], Error>)
    ensures
        match r {
            Ok(id) => offset + 32 <= args@.len() && id@ == args@.subrange(
                offset as int,
                offset as int + 32,
            ),
            Err(e) => offset + 32 > args@.len() && e == Error::ArgsLengthNotEnough,
        },
{
    if args.len() < 32 || offset > args.len() - 32 {
        return Err(Error::ArgsLengthNotEnough);
    }
    Ok(read_32_at(args.as_slice(), offset))
}

/// Reads the required 32-byte authorization hash out of the script args,
/// starting at `offset`; the args must reach at least `offset + 32` bytes.
pub fn load_always_success_from_script_args(args: &Vec<u8>, offset: usize) -> (r: Result<
    [u8; 32],
    Error,
>)
    ensures
        match r {
            Ok(h) => offset + 32 <= args@.len() && h@ == args@.subrange(
                offset as int,
                offset as int + 32,
            ),
            Err(e) => offset + 32 > args@.len() && e == Error::ArgsLengthNotEnough,
        },
{
    if args.len() < 32 || offset > args.len() - 32 {
        return Err(Error::ArgsLengthNotEnough);
    }
    Ok(read_32_at(args.as_slice(), offset))
}

/// The status code the host observes for a transition: `0` on acceptance,
/// or the code of the first rejection reason in evaluation order — declared
/// type id, cardinality and mint identity, required authorization hash, and
/// last the authorization binding of the governed output.
pub open spec fn spec_entry_code(tx: Transition, own_hash: Seq<u8>) -> int {
    if tx.args@.len() < 32 {
        Error::ArgsLengthNotEnough.spec_code()
    } else {
        match spec_validate_type_id(tx, own_hash, tx.args@.subrange(0, 32)) {
            Err(e) => e.spec_code(),
            Ok(_) => if tx.args@.len() < 64 {
                Error::ArgsLengthNotEnough.spec_code()
            } else {
                let idx = first_governed_output_index(tx.outputs@, own_hash);
                if tx.outputs@[idx].lock_hash@ == tx.args@.subrange(32, 64) {
                    0
                } else {
                    Error::InvalidTypeIDLock.spec_code()
                }
            },
        }
    }
}

/// Runs the whole validation against a transition view and the executing
/// validator's own identity hash, and reports the status code the host
/// turns into the process exit status.
pub fn program_entry(tx: &Transition, own_hash: &[u8; 32]) -> (code: i8)
    ensures
        code as int == spec_entry_code(*tx, own_hash@),
{
    let type_id = match load_type_id_from_script_args(&tx.args, 0) {
        Ok(id) => id,
        Err(e) => {
            return e.code();
        },
    };
    match validate_type_id(tx, own_hash, &type_id) {
        Ok(_) => {},
        Err(e) => {
            return e.code();
        },
    }
    let always_success = match load_always_success_from_script_args(&tx.args, 32) {
        Ok(h) => h,
        Err(e) => {
            return e.code();
        },
    };
    // The cardinality rules just passed, so a governed output exists and the
    // scan cannot run out of cells.
    let index = match locate_first_type_id_output_index(tx, own_hash) {
        Ok(i) => i,
        Err(e) => {
            proof {
                lemma_none_found_iff_count_zero(tx.outputs@, own_hash@, 0);
            }
            return e.code();
        },
    };
    proof {
        lemma_found_index_properties(tx.outputs@, own_hash@, 0);
    }
    let lock_hash = &tx.outputs[index].lock_hash;
    if bytes32_equal(lock_hash, &always_success) {
        0
    } else {
        Error::InvalidTypeIDLock.code()
    }
}

} // verus!
