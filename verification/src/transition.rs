use vstd::prelude::*;

verus! {

/// A consumed cell, as the validator sees it: the canonical serialized form
/// of the transition's reference to it, and the 32-byte hash of the kind tag
/// ("type script") attached to the cell it consumes, if any.
pub struct InputCell {
    pub serialized: Vec<u8>,
    pub kind: Option<[u8; 32]>,
}

/// A produced cell, as the validator sees it: the 32-byte hash of its
/// authorization tag ("lock script") and the hash of its kind tag, if any.
pub struct OutputCell {
    pub lock_hash: [u8; 32],
    pub kind: Option<[u8; 32]>,
}

/// A read-only view of a proposed state transition: its consumed inputs and
/// produced outputs in transition order, and the parameter bytes ("args")
/// attached to the kind tag under which this validator was invoked.
pub struct Transition {
    pub inputs: Vec<InputCell>,
    pub outputs: Vec<OutputCell>,
    pub args: Vec<u8>,
}

/// Whether a consumed cell belongs to the governed group: its kind tag hash
/// equals the executing validator's own identity hash.
pub open spec fn input_is_governed(c: InputCell, own_hash: Seq<u8>) -> bool {
    c.kind matches Some(k) && k@ == own_hash
}

/// Whether a produced cell belongs to the governed group.
pub open spec fn output_is_governed(c: OutputCell, own_hash: Seq<u8>) -> bool {
    c.kind matches Some(k) && k@ == own_hash
}

/// How many of the consumed cells from position `k` on are governed.
pub open spec fn governed_input_count_from(cells: Seq<InputCell>, own_hash: Seq<u8>, k: int) -> nat
    decreases cells.len() - k,
{
    if k < 0 || k >= cells.len() {
        0
    } else {
        (if input_is_governed(cells[k], own_hash) {
            1nat
        } else {
            0nat
        }) + governed_input_count_from(cells, own_hash, k + 1)
    }
}

/// How many of the consumed cells are governed.
pub open spec fn governed_input_count(cells: Seq<InputCell>, own_hash: Seq<u8>) -> nat {
    governed_input_count_from(cells, own_hash, 0)
}

/// How many of the produced cells from position `k` on are governed.
pub open spec fn governed_output_count_from(cells: Seq<OutputCell>, own_hash: Seq<u8>, k: int) -> nat
    decreases cells.len() - k,
{
    if k < 0 || k >= cells.len() {
        0
    } else {
        (if output_is_governed(cells[k], own_hash) {
            1nat
        } else {
            0nat
        }) + governed_output_count_from(cells, own_hash, k + 1)
    }
}

/// How many of the produced cells are governed.
pub open spec fn governed_output_count(cells: Seq<OutputCell>, own_hash: Seq<u8>) -> nat {
    governed_output_count_from(cells, own_hash, 0)
}

/// The position of the first governed cell at or after position `k` among
/// the produced cells, or `-1` if there is none.
pub open spec fn first_governed_output_index_from(
    cells: Seq<OutputCell>,
    own_hash: Seq<u8>,
    k: int,
) -> int
    decreases cells.len() - k,
{
    if k < 0 || k >= cells.len() {
        -1
    } else if output_is_governed(cells[k], own_hash) {
        k
    } else {
        first_governed_output_index_from(cells, own_hash, k + 1)
    }
}

/// The position of the first governed cell among the produced cells, or `-1`
/// if there is none.
pub open spec fn first_governed_output_index(cells: Seq<OutputCell>, own_hash: Seq<u8>) -> int {
    first_governed_output_index_from(cells, own_hash, 0)
}

/// A search that starts at `k` finds no governed cell exactly when none of
/// the cells from `k` on counts as governed.
pub proof fn lemma_none_found_iff_count_zero(cells: Seq<OutputCell>, own_hash: Seq<u8>, k: int)
    ensures
        (first_governed_output_index_from(cells, own_hash, k) == -1) <==> (
        governed_output_count_from(cells, own_hash, k) == 0),
    decreases cells.len() - k,
{
    if k < 0 || k >= cells.len() {
    } else {
        lemma_none_found_iff_count_zero(cells, own_hash, k + 1);
    }
}

/// What a successful search means: the found position is in bounds, holds a
/// governed cell, and no earlier position from `k` on does.
pub proof fn lemma_found_index_properties(cells: Seq<OutputCell>, own_hash: Seq<u8>, k: int)
    requires
        first_governed_output_index_from(cells, own_hash, k) != -1,
    ensures
        k <= first_governed_output_index_from(cells, own_hash, k) < cells.len(),
        output_is_governed(cells[first_governed_output_index_from(cells, own_hash, k)], own_hash),
        forall|j: int|
            k <= j < first_governed_output_index_from(cells, own_hash, k) ==> !output_is_governed(
                #[trigger] cells[j],
                own_hash,
            ),
    decreases cells.len() - k,
{
    if k < 0 || k >= cells.len() {
    } else if output_is_governed(cells[k], own_hash) {
    } else {
        lemma_found_index_properties(cells, own_hash, k + 1);
    }
}

/// A cell that is governed while every other position from `k` on is not
/// pins down both the search and the count.
pub proof fn lemma_single_governed(cells: Seq<OutputCell>, own_hash: Seq<u8>, k: int, i: int)
    requires
        0 <= k <= i < cells.len(),
        output_is_governed(cells[i], own_hash),
        forall|j: int|
            k <= j < cells.len() && j != i ==> !output_is_governed(#[trigger] cells[j], own_hash),
    ensures
        first_governed_output_index_from(cells, own_hash, k) == i,
        governed_output_count_from(cells, own_hash, k) == 1,
    decreases i - k,
{
    if k == i {
        lemma_count_zero_after(cells, own_hash, i + 1, i);
    } else {
        lemma_single_governed(cells, own_hash, k + 1, i);
    }
}

/// From a position past which no cell is governed, the count is zero.
proof fn lemma_count_zero_after(cells: Seq<OutputCell>, own_hash: Seq<u8>, k: int, i: int)
    requires
        forall|j: int|
            k <= j < cells.len() && j != i ==> !output_is_governed(#[trigger] cells[j], own_hash),
        i < k,
    ensures
        governed_output_count_from(cells, own_hash, k) == 0,
    decreases cells.len() - k,
{
    if k < 0 || k >= cells.len() {
    } else {
        lemma_count_zero_after(cells, own_hash, k + 1, i);
    }
}

} // verus!
