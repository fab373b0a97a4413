//! What the file of a run holds: blocks laid out one after the other, and
//! later blocks written over them.

use vstd::prelude::*;
use crate::plan::Config;
use crate::script::{UpdateView, WorkloadView};
use crate::store::overlay;

verus! {

/// The first `n` blocks one after the other: what the file holds once they
/// were pushed.
pub open spec fn laid_out(blocks: Seq<Seq<u8>>, n: nat) -> Seq<u8>
    decreases n,
{
    if n == 0 {
        Seq::empty()
    } else {
        laid_out(blocks, (n - 1) as nat) + blocks[n - 1]
    }
}

/// `base` after the first `n` updates were written over it in order, each
/// at the offset of its block index.
pub open spec fn revised(base: Seq<u8>, updates: Seq<UpdateView>, n: nat, size: nat) -> Seq<u8>
    decreases n,
{
    if n == 0 {
        base
    } else {
        overlay(
            revised(base, updates, (n - 1) as nat, size),
            (updates[n - 1].index * size) as nat,
            updates[n - 1].block,
        )
    }
}

/// What the file holds when a run under `config` is complete.
pub open spec fn final_contents(config: Config, workload: WorkloadView) -> Seq<u8> {
    revised(
        laid_out(workload.pushes, config.count as nat),
        workload.updates,
        config.count as nat,
        config.block_size as nat,
    )
}

/// Blocks of one size laid out take the space of their number times the size.
pub proof fn lemma_laid_out_len(blocks: Seq<Seq<u8>>, n: nat, size: nat)
    requires
        n <= blocks.len(),
        forall|i: int| 0 <= i < blocks.len() ==> (#[trigger] blocks[i]).len() == size,
    ensures
        laid_out(blocks, n).len() == n * size,
    decreases n,
{
    if n > 0 {
        lemma_laid_out_len(blocks, (n - 1) as nat, size);
        assert(blocks[n - 1].len() == size);
        assert((n - 1) * size + size == n * size) by (nonlinear_arith);
    } else {
        assert(0 * size == 0) by (nonlinear_arith);
    }
}

/// Writing block `n` at its offset behind the first `n` blocks lays out one
/// block more.
pub proof fn lemma_laid_out_append(blocks: Seq<Seq<u8>>, n: nat, size: nat)
    requires
        n < blocks.len(),
        forall|i: int| 0 <= i < blocks.len() ==> (#[trigger] blocks[i]).len() == size,
    ensures
        overlay(laid_out(blocks, n), n * size, blocks[n as int]) == laid_out(blocks, n + 1),
{
    lemma_laid_out_len(blocks, n, size);
    assert(overlay(laid_out(blocks, n), n * size, blocks[n as int]) =~= laid_out(blocks, n)
        + blocks[n as int]);
}

/// Block `i` of a layout lies at offset `i * size`.
pub proof fn lemma_laid_out_read(blocks: Seq<Seq<u8>>, n: nat, i: nat, size: nat)
    requires
        i < n <= blocks.len(),
        forall|k: int| 0 <= k < blocks.len() ==> (#[trigger] blocks[k]).len() == size,
    ensures
        i * size + size <= laid_out(blocks, n).len(),
        laid_out(blocks, n).subrange((i * size) as int, (i * size + size) as int) == blocks[i as int],
    decreases n,
{
    let before = laid_out(blocks, (n - 1) as nat);
    lemma_laid_out_len(blocks, (n - 1) as nat, size);
    lemma_laid_out_len(blocks, n, size);
    assert(i * size + size <= n * size) by (nonlinear_arith)
        requires
            i < n,
    ;
    if i == n - 1 {
        assert(laid_out(blocks, n).subrange((i * size) as int, (i * size + size) as int)
            =~= blocks[i as int]);
    } else {
        lemma_laid_out_read(blocks, (n - 1) as nat, i, size);
        assert(laid_out(blocks, n).subrange((i * size) as int, (i * size + size) as int)
            =~= before.subrange((i * size) as int, (i * size + size) as int));
    }
}

/// Updates at block offsets inside a file do not change its size.
pub proof fn lemma_revised_len(
    base: Seq<u8>,
    updates: Seq<UpdateView>,
    n: nat,
    size: nat,
    count: nat,
)
    requires
        n <= updates.len(),
        base.len() == count * size,
        forall|i: int| 0 <= i < updates.len() ==> (#[trigger] updates[i]).block.len() == size,
        forall|i: int| 0 <= i < updates.len() ==> (#[trigger] updates[i]).index < count,
    ensures
        revised(base, updates, n, size).len() == base.len(),
    decreases n,
{
    if n > 0 {
        lemma_revised_len(base, updates, (n - 1) as nat, size, count);
        let index = updates[n - 1].index as nat;
        assert(index * size + size <= count * size) by (nonlinear_arith)
            requires
                index < count,
        ;
    }
}

} // verus!
