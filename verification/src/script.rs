//! A workload written down in advance: the blocks and indices that each
//! iteration of a run gets, in place of random ones.

use vstd::prelude::*;
use crate::plan::{Config, Scenario};
use crate::block::copy_block;
use crate::workload::{Draw, DrawView, WorkloadGenerator};

verus! {

/// What one iteration of the update scenario gets: a block and the index of
/// the block that it replaces.
#[derive(Debug)]
pub struct Update {
    pub block: Vec<u8>,
    pub index: usize,
}

/// An [`Update`] with its block as a sequence of bytes.
pub struct UpdateView {
    pub block: Seq<u8>,
    pub index: usize,
}

impl View for Update {
    type V = UpdateView;

    open spec fn view(&self) -> UpdateView {
        UpdateView { block: self.block@, index: self.index }
    }
}

/// The draws of a whole run, by scenario and iteration.
#[derive(Debug)]
pub struct Workload {
    /// The blocks that the push scenario appends, in order.
    pub pushes: Vec<Vec<u8>>,
    /// The indices that the random-read scenario reads at, in order.
    pub reads: Vec<usize>,
    /// What the update scenario writes, in order.
    pub updates: Vec<Update>,
}

/// A [`Workload`] as a mathematical value.
pub struct WorkloadView {
    pub pushes: Seq<Seq<u8>>,
    pub reads: Seq<usize>,
    pub updates: Seq<UpdateView>,
}

impl View for Workload {
    type V = WorkloadView;

    open spec fn view(&self) -> WorkloadView {
        WorkloadView {
            pushes: Seq::new(self.pushes@.len(), |i: int| self.pushes@[i]@),
            reads: self.reads@,
            updates: Seq::new(self.updates@.len(), |i: int| self.updates@[i]@),
        }
    }
}

impl WorkloadView {
    /// Whether the workload has exactly what a run under `config` draws:
    /// `count` draws for each scenario, every block of the configured size,
    /// every index below the block count.
    pub open spec fn fits(self, config: Config) -> bool {
        &&& self.pushes.len() == config.count
        &&& self.reads.len() == config.count
        &&& self.updates.len() == config.count
        &&& forall|i: int|
            0 <= i < self.pushes.len() ==> (#[trigger] self.pushes[i]).len() == config.block_size
        &&& forall|i: int| 0 <= i < self.reads.len() ==> #[trigger] self.reads[i] < config.count
        &&& forall|i: int|
            0 <= i < self.updates.len() ==> (#[trigger] self.updates[i]).block.len()
                == config.block_size
        &&& forall|i: int|
            0 <= i < self.updates.len() ==> (#[trigger] self.updates[i]).index < config.count
    }

    /// How many iterations of `scenario` the workload covers. Iterating the
    /// blocks draws nothing, so any number is covered.
    pub open spec fn covers(self, scenario: Scenario, index: int) -> bool {
        match scenario {
            Scenario::PushBytes => 0 <= index < self.pushes.len(),
            Scenario::IterateBlocks => true,
            Scenario::RandomRead => 0 <= index < self.reads.len(),
            Scenario::RandomUpdate => 0 <= index < self.updates.len(),
        }
    }

    /// What iteration `index` of `scenario` draws.
    pub open spec fn draw(self, scenario: Scenario, index: int) -> DrawView {
        match scenario {
            Scenario::PushBytes => DrawView::Block(self.pushes[index]),
            Scenario::IterateBlocks => DrawView::Nothing,
            Scenario::RandomRead => DrawView::Index(self.reads[index]),
            Scenario::RandomUpdate => DrawView::BlockAndIndex(
                self.updates[index].block,
                self.updates[index].index,
            ),
        }
    }
}

impl Workload {
    /// Whether the workload has exactly what a run under `config` draws.
    pub fn fits(&self, config: &Config) -> (r: bool)
        ensures
            r == self@.fits(*config),
    {
        let count: usize = config.count;
        let size: usize = config.block_size;
        if self.pushes.len() != count || self.reads.len() != count || self.updates.len() != count {
            return false;
        }
        let mut i: usize = 0;
        while i < count
            invariant
                i <= count,
                count == config.count,
                size == config.block_size,
                self.pushes@.len() == count,
                self.reads@.len() == count,
                self.updates@.len() == count,
                forall|j: int| 0 <= j < i ==> (#[trigger] self@.pushes[j]).len() == size,
                forall|j: int| 0 <= j < i ==> #[trigger] self@.reads[j] < count,
                forall|j: int| 0 <= j < i ==> (#[trigger] self@.updates[j]).block.len() == size,
                forall|j: int| 0 <= j < i ==> (#[trigger] self@.updates[j]).index < count,
            decreases count - i,
        {
            if self.pushes[i].len() != size || self.reads[i] >= count || self.updates[i].block.len()
                != size || self.updates[i].index >= count {
                assert(self@.pushes[i as int] == self.pushes@[i as int]@);
                assert(self@.updates[i as int] == self.updates@[i as int]@);
                return false;
            }
            assert(self@.pushes[i as int] == self.pushes@[i as int]@);
            assert(self@.updates[i as int] == self.updates@[i as int]@);
            i += 1;
        }
        true
    }

    /// What iteration `index` of `scenario` draws, or `None` where the
    /// workload holds no such iteration.
    pub fn draw(&self, scenario: Scenario, index: usize) -> (r: Option<Draw>)
        ensures
            r is Some <==> self@.covers(scenario, index as int),
            r matches Some(d) ==> d@ == self@.draw(scenario, index as int),
    {
        match scenario {
            Scenario::PushBytes => {
                if index < self.pushes.len() {
                    Some(Draw::Block(copy_block(&self.pushes[index])))
                } else {
                    None
                }
            },
            Scenario::IterateBlocks => Some(Draw::Nothing),
            Scenario::RandomRead => {
                if index < self.reads.len() {
                    Some(Draw::Index(self.reads[index]))
                } else {
                    None
                }
            },
            Scenario::RandomUpdate => {
                if index < self.updates.len() {
                    let update = &self.updates[index];
                    Some(Draw::BlockAndIndex(copy_block(&update.block), update.index))
                } else {
                    None
                }
            },
        }
    }

    /// Draws a whole workload for `config` from `generator`, scenario by
    /// scenario and in the order in which a run would draw it.
    pub fn random(generator: &mut WorkloadGenerator, config: &Config) -> (r: Workload)
        ensures
            r@.fits(*config),
    {
        let count: usize = config.count;
        let size: usize = config.block_size;
        let mut pushes: Vec<Vec<u8>> = Vec::new();
        let mut reads: Vec<usize> = Vec::new();
        let mut updates: Vec<Update> = Vec::new();
        let mut i: usize = 0;
        while i < count
            invariant
                i <= count,
                pushes@.len() == i,
                forall|j: int| 0 <= j < i ==> (#[trigger] pushes@[j])@.len() == size,
            decreases count - i,
        {
            let block = generator.next_block(size);
            pushes.push(block);
            i += 1;
        }
        i = 0;
        while i < count
            invariant
                i <= count,
                reads@.len() == i,
                forall|j: int| 0 <= j < i ==> #[trigger] reads@[j] < count,
            decreases count - i,
        {
            let index = generator.next_index(count);
            reads.push(index);
            i += 1;
        }
        i = 0;
        while i < count
            invariant
                i <= count,
                updates@.len() == i,
                forall|j: int| 0 <= j < i ==> (#[trigger] updates@[j])@.block.len() == size,
                forall|j: int| 0 <= j < i ==> (#[trigger] updates@[j])@.index < count,
            decreases count - i,
        {
            let block = generator.next_block(size);
            let index = generator.next_index(count);
            updates.push(Update { block, index });
            i += 1;
        }
        Workload { pushes, reads, updates }
    }
}

} // verus!
