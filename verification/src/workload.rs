//! Where the blocks and block indices of a run come from: a random
//! generator, or a script that says in advance what each iteration gets.

use vstd::prelude::*;
use rand::Rng;
use rand::rngs::ThreadRng;
use crate::block::copy_block;
use crate::plan::{Config, Need};

verus! {

/// The thread-local generator of the `rand` crate. Nothing inside it is
/// visible here.
#[verifier::external_type_specification]
#[verifier::external_body]
pub struct ExThreadRng(ThreadRng);

/// `rand::rng` hands out a handle to the thread-local generator, which is
/// seeded from the operating system on first use. Nothing is claimed of the
/// handle.
pub assume_specification[ rand::rng ]() -> (r: ThreadRng)
;

/// `Rng::random::<u8>` draws one byte. Any byte may come back, so nothing is
/// claimed of it.
#[verifier::external_body]
fn random_byte(rng: &mut ThreadRng) -> (r: u8) {
    rng.random::<u8>()
}

/// `Rng::random_range` on `0..bound` draws an index below `bound`. The call
/// panics on an empty range, which `requires` leaves out; which index comes
/// back is open.
#[verifier::external_body]
fn random_below(rng: &mut ThreadRng, bound: usize) -> (r: usize)
    requires
        bound > 0,
    ensures
        r < bound,
{
    rng.random_range(0..bound)
}

/// What one iteration drew from its workload source.
#[derive(Debug, PartialEq, Eq)]
pub enum Draw {
    Nothing,
    Block(Vec<u8>),
    Index(usize),
    BlockAndIndex(Vec<u8>, usize),
}

/// A [`Draw`] with its block as a sequence of bytes.
pub enum DrawView {
    Nothing,
    Block(Seq<u8>),
    Index(usize),
    BlockAndIndex(Seq<u8>, usize),
}

impl View for Draw {
    type V = DrawView;

    open spec fn view(&self) -> DrawView {
        match *self {
            Draw::Nothing => DrawView::Nothing,
            Draw::Block(b) => DrawView::Block(b@),
            Draw::Index(i) => DrawView::Index(i),
            Draw::BlockAndIndex(b, i) => DrawView::BlockAndIndex(b@, i),
        }
    }
}

impl Clone for Draw {
    fn clone(&self) -> (r: Draw)
        ensures
            r@ == self@,
    {
        match self {
            Draw::Nothing => Draw::Nothing,
            Draw::Block(b) => Draw::Block(copy_block(b)),
            Draw::Index(i) => Draw::Index(*i),
            Draw::BlockAndIndex(b, i) => Draw::BlockAndIndex(copy_block(b), *i),
        }
    }
}

impl DrawView {
    /// The need that the draw answers.
    pub open spec fn need(self) -> Need {
        match self {
            DrawView::Nothing => Need::Nothing,
            DrawView::Block(_) => Need::Block,
            DrawView::Index(_) => Need::Index,
            DrawView::BlockAndIndex(_, _) => Need::BlockAndIndex,
        }
    }

    /// The block drawn; empty where none was.
    pub open spec fn block(self) -> Seq<u8> {
        match self {
            DrawView::Block(b) => b,
            DrawView::BlockAndIndex(b, _) => b,
            _ => Seq::empty(),
        }
    }

    /// The index drawn; zero where none was.
    pub open spec fn index(self) -> usize {
        match self {
            DrawView::Index(i) => i,
            DrawView::BlockAndIndex(_, i) => i,
            _ => 0,
        }
    }

    /// Whether the draw is what `need` asks for under `config`: a block of
    /// the configured size, an index below the block count.
    pub open spec fn fits(self, need: Need, config: Config) -> bool {
        &&& self.need() == need
        &&& need.has_block() ==> self.block().len() == config.block_size
        &&& need.has_index() ==> self.index() < config.count
    }
}

impl Draw {
    /// Whether the draw is what `need` asks for under `config`.
    pub fn fits(&self, need: Need, config: &Config) -> (r: bool)
        ensures
            r == self@.fits(need, *config),
    {
        match self {
            Draw::Nothing => need == Need::Nothing,
            Draw::Block(b) => need == Need::Block && b.len() == config.block_size,
            Draw::Index(i) => need == Need::Index && *i < config.count,
            Draw::BlockAndIndex(b, i) => need == Need::BlockAndIndex && b.len()
                == config.block_size && *i < config.count,
        }
    }
}

impl Draw {
    /// The block and the index of the draw; an empty block and index zero
    /// where it holds none.
    pub fn into_parts(self) -> (r: (Vec<u8>, usize))
        ensures
            r.0@ == self@.block(),
            r.1 == self@.index(),
    {
        match self {
            Draw::Nothing => (Vec::new(), 0),
            Draw::Block(b) => (b, 0),
            Draw::Index(i) => (Vec::new(), i),
            Draw::BlockAndIndex(b, i) => (b, i),
        }
    }
}

/// The random source of blocks and block indices.
pub struct WorkloadGenerator {
    rng: ThreadRng,
}

impl WorkloadGenerator {
    /// A generator on the thread-local random source. No seed can be given:
    /// two runs draw different data.
    pub fn new() -> (r: WorkloadGenerator) {
        WorkloadGenerator { rng: rand::rng() }
    }

    /// A block of `len` random bytes.
    pub fn next_block(&mut self, len: usize) -> (r: Vec<u8>)
        ensures
            r@.len() == len,
    {
        let mut block: Vec<u8> = Vec::with_capacity(len);
        let mut i: usize = 0;
        while i < len
            invariant
                i <= len,
                block@.len() == i,
            decreases len - i,
        {
            let byte: u8 = random_byte(&mut self.rng);
            block.push(byte);
            i += 1;
        }
        block
    }

    /// A random index in `[0, bound)`.
    pub fn next_index(&mut self, bound: usize) -> (r: usize)
        requires
            bound > 0,
        ensures
            r < bound,
    {
        random_below(&mut self.rng, bound)
    }

    /// Draws what `need` asks for: first the block, then the index.
    pub fn draw(&mut self, need: Need, config: &Config) -> (r: Draw)
        requires
            need.has_index() ==> config.count > 0,
        ensures
            r@.fits(need, *config),
    {
        match need {
            Need::Nothing => Draw::Nothing,
            Need::Block => Draw::Block(self.next_block(config.block_size)),
            Need::Index => Draw::Index(self.next_index(config.count)),
            Need::BlockAndIndex => {
                let block = self.next_block(config.block_size);
                let index = self.next_index(config.count);
                Draw::BlockAndIndex(block, index)
            },
        }
    }
}

} // verus!
