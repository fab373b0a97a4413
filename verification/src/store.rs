//! A file held in memory, with the cursor and positional semantics that the
//! backends share.

use vstd::prelude::*;
use crate::action::{Action, ActionView};
use crate::block::copy_range;

verus! {

/// Why an operation on a file failed.
#[derive(Clone, Copy, Debug, PartialEq, Eq, Structural)]
pub enum IoFailure {
    /// The file does not exist.
    NotFound,
    /// Fewer bytes than asked for lie between the position and the end.
    ShortRead,
    /// The block cannot be stored in full.
    ShortWrite,
}

/// `bytes` after `block` was written at offset `at`: the block replaces what
/// was there, a gap between the old end and `at` reads as zeros, and an
/// empty block changes nothing.
pub open spec fn overlay(bytes: Seq<u8>, at: nat, block: Seq<u8>) -> Seq<u8> {
    if block.len() == 0 {
        bytes
    } else {
        Seq::new(
            if bytes.len() >= at + block.len() {
                bytes.len()
            } else {
                at + block.len()
            },
            |i: int|
                if at <= i < at + block.len() {
                    block[i - at]
                } else if i < bytes.len() {
                    bytes[i]
                } else {
                    0u8
                },
        )
    }
}

/// What a file is: whether it exists, what it holds and where its cursor
/// stands.
pub struct FileState {
    pub present: bool,
    pub bytes: Seq<u8>,
    pub cursor: nat,
}

impl FileState {
    /// No file.
    pub open spec fn absent() -> FileState {
        FileState { present: false, bytes: Seq::empty(), cursor: 0 }
    }

    /// A file that was just created: empty, cursor at the start.
    pub open spec fn created() -> FileState {
        FileState { present: true, bytes: Seq::empty(), cursor: 0 }
    }

    /// What writing `block` at `at` answers. Only a store that cannot hold
    /// the end of the block refuses.
    pub open spec fn write_answer(self, at: nat, block: Seq<u8>) -> Result<(), IoFailure> {
        if !self.present {
            Err(IoFailure::NotFound)
        } else if block.len() > 0 && at + block.len() > usize::MAX {
            Err(IoFailure::ShortWrite)
        } else {
            Ok(())
        }
    }

    /// What reading `len` bytes at `at` answers.
    pub open spec fn read_answer(self, at: nat, len: nat) -> Result<Seq<u8>, IoFailure> {
        if !self.present {
            Err(IoFailure::NotFound)
        } else if len == 0 {
            Ok(Seq::empty())
        } else if at + len > self.bytes.len() {
            Err(IoFailure::ShortRead)
        } else {
            Ok(self.bytes.subrange(at as int, (at + len) as int))
        }
    }

    /// Where a read of `len` bytes at the cursor leaves the cursor: behind
    /// what it read, which on a short read is the end of the file.
    pub open spec fn cursor_after_read(self, len: nat) -> nat {
        if !self.present {
            self.cursor
        } else if self.cursor + len <= self.bytes.len() {
            self.cursor + len
        } else if self.cursor < self.bytes.len() {
            self.bytes.len()
        } else {
            self.cursor
        }
    }

    /// What the file answers to an action: the bytes read, nothing for any
    /// other success, or the failure.
    pub open spec fn answer(self, action: ActionView) -> Result<Seq<u8>, IoFailure> {
        match action {
            ActionView::Create => Ok(Seq::empty()),
            ActionView::SeekEnd | ActionView::SeekStart { .. } | ActionView::Sync => {
                if self.present {
                    Ok(Seq::empty())
                } else {
                    Err(IoFailure::NotFound)
                }
            },
            ActionView::Write { block } => match self.write_answer(self.cursor, block) {
                Ok(_) => Ok(Seq::empty()),
                Err(e) => Err(e),
            },
            ActionView::WriteAt { block, offset } => match self.write_answer(offset as nat, block) {
                Ok(_) => Ok(Seq::empty()),
                Err(e) => Err(e),
            },
            ActionView::Read { len } => self.read_answer(self.cursor, len as nat),
            ActionView::ReadAt { len, offset } => self.read_answer(offset as nat, len as nat),
            ActionView::Begin(_) | ActionView::Finish(_) | ActionView::Done | ActionView::Abort => Ok(
                Seq::empty(),
            ),
        }
    }

    /// The file after an action. A failed action leaves it as it was, but
    /// for the cursor after a short read.
    pub open spec fn after(self, action: ActionView) -> FileState {
        match action {
            ActionView::Create => FileState::created(),
            ActionView::SeekEnd => if self.present {
                FileState { cursor: self.bytes.len(), ..self }
            } else {
                self
            },
            ActionView::SeekStart { offset } => if self.present {
                FileState { cursor: offset as nat, ..self }
            } else {
                self
            },
            ActionView::Write { block } => if self.write_answer(self.cursor, block) is Ok {
                FileState {
                    bytes: overlay(self.bytes, self.cursor, block),
                    cursor: self.cursor + block.len(),
                    ..self
                }
            } else {
                self
            },
            ActionView::WriteAt { block, offset } => if self.write_answer(offset as nat, block) is Ok {
                FileState { bytes: overlay(self.bytes, offset as nat, block), ..self }
            } else {
                self
            },
            ActionView::Read { len } => FileState {
                cursor: self.cursor_after_read(len as nat),
                ..self
            },
            _ => self,
        }
    }
}

/// A file in memory. It stands for the file of any backend: the cursor
/// operations and the positional ones work on the same bytes.
#[derive(Debug)]
pub struct BlockFile {
    present: bool,
    bytes: Vec<u8>,
    cursor: u64,
}

impl View for BlockFile {
    type V = FileState;

    closed spec fn view(&self) -> FileState {
        FileState { present: self.present, bytes: self.bytes@, cursor: self.cursor as nat }
    }
}

/// Writes `block` into `bytes` at `at`, growing `bytes` as needed.
fn store_block(bytes: &mut Vec<u8>, at: usize, block: &Vec<u8>)
    requires
        at + block.len() <= usize::MAX,
    ensures
        final(bytes)@ == overlay(old(bytes)@, at as nat, block@),
{
    if block.len() == 0 {
        return ;
    }
    while bytes.len() < at
        invariant
            old(bytes)@.len() <= bytes@.len(),
            bytes@.len() <= at || bytes@.len() == old(bytes)@.len(),
            forall|j: int| 0 <= j < old(bytes)@.len() ==> bytes@[j] == old(bytes)@[j],
            forall|j: int| old(bytes)@.len() <= j < bytes@.len() ==> bytes@[j] == 0u8,
        decreases at - bytes@.len(),
    {
        bytes.push(0u8);
    }
    let mut i: usize = 0;
    while i < block.len()
        invariant
            i <= block@.len(),
            at + block@.len() <= usize::MAX,
            at <= bytes@.len(),
            old(bytes)@.len() <= bytes@.len(),
            at + i <= bytes@.len(),
            bytes@.len() <= old(bytes)@.len() || bytes@.len() <= at + i,
            forall|j: int| at <= j < at + i ==> bytes@[j] == block@[j - at],
            forall|j: int|
                0 <= j < bytes@.len() && !(at <= j < at + i) ==> bytes@[j] == (if j < old(
                    bytes,
                )@.len() {
                    old(bytes)@[j]
                } else {
                    0u8
                }),
        decreases block@.len() - i,
    {
        let b: u8 = block[i];
        if at + i < bytes.len() {
            bytes[at + i] = b;
        } else {
            bytes.push(b);
        }
        i += 1;
    }
    assert(bytes@ =~= overlay(old(bytes)@, at as nat, block@));
}

impl BlockFile {
    /// A path at which there is no file yet.
    pub fn absent() -> (r: BlockFile)
        ensures
            r@ == FileState::absent(),
    {
        BlockFile { present: false, bytes: Vec::new(), cursor: 0 }
    }

    /// A path at which a file with the given contents was left behind.
    pub fn holding(bytes: Vec<u8>) -> (r: BlockFile)
        ensures
            r@ == (FileState { present: true, bytes: bytes@, cursor: 0 }),
    {
        BlockFile { present: true, bytes, cursor: 0 }
    }

    /// Whether the file exists.
    pub fn is_present(&self) -> (r: bool)
        ensures
            r == self@.present,
    {
        self.present
    }

    /// The size of the file in bytes.
    pub fn size(&self) -> (r: usize)
        ensures
            r == self@.bytes.len(),
    {
        self.bytes.len()
    }

    /// Where the cursor stands.
    pub fn cursor(&self) -> (r: u64)
        ensures
            r == self@.cursor,
    {
        self.cursor
    }

    /// What the file holds.
    pub fn contents(&self) -> (r: &Vec<u8>)
        ensures
            r@ == self@.bytes,
    {
        &self.bytes
    }

    /// Deletes the file if it is there and creates it anew: whatever the
    /// path held before, the file is now empty.
    pub fn create(&mut self)
        ensures
            final(self)@ == FileState::created(),
    {
        self.present = true;
        self.bytes = Vec::new();
        self.cursor = 0;
    }

    /// Moves the cursor to the end of the file.
    pub fn seek_end(&mut self) -> (r: Result<(), IoFailure>)
        ensures
            final(self)@ == old(self)@.after(ActionView::SeekEnd),
            r is Ok <==> old(self)@.present,
            r matches Err(e) ==> e == IoFailure::NotFound,
    {
        if !self.present {
            return Err(IoFailure::NotFound);
        }
        self.cursor = self.bytes.len() as u64;
        Ok(())
    }

    /// Moves the cursor to `offset`, which may lie beyond the end.
    pub fn seek_start(&mut self, offset: u64) -> (r: Result<(), IoFailure>)
        ensures
            final(self)@ == old(self)@.after(ActionView::SeekStart { offset }),
            r is Ok <==> old(self)@.present,
            r matches Err(e) ==> e == IoFailure::NotFound,
    {
        if !self.present {
            return Err(IoFailure::NotFound);
        }
        self.cursor = offset;
        Ok(())
    }

    /// Writes the whole block at `offset` and leaves the cursor alone.
    pub fn write_at(&mut self, block: &Vec<u8>, offset: u64) -> (r: Result<(), IoFailure>)
        ensures
            r == old(self)@.write_answer(offset as nat, block@),
            final(self)@ == old(self)@.after(ActionView::WriteAt { block: block@, offset }),
    {
        if !self.present {
            return Err(IoFailure::NotFound);
        }
        if block.len() == 0 {
            return Ok(());
        }
        if offset > usize::MAX as u64 || block.len() > usize::MAX - (offset as usize) {
            return Err(IoFailure::ShortWrite);
        }
        store_block(&mut self.bytes, offset as usize, block);
        Ok(())
    }

    /// Writes the whole block at the cursor and moves the cursor behind it.
    pub fn write(&mut self, block: &Vec<u8>) -> (r: Result<(), IoFailure>)
        ensures
            r == old(self)@.write_answer(old(self)@.cursor, block@),
            final(self)@ == old(self)@.after(ActionView::Write { block: block@ }),
    {
        if !self.present {
            return Err(IoFailure::NotFound);
        }
        if block.len() == 0 {
            return Ok(());
        }
        if self.cursor > usize::MAX as u64 || block.len() > usize::MAX - (self.cursor as usize) {
            return Err(IoFailure::ShortWrite);
        }
        store_block(&mut self.bytes, self.cursor as usize, block);
        self.cursor = self.cursor + block.len() as u64;
        Ok(())
    }

    /// Reads exactly `len` bytes at `offset` and leaves the cursor alone.
    pub fn read_at(&self, len: usize, offset: u64) -> (r: Result<Vec<u8>, IoFailure>)
        ensures
            match r {
                Ok(data) => self@.read_answer(offset as nat, len as nat) == Ok::<
                    Seq<u8>,
                    IoFailure,
                >(data@),
                Err(e) => self@.read_answer(offset as nat, len as nat) == Err::<
                    Seq<u8>,
                    IoFailure,
                >(e),
            },
    {
        if !self.present {
            return Err(IoFailure::NotFound);
        }
        if len == 0 {
            return Ok(Vec::new());
        }
        let size = self.bytes.len();
        if offset > size as u64 || len > size - (offset as usize) {
            return Err(IoFailure::ShortRead);
        }
        Ok(copy_range(&self.bytes, offset as usize, len))
    }

    /// Reads exactly `len` bytes at the cursor and moves the cursor behind
    /// them.
    pub fn read(&mut self, len: usize) -> (r: Result<Vec<u8>, IoFailure>)
        ensures
            match r {
                Ok(data) => old(self)@.read_answer(old(self)@.cursor, len as nat) == Ok::<
                    Seq<u8>,
                    IoFailure,
                >(data@),
                Err(e) => old(self)@.read_answer(old(self)@.cursor, len as nat) == Err::<
                    Seq<u8>,
                    IoFailure,
                >(e),
            },
            final(self)@ == old(self)@.after(ActionView::Read { len }),
    {
        let r = self.read_at(len, self.cursor);
        if self.present {
            let size = self.bytes.len();
            if self.cursor <= size as u64 && len <= size - (self.cursor as usize) {
                self.cursor = self.cursor + len as u64;
            } else if self.cursor < size as u64 {
                self.cursor = size as u64;
            }
        }
        r
    }

    /// Makes what was written durable. In memory there is nothing to do.
    pub fn sync(&mut self) -> (r: Result<(), IoFailure>)
        ensures
            final(self)@ == old(self)@,
            r is Ok <==> old(self)@.present,
            r matches Err(e) ==> e == IoFailure::NotFound,
    {
        if self.present {
            Ok(())
        } else {
            Err(IoFailure::NotFound)
        }
    }

    /// Performs an action on the file and answers with the bytes read, with
    /// nothing for any other success, or with the failure.
    pub fn perform(&mut self, action: &Action) -> (r: Result<Vec<u8>, IoFailure>)
        ensures
            final(self)@ == old(self)@.after(action@),
            match r {
                Ok(data) => old(self)@.answer(action@) == Ok::<Seq<u8>, IoFailure>(data@),
                Err(e) => old(self)@.answer(action@) == Err::<Seq<u8>, IoFailure>(e),
            },
    {
        match action {
            Action::Create => {
                self.create();
                Ok(Vec::new())
            },
            Action::SeekEnd => match self.seek_end() {
                Ok(_) => Ok(Vec::new()),
                Err(e) => Err(e),
            },
            Action::SeekStart { offset } => match self.seek_start(*offset) {
                Ok(_) => Ok(Vec::new()),
                Err(e) => Err(e),
            },
            Action::Write { block } => match self.write(block) {
                Ok(_) => Ok(Vec::new()),
                Err(e) => Err(e),
            },
            Action::WriteAt { block, offset } => match self.write_at(block, *offset) {
                Ok(_) => Ok(Vec::new()),
                Err(e) => Err(e),
            },
            Action::Read { len } => self.read(*len),
            Action::ReadAt { len, offset } => self.read_at(*len, *offset),
            Action::Sync => match self.sync() {
                Ok(_) => Ok(Vec::new()),
                Err(e) => Err(e),
            },
            Action::Begin(_) | Action::Finish(_) | Action::Done | Action::Abort => Ok(Vec::new()),
        }
    }
}

} // verus!
