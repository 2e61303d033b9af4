//! An allocator of slot indices in which every slot counts how often it
//! has been handed out again.

use vstd::prelude::*;

verus! {

/// A slot together with the generation in which it was handed out.
#[derive(Debug, Clone, Copy, PartialEq, Eq, Structural)]
pub struct GenerationalIndex {
    pub index: usize,
    pub generation: u64,
}

/// What the allocator records of one slot.
#[derive(Debug, Clone, Copy, PartialEq, Eq, Structural)]
pub struct AllocatorEntry {
    pub is_live: bool,
    pub generation: u64,
}

impl AllocatorEntry {
    /// Marks the slot live in its next generation and returns that
    /// generation.
    pub fn update(&mut self) -> (generation: u64)
        requires
            old(self).generation < u64::MAX,
        ensures
            final(self).is_live,
            final(self).generation == old(self).generation + 1,
            generation == final(self).generation,
    {
        self.is_live = true;
        self.generation += 1;
        self.generation
    }
}

/// Hands out slots, reusing the ones given back before opening new ones.
#[derive(Debug)]
pub struct GenerationalIndexAllocator {
    entries: Vec<AllocatorEntry>,
    free: Vec<usize>,
}

impl GenerationalIndexAllocator {
    /// The record of every slot opened so far.
    pub closed spec fn entries(&self) -> Seq<AllocatorEntry> {
        self.entries@
    }

    /// The slots given back and not yet handed out again, last in first
    /// out.
    pub closed spec fn free(&self) -> Seq<usize> {
        self.free@
    }

    /// Every free slot exists and is not live, and no slot is free twice.
    pub open spec fn wf(&self) -> bool {
        &&& forall|i: int|
            0 <= i < self.free().len() ==> (#[trigger] self.free()[i]) < self.entries().len()
                && !self.entries()[self.free()[i] as int].is_live
        &&& forall|i: int, j: int|
            0 <= i < j < self.free().len() ==> self.free()[i] != self.free()[j]
    }

    /// Whether a slot can be handed out: the slot next in line for reuse
    /// has a generation left.
    pub open spec fn can_allocate(&self) -> bool {
        self.free().len() > 0 ==> self.entries()[self.free().last() as int].generation
            < u64::MAX
    }

    /// An allocator with no slots.
    pub fn new() -> (allocator: Self)
        ensures
            allocator.wf(),
            allocator.entries() == Seq::<AllocatorEntry>::empty(),
            allocator.free() == Seq::<usize>::empty(),
    {
        GenerationalIndexAllocator { entries: Vec::new(), free: Vec::new() }
    }

    /// Hands out a slot. The slot given back last is reused in its next
    /// generation; when none is free a new slot is opened in generation 0.
    pub fn allocate(&mut self) -> (index: GenerationalIndex)
        requires
            old(self).wf(),
            old(self).can_allocate(),
        ensures
            final(self).wf(),
            final(self).entries()[index.index as int] == (AllocatorEntry {
                is_live: true,
                generation: index.generation,
            }),
            old(self).free().len() > 0 ==> {
                &&& index.index == old(self).free().last()
                &&& index.generation == old(self).entries()[index.index as int].generation + 1
                &&& final(self).free() == old(self).free().drop_last()
                &&& final(self).entries() == old(self).entries().update(
                    index.index as int,
                    final(self).entries()[index.index as int],
                )
            },
            old(self).free().len() == 0 ==> {
                &&& index.index == old(self).entries().len()
                &&& index.generation == 0
                &&& final(self).free() == old(self).free()
                &&& final(self).entries() == old(self).entries().push(
                    final(self).entries()[index.index as int],
                )
            },
    {
        match self.free.pop() {
            Some(i) => {
                assert(i == old(self).free()[old(self).free().len() - 1]);
                let mut entry = self.entries[i];
                let new_generation = entry.update();
                self.entries.set(i, entry);
                proof {
                    assert forall|k: int| 0 <= k < self.free().len() implies (
                    #[trigger] self.free()[k]) < self.entries().len()
                        && !self.entries()[self.free()[k] as int].is_live by {
                        assert(self.free()[k] == old(self).free()[k]);
                        assert(old(self).free()[k] != old(self).free()[old(self).free().len()
                            - 1]);
                    }
                }
                GenerationalIndex { index: i, generation: new_generation }
            },
            None => {
                let index = self.entries.len();
                self.entries.push(AllocatorEntry { is_live: true, generation: 0 });
                GenerationalIndex { index, generation: 0 }
            },
        }
    }

    /// Gives a slot back. Returns true if the slot was live and is now
    /// free, false if it was not live, in which case nothing changes. The
    /// generation of `index` is not consulted.
    pub fn deallocate(&mut self, index: GenerationalIndex) -> (freed: bool)
        requires
            old(self).wf(),
            index.index < old(self).entries().len(),
        ensures
            final(self).wf(),
            freed == old(self).entries()[index.index as int].is_live,
            freed ==> {
                &&& final(self).entries() == old(self).entries().update(
                    index.index as int,
                    AllocatorEntry {
                        is_live: false,
                        generation: old(self).entries()[index.index as int].generation,
                    },
                )
                &&& final(self).free() == old(self).free().push(index.index)
            },
            !freed ==> {
                &&& final(self).entries() == old(self).entries()
                &&& final(self).free() == old(self).free()
            },
    {
        let entry = self.entries[index.index];
        if entry.is_live == false {
            false
        } else {
            self.entries.set(
                index.index,
                AllocatorEntry { is_live: false, generation: entry.generation },
            );
            self.free.push(index.index);
            proof {
                assert forall|k: int| 0 <= k < old(self).free().len() implies old(self).free()[k]
                    != index.index by {
                    assert(!old(self).entries()[old(self).free()[k] as int].is_live);
                }
                assert forall|k: int| 0 <= k < self.free().len() implies (
                #[trigger] self.free()[k]) < self.entries().len()
                    && !self.entries()[self.free()[k] as int].is_live by {
                    if k < old(self).free().len() {
                        assert(self.free()[k] == old(self).free()[k]);
                    }
                }
                assert forall|i: int, j: int| 0 <= i < j < self.free().len() implies self.free()[i]
                    != self.free()[j] by {
                    assert(self.free()[i] == old(self).free()[i]);
                    if j < old(self).free().len() {
                        assert(self.free()[j] == old(self).free()[j]);
                    }
                }
            }
            true
        }
    }

    /// Whether the slot of `index` is live.
    pub fn is_live(&self, index: GenerationalIndex) -> (live: bool)
        requires
            index.index < self.entries().len(),
        ensures
            live == self.entries()[index.index as int].is_live,
    {
        self.entries[index.index].is_live
    }
}

} // verus!
