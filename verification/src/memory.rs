//! The memory bus abstraction: byte-addressed backing stores that can be
//! read, written, stepped and reset, and the address-space router that
//! composes several stores into one 16-bit address space by start-address
//! ranges.

use vstd::prelude::*;

verus! {

use vstd::pervasive::VecAdditionalExecFns;

/// Mathematical model of a backing store: the unmapped store, a block of
/// bytes, or a router over (start address, store) entries in declaration
/// order.
pub enum MemModel {
    Null,
    Block { data: Seq<u8>, writable: bool },
    Branch { mapping: Seq<(usize, MemModel)> },
}

/// The byte a store yields at `address`: unmapped reads return 0; a block
/// reads within its length and 0 beyond it; a router delegates to the entry
/// with the greatest start address at most `address` (the last such entry
/// in declaration order), at the offset from that start.
pub open spec fn mem_read(m: MemModel, address: u16) -> u8
    decreases m,
{
    match m {
        MemModel::Null => 0,
        MemModel::Block { data, writable } => if (address as int) < data.len() {
            data[address as int]
        } else {
            0
        },
        MemModel::Branch { mapping } => branch_read(mapping, address),
    }
}

/// Router read: the last entry whose start is at most `address` wins;
/// with no qualifying entry the access is unmapped and reads 0.
pub open spec fn branch_read(mapping: Seq<(usize, MemModel)>, address: u16) -> u8
    decreases mapping,
{
    if mapping.len() == 0 {
        0
    } else if mapping.last().0 <= address as usize {
        mem_read(mapping.last().1, (address - mapping.last().0) as u16)
    } else {
        branch_read(mapping.drop_last(), address)
    }
}

/// The store after writing `value` at `address`: writes to the unmapped
/// store, beyond a block's length, or to a read-only block are silently
/// dropped; a router delegates as reads do.
pub open spec fn mem_write(m: MemModel, address: u16, value: u8) -> MemModel
    decreases m,
{
    match m {
        MemModel::Null => m,
        MemModel::Block { data, writable } => if writable && (address as int) < data.len() {
            MemModel::Block { data: data.update(address as int, value), writable }
        } else {
            m
        },
        MemModel::Branch { mapping } => MemModel::Branch {
            mapping: branch_write(mapping, address, value),
        },
    }
}

/// Router write: only the selected entry's store changes.
pub open spec fn branch_write(mapping: Seq<(usize, MemModel)>, address: u16, value: u8) -> Seq<
    (usize, MemModel),
>
    decreases mapping,
{
    if mapping.len() == 0 {
        mapping
    } else if mapping.last().0 <= address as usize {
        mapping.drop_last().push(
            (
                mapping.last().0,
                mem_write(mapping.last().1, (address - mapping.last().0) as u16, value),
            ),
        )
    } else {
        branch_write(mapping.drop_last(), address, value).push(mapping.last())
    }
}

/// The store after one device step: the unmapped store and plain blocks
/// hold no internal clock; a router steps every contained store.
pub open spec fn mem_tick(m: MemModel) -> MemModel
    decreases m,
{
    match m {
        MemModel::Null => m,
        MemModel::Block { .. } => m,
        MemModel::Branch { mapping } => MemModel::Branch { mapping: branch_tick(mapping) },
    }
}

/// Router step: every contained store is stepped, in declaration order.
pub open spec fn branch_tick(mapping: Seq<(usize, MemModel)>) -> Seq<(usize, MemModel)>
    decreases mapping,
{
    if mapping.len() == 0 {
        mapping
    } else {
        branch_tick(mapping.drop_last()).push(
            (mapping.last().0, mem_tick(mapping.last().1)),
        )
    }
}

/// The store at power-on: the unmapped store and plain blocks keep their
/// contents; a router resets every contained store.
pub open spec fn mem_reset(m: MemModel) -> MemModel
    decreases m,
{
    match m {
        MemModel::Null => m,
        MemModel::Block { .. } => m,
        MemModel::Branch { mapping } => MemModel::Branch { mapping: branch_reset(mapping) },
    }
}

/// Router reset: every contained store is reset, in declaration order.
pub open spec fn branch_reset(mapping: Seq<(usize, MemModel)>) -> Seq<(usize, MemModel)>
    decreases mapping,
{
    if mapping.len() == 0 {
        mapping
    } else {
        branch_reset(mapping.drop_last()).push(
            (mapping.last().0, mem_reset(mapping.last().1)),
        )
    }
}

/// The index of the router entry that serves `address`: the last entry in
/// declaration order whose start address is at most `address`.
pub open spec fn route(mapping: Seq<(usize, MemModel)>, address: u16) -> Option<int>
    decreases mapping,
{
    if mapping.len() == 0 {
        None
    } else if mapping.last().0 <= address as usize {
        Some(mapping.len() - 1)
    } else {
        route(mapping.drop_last(), address)
    }
}

/// Whether a write at `address` lands in backing storage rather than
/// being silently dropped: it reaches a writable block within its length.
pub open spec fn writable_at(m: MemModel, address: u16) -> bool
    decreases m,
{
    match m {
        MemModel::Null => false,
        MemModel::Block { data, writable } => writable && (address as int) < data.len(),
        MemModel::Branch { mapping } => branch_writable_at(mapping, address),
    }
}

/// Router counterpart of `writable_at`: whether the entry that serves
/// `address` lands the write.
pub open spec fn branch_writable_at(mapping: Seq<(usize, MemModel)>, address: u16) -> bool
    decreases mapping,
{
    if mapping.len() == 0 {
        false
    } else if mapping.last().0 <= address as usize {
        writable_at(mapping.last().1, (address - mapping.last().0) as u16)
    } else {
        branch_writable_at(mapping.drop_last(), address)
    }
}

/// Read after write, through any composition of stores: a write that lands
/// is read back at its own address, a write changes the byte at no other
/// address, and a write changes which addresses land writes not at all.
pub proof fn lemma_mem_write_read(m: MemModel, a: u16, b: u16, v: u8)
    ensures
        writable_at(m, a) ==> mem_read(mem_write(m, a, v), a) == v,
        a != b ==> mem_read(mem_write(m, a, v), b) == mem_read(m, b),
        writable_at(mem_write(m, a, v), b) == writable_at(m, b),
    decreases m,
{
    match m {
        MemModel::Null => (),
        MemModel::Block { .. } => (),
        MemModel::Branch { mapping } => {
            lemma_branch_write_read(mapping, a, b, v);
        },
    }
}

/// Router counterpart of `lemma_mem_write_read`.
proof fn lemma_branch_write_read(mapping: Seq<(usize, MemModel)>, a: u16, b: u16, v: u8)
    ensures
        branch_writable_at(mapping, a) ==> branch_read(branch_write(mapping, a, v), a) == v,
        a != b ==> branch_read(branch_write(mapping, a, v), b) == branch_read(mapping, b),
        branch_writable_at(branch_write(mapping, a, v), b) == branch_writable_at(mapping, b),
    decreases mapping,
{
    if mapping.len() > 0 {
        let last = mapping.last();
        if last.0 <= a as usize {
            let written = (last.0, mem_write(last.1, (a - last.0) as u16, v));
            let bw = mapping.drop_last().push(written);
            assert(bw.last() == written);
            assert(bw.drop_last() =~= mapping.drop_last());
            lemma_mem_write_read(last.1, (a - last.0) as u16, (b - last.0) as u16, v);
        } else {
            let bw = branch_write(mapping.drop_last(), a, v).push(last);
            assert(bw.last() == last);
            assert(bw.drop_last() =~= branch_write(mapping.drop_last(), a, v));
            lemma_branch_write_read(mapping.drop_last(), a, b, v);
        }
    }
}

/// A backing store: always-zero unmapped storage, a block of bytes, or an
/// address-space router composing further stores.
pub enum Memory {
    Null(NullMemory),
    Block(BlockMemory),
    Branch(BranchMemory),
}

/// The model of an executable store.
pub open spec fn mem_model(m: Memory) -> MemModel
    decreases m,
{
    match m {
        Memory::Null(n) => MemModel::Null,
        Memory::Block(b) => MemModel::Block { data: b.data@, writable: b.writable },
        Memory::Branch(b) => MemModel::Branch { mapping: entries_model(b.mapping@) },
    }
}

/// The model of a router's entry list, entry by entry.
pub open spec fn entries_model(entries: Seq<(usize, Memory)>) -> Seq<(usize, MemModel)>
    decreases entries,
{
    if entries.len() == 0 {
        Seq::empty()
    } else {
        entries_model(entries.drop_last()).push(
            (entries.last().0, mem_model(entries.last().1)),
        )
    }
}

impl View for Memory {
    type V = MemModel;

    open spec fn view(&self) -> MemModel {
        mem_model(*self)
    }
}

/// An always-unmapped store: reads return 0 and writes are dropped.
pub struct NullMemory {}

impl NullMemory {
    /// A fresh unmapped store.
    pub fn new() -> NullMemory {
        NullMemory {}
    }

    /// Unmapped reads return 0.
    pub fn read(&self, _address: u16) -> (r: u8)
        ensures
            r == 0,
    {
        0
    }

    /// Unmapped writes are dropped.
    pub fn write(&mut self, _address: u16, _value: u8)
        ensures
            (*final(self) == *old(self)),
    {
    }

    /// The unmapped store holds no internal clock.
    pub fn tick(&mut self)
        ensures
            (*final(self) == *old(self)),
    {
    }

    /// The unmapped store has no state to restore.
    pub fn reset(&mut self)
        ensures
            (*final(self) == *old(self)),
    {
    }
}

/// A block of byte storage: reads within the block's length return its
/// bytes and 0 beyond them; writes land within the block when it is
/// writable and are dropped otherwise (a read-only block models ROM).
pub struct BlockMemory {
    pub data: Vec<u8>,
    pub writable: bool,
}

impl View for BlockMemory {
    type V = Seq<u8>;

    open spec fn view(&self) -> Seq<u8> {
        self.data@
    }
}

impl BlockMemory {
    /// A block over the given bytes; `writable` false models ROM.
    pub fn new(data: Vec<u8>, writable: bool) -> (r: BlockMemory)
        ensures
            r@ == data@,
            r.writable == writable,
    {
        BlockMemory { data, writable }
    }

    /// Reads a byte of the block, or 0 past its length.
    pub fn read(&self, address: u16) -> (r: u8)
        ensures
            r == mem_read(MemModel::Block { data: self@, writable: self.writable }, address),
    {
        if (address as usize) < self.data.len() {
            self.data[address as usize]
        } else {
            0
        }
    }

    /// Writes a byte of the block; writes past its length or to a
    /// read-only block are dropped.
    pub fn write(&mut self, address: u16, value: u8)
        ensures
            final(self).writable == old(self).writable,
            (MemModel::Block { data: final(self)@, writable: final(self).writable })
                == mem_write(
                (MemModel::Block { data: old(self)@, writable: old(self).writable }),
                address,
                value,
            ),
    {
        if self.writable && (address as usize) < self.data.len() {
            self.data.set(address as usize, value);
        }
    }

    /// A plain block holds no internal clock.
    pub fn tick(&mut self)
        ensures
            *final(self) == *old(self),
    {
    }

    /// A plain block keeps its contents as its power-on state.
    pub fn reset(&mut self)
        ensures
            *final(self) == *old(self),
    {
    }
}

/// The address-space router: holds (start address, store) entries in
/// declaration order and serves each access through the entry with the
/// greatest start address at most the requested address.
pub struct BranchMemory {
    pub mapping: Vec<(usize, Memory)>,
}

impl View for BranchMemory {
    type V = Seq<(usize, MemModel)>;

    open spec fn view(&self) -> Seq<(usize, MemModel)> {
        entries_model(self.mapping@)
    }
}

/// The model of an entry list, given entry by entry.
pub proof fn lemma_entries_model(entries: Seq<(usize, Memory)>)
    ensures
        entries_model(entries).len() == entries.len(),
        forall|j: int|
            0 <= j < entries.len() ==> #[trigger] entries_model(entries)[j] == (
                entries[j].0,
                mem_model(entries[j].1),
            ),
    decreases entries.len(),
{
    if entries.len() > 0 {
        lemma_entries_model(entries.drop_last());
    }
}

/// The entry `route` selects is the last one in declaration order whose
/// start address is at most the requested address, and a router read
/// delegates to it; with no qualifying entry the read is unmapped.
pub proof fn lemma_route_read(mapping: Seq<(usize, MemModel)>, address: u16)
    ensures
        (match route(mapping, address) {
            Some(i) => 0 <= i < mapping.len() && mapping[i].0 <= address as usize && branch_read(
                mapping,
                address,
            ) == mem_read(mapping[i].1, (address - mapping[i].0) as u16) && (forall|j: int|
                i < j < mapping.len() ==> (#[trigger] mapping[j]).0 > address as usize),
            None => branch_read(mapping, address) == 0 && (forall|j: int|
                0 <= j < mapping.len() ==> (#[trigger] mapping[j]).0 > address as usize),
        }),
    decreases mapping.len(),
{
    if mapping.len() > 0 && !(mapping.last().0 <= address as usize) {
        lemma_route_read(mapping.drop_last(), address);
        assert(forall|j: int|
            0 <= j < mapping.len() - 1 ==> mapping.drop_last()[j] == #[trigger] mapping[j]);
    }
}

/// A router write changes exactly the entry `route` selects, and drops the
/// byte when no entry qualifies.
pub proof fn lemma_route_write(mapping: Seq<(usize, MemModel)>, address: u16, value: u8)
    ensures
        (match route(mapping, address) {
            Some(i) => 0 <= i < mapping.len() && mapping[i].0 <= address as usize && branch_write(
                mapping,
                address,
                value,
            ) == mapping.update(
                i,
                (mapping[i].0, mem_write(mapping[i].1, (address - mapping[i].0) as u16, value)),
            ),
            None => branch_write(mapping, address, value) == mapping,
        }),
    decreases mapping.len(),
{
    if mapping.len() > 0 {
        if mapping.last().0 <= address as usize {
            let i = mapping.len() - 1;
            assert(branch_write(mapping, address, value) =~= mapping.update(
                i,
                (mapping[i].0, mem_write(mapping[i].1, (address - mapping[i].0) as u16, value)),
            ));
        } else {
            lemma_route_write(mapping.drop_last(), address, value);
            match route(mapping.drop_last(), address) {
                Some(i) => {
                    assert(branch_write(mapping, address, value) =~= mapping.update(
                        i,
                        (
                            mapping[i].0,
                            mem_write(mapping[i].1, (address - mapping[i].0) as u16, value),
                        ),
                    ));
                },
                None => {
                    assert(branch_write(mapping, address, value) =~= mapping);
                },
            }
        }
    }
}

/// A router step steps each entry's store in place.
pub proof fn lemma_branch_tick(mapping: Seq<(usize, MemModel)>)
    ensures
        branch_tick(mapping).len() == mapping.len(),
        forall|j: int|
            0 <= j < mapping.len() ==> #[trigger] branch_tick(mapping)[j] == (
                mapping[j].0,
                mem_tick(mapping[j].1),
            ),
    decreases mapping.len(),
{
    if mapping.len() > 0 {
        lemma_branch_tick(mapping.drop_last());
    }
}

/// A router reset resets each entry's store in place.
pub proof fn lemma_branch_reset(mapping: Seq<(usize, MemModel)>)
    ensures
        branch_reset(mapping).len() == mapping.len(),
        forall|j: int|
            0 <= j < mapping.len() ==> #[trigger] branch_reset(mapping)[j] == (
                mapping[j].0,
                mem_reset(mapping[j].1),
            ),
    decreases mapping.len(),
{
    if mapping.len() > 0 {
        lemma_branch_reset(mapping.drop_last());
    }
}

impl Memory {
    /// Reads one byte through the store; total, unmapped reads return 0.
    pub fn read(&self, address: u16) -> (r: u8)
        ensures
            r == mem_read(self@, address),
        decreases self,
    {
        match self {
            Memory::Null(n) => n.read(address),
            Memory::Block(b) => b.read(address),
            Memory::Branch(b) => b.read(address),
        }
    }

    /// Writes one byte through the store; total, writes to unmapped or
    /// read-only storage are silently dropped.
    pub fn write(&mut self, address: u16, value: u8)
        ensures
            final(self)@ == mem_write(old(self)@, address, value),
        decreases *old(self),
    {
        match self {
            Memory::Null(n) => n.write(address, value),
            Memory::Block(b) => b.write(address, value),
            Memory::Branch(b) => b.write(address, value),
        }
    }

    /// Advances any internal device state by one step.
    pub fn tick(&mut self)
        ensures
            final(self)@ == mem_tick(old(self)@),
        decreases *old(self),
    {
        match self {
            Memory::Null(n) => n.tick(),
            Memory::Block(b) => b.tick(),
            Memory::Branch(b) => b.tick(),
        }
    }

    /// Returns the store to its power-on state.
    pub fn reset(&mut self)
        ensures
            final(self)@ == mem_reset(old(self)@),
        decreases *old(self),
    {
        match self {
            Memory::Null(n) => n.reset(),
            Memory::Block(b) => b.reset(),
            Memory::Branch(b) => b.reset(),
        }
    }
}

impl BranchMemory {
    /// An empty router: every access is unmapped.
    pub fn new() -> (r: BranchMemory)
        ensures
            r@ == Seq::<(usize, MemModel)>::empty(),
    {
        BranchMemory { mapping: Vec::new() }
    }

    /// Attaches a store at a start address; a later entry with an
    /// equal-or-lower start shadows earlier ones for the addresses it
    /// covers.
    pub fn map(self, address: usize, memory: Memory) -> (r: BranchMemory)
        ensures
            r@ == self@.push((address, memory@)),
    {
        let ghost entries = self.mapping@;
        let mut mapping = self.mapping;
        mapping.push((address, memory));
        proof {
            assert(mapping@.drop_last() =~= entries);
        }
        BranchMemory { mapping }
    }

    /// Scans the entries in declaration order for the one that serves
    /// `address`: the last entry whose start is at most `address` wins.
    fn select(&self, address: u16) -> (r: Option<usize>)
        ensures
            (match r {
                Some(sel) => sel < self.mapping@.len() && self.mapping@[sel as int].0
                    <= address as usize && route(self@, address) == Some(sel as int),
                None => route(self@, address) is None,
            }),
    {
        proof {
            lemma_entries_model(self.mapping@);
        }
        let ghost model = self@;
        let mut found: Option<usize> = None;
        let mut i: usize = 0;
        while i < self.mapping.len()
            invariant
                i <= self.mapping@.len(),
                model == entries_model(self.mapping@),
                model.len() == self.mapping@.len(),
                forall|j: int|
                    0 <= j < model.len() ==> #[trigger] model[j] == (
                        self.mapping@[j].0,
                        mem_model(self.mapping@[j].1),
                    ),
                (match found {
                    Some(sel) => sel < i && self.mapping@[sel as int].0 <= address as usize
                        && route(model.take(i as int), address) == Some(sel as int),
                    None => route(model.take(i as int), address) is None,
                }),
            decreases self.mapping@.len() - i,
        {
            proof {
                let prefix = model.take(i as int + 1);
                assert(prefix.drop_last() =~= model.take(i as int));
                assert(prefix.last() == model[i as int]);
            }
            if self.mapping[i].0 <= address as usize {
                found = Some(i);
            }
            i += 1;
        }
        proof {
            assert(model.take(model.len() as int) =~= model);
        }
        found
    }

    /// Reads through the entry that serves `address`; unmapped reads
    /// return 0.
    pub fn read(&self, address: u16) -> (r: u8)
        ensures
            r == branch_read(self@, address),
        decreases self,
    {
        proof {
            lemma_entries_model(self.mapping@);
            lemma_route_read(self@, address);
        }
        match self.select(address) {
            Some(sel) => {
                let entry = &self.mapping[sel];
                entry.1.read(address - entry.0 as u16)
            },
            None => 0,
        }
    }

    /// Writes through the entry that serves `address`; unmapped writes are
    /// dropped.
    pub fn write(&mut self, address: u16, value: u8)
        ensures
            final(self)@ == branch_write(old(self)@, address, value),
        decreases *old(self),
    {
        proof {
            lemma_entries_model(self.mapping@);
            lemma_route_write(self@, address, value);
        }
        let ghost entries0 = self.mapping@;
        match self.select(address) {
            Some(sel) => {
                let mut entry = (0usize, Memory::Null(NullMemory {}));
                self.mapping.set_and_swap(sel, &mut entry);
                let (start, mut target) = entry;
                target.write(address - start as u16, value);
                let mut replaced = (start, target);
                self.mapping.set_and_swap(sel, &mut replaced);
                proof {
                    lemma_entries_model(self.mapping@);
                    assert(self@ =~= branch_write(entries_model(entries0), address, value));
                }
            },
            None => {},
        }
    }

    /// Steps every contained store, in declaration order.
    pub fn tick(&mut self)
        ensures
            final(self)@ == branch_tick(old(self)@),
        decreases *old(self),
    {
        let ghost entries0 = self.mapping@;
        let mut i: usize = 0;
        while i < self.mapping.len()
            invariant
                i <= entries0.len(),
                entries0 == old(self).mapping@,
                self.mapping@.len() == entries0.len(),
                forall|j: int| i as int <= j < entries0.len() ==> self.mapping@[j] == entries0[j],
                forall|j: int|
                    0 <= j < i as int ==> (#[trigger] self.mapping@[j]).0 == entries0[j].0
                        && mem_model(self.mapping@[j].1) == mem_tick(mem_model(entries0[j].1)),
            decreases entries0.len() - i,
        {
            let mut entry = (0usize, Memory::Null(NullMemory {}));
            self.mapping.set_and_swap(i, &mut entry);
            let (start, mut target) = entry;
            proof {
                assert(target == entries0[i as int].1);
                assert(decreases_to!(*old(self) => old(self).mapping));
                assert(decreases_to!(old(self).mapping => entries0));
                assert(decreases_to!(entries0 => entries0[i as int]));
                assert(decreases_to!(entries0[i as int] => target));
            }
            target.tick();
            let mut replaced = (start, target);
            self.mapping.set_and_swap(i, &mut replaced);
            i += 1;
        }
        proof {
            lemma_branch_tick(entries_model(entries0));
            lemma_entries_model(entries0);
            lemma_entries_model(self.mapping@);
            assert(entries_model(self.mapping@) =~= branch_tick(entries_model(entries0)));
        }
    }

    /// Resets every contained store, in declaration order.
    pub fn reset(&mut self)
        ensures
            final(self)@ == branch_reset(old(self)@),
        decreases *old(self),
    {
        let ghost entries0 = self.mapping@;
        let mut i: usize = 0;
        while i < self.mapping.len()
            invariant
                i <= entries0.len(),
                entries0 == old(self).mapping@,
                self.mapping@.len() == entries0.len(),
                forall|j: int| i as int <= j < entries0.len() ==> self.mapping@[j] == entries0[j],
                forall|j: int|
                    0 <= j < i as int ==> (#[trigger] self.mapping@[j]).0 == entries0[j].0
                        && mem_model(self.mapping@[j].1) == mem_reset(mem_model(entries0[j].1)),
            decreases entries0.len() - i,
        {
            let mut entry = (0usize, Memory::Null(NullMemory {}));
            self.mapping.set_and_swap(i, &mut entry);
            let (start, mut target) = entry;
            proof {
                assert(target == entries0[i as int].1);
                assert(decreases_to!(*old(self) => old(self).mapping));
                assert(decreases_to!(old(self).mapping => entries0));
                assert(decreases_to!(entries0 => entries0[i as int]));
                assert(decreases_to!(entries0[i as int] => target));
            }
            target.reset();
            let mut replaced = (start, target);
            self.mapping.set_and_swap(i, &mut replaced);
            i += 1;
        }
        proof {
            lemma_branch_reset(entries_model(entries0));
            lemma_entries_model(entries0);
            lemma_entries_model(self.mapping@);
            assert(entries_model(self.mapping@) =~= branch_reset(entries_model(entries0)));
        }
    }
}

} // verus!
