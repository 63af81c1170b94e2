//! The console's address space: a byte array overlaid with mirror rules,
//! write-protected regions and access hooks.

use vstd::prelude::*;

use crate::memory::hooks::fire;
use crate::memory::hooks::MemoryEvent;
use crate::memory::hooks::MemoryEventChannel;
use crate::memory::hooks::MemoryHook;
use crate::memory::hooks::MemoryOperation;

pub mod combinatorics;
pub mod hooks;
pub mod ines;
pub mod mappers;

verus! {

/// Size of the address space the processor sees.
pub const MEMORY_SIZE: usize = 0x10000;

/// Why an address space refused a change.
#[derive(PartialEq, Eq, Structural, Debug, Clone, Copy)]
pub enum MemoryError {
    /// The span to be mirrored overlaps a span that is mirrored already.
    MirrorOverlap,
}

/// Why a cartridge file could not be loaded.
#[derive(PartialEq, Eq, Structural, Debug, Clone, Copy)]
pub enum LoadError {
    /// The file is no cartridge file that this console reads.
    Cartridge(ines::iNESError),
    /// The cartridge's ROM banks cannot be mapped.
    Mapper(mappers::MapperError),
}

/// The half-open range of addresses `region_address .. region_address + region_size`.
#[derive(Debug, Clone, Copy)]
pub struct MemoryRegion {
    pub region_address: usize,
    pub region_size: usize,
}

impl MemoryRegion {
    /// Whether `address` lies in the region.
    pub open spec fn contains(&self, address: int) -> bool {
        self.region_address <= address < self.region_address + self.region_size
    }

    /// Whether the two regions overlap.
    pub open spec fn intersects(&self, region: MemoryRegion) -> bool {
        &&& self.region_address < region.region_address + region.region_size
        &&& region.region_address < self.region_address + self.region_size
    }

    /// Whether the two regions overlap.
    pub fn intersects_region(&self, region: &MemoryRegion) -> (r: bool)
        ensures
            r == self.intersects(*region),
    {
        let starts_before_end = self.region_address < region.region_address
            || self.region_address - region.region_address < region.region_size;
        let ends_after_start = region.region_address < self.region_address
            || region.region_address - self.region_address < self.region_size;
        starts_before_end && ends_after_start
    }

    /// Whether `address` lies in the region.
    pub fn inside_region(&self, address: usize) -> (r: bool)
        ensures
            r == self.contains(address as int),
    {
        address >= self.region_address && address - self.region_address < self.region_size
    }
}

/// Two regions that hold a common address overlap, and two overlapping
/// regions, neither of them empty, hold a common address.
pub proof fn lemma_intersects_iff_common_address(a: MemoryRegion, b: MemoryRegion)
    requires
        a.region_size > 0,
        b.region_size > 0,
    ensures
        a.intersects(b) <==> exists|address: int| a.contains(address) && b.contains(address),
        a.intersects(b) == b.intersects(a),
{
    if a.intersects(b) {
        let address = if a.region_address >= b.region_address {
            a.region_address as int
        } else {
            b.region_address as int
        };
        assert(a.contains(address) && b.contains(address));
    }
}

/// A range of addresses that silently drops writes.
#[derive(Debug, Clone, Copy)]
pub struct WriteProtectedRegion {
    pub protected_memory: MemoryRegion,
}

/// A rule that redirects every access inside `mirrored_memory` to the cell
/// at the same offset from the start of `physical_memory`.
#[derive(Debug, Clone, Copy)]
pub struct MemoryMirror {
    pub physical_memory: MemoryRegion,
    pub mirrored_memory: MemoryRegion,
}

impl MemoryMirror {
    /// The cell that an access at `address` inside the mirrored span reaches.
    pub open spec fn target(&self, address: int) -> int {
        self.physical_memory.region_address + (address - self.mirrored_memory.region_address)
    }

    /// Every address below `len` inside the mirrored span is redirected to a
    /// cell below `len`.
    pub open spec fn maps_into(&self, len: int) -> bool {
        forall|address: int|
            0 <= address < len && #[trigger] self.mirrored_memory.contains(address) ==> 0
                <= self.target(address) < len
    }
}

impl MemoryMirror {
    /// Whether every address below `len` inside the mirrored span is
    /// redirected to a cell below `len`.
    pub fn fits_within(&self, len: usize) -> (r: bool)
        ensures
            r == self.maps_into(len as int),
    {
        let start = self.mirrored_memory.region_address;
        let size = self.mirrored_memory.region_size;
        if size == 0 || start >= len {
            return true;
        }
        let last: usize = if size - 1 >= len - 1 - start {
            len - 1
        } else {
            start + (size - 1)
        };
        assert(self.mirrored_memory.contains(last as int));
        match self.physical_memory.region_address.checked_add(last - start) {
            Some(target) => target < len,
            None => false,
        }
    }
}

/// Whether the mirrored spans of two rules overlap.
pub open spec fn spans_overlap(first: MemoryMirror, second: MemoryMirror) -> bool {
    first.mirrored_memory.intersects(second.mirrored_memory)
}

/// An address space.
#[derive(Debug)]
pub struct MEM {
    pub data: Vec<u8>,
    pub mirroring: Vec<MemoryMirror>,
    pub write_protection: Vec<WriteProtectedRegion>,
    pub hooks: Vec<MemoryHook>,
    pub channels: Vec<MemoryEventChannel>,
}

/// The mathematical content of an address space.
#[verifier::ext_equal]
pub struct MemoryModel {
    pub data: Seq<u8>,
    pub mirroring: Seq<MemoryMirror>,
    pub write_protection: Seq<WriteProtectedRegion>,
    pub hooks: Seq<MemoryHook>,
    pub channels: Seq<Seq<MemoryEvent>>,
}

/// Rule `i` is the first of `mirroring` whose mirrored span holds `address`.
pub open spec fn first_mirror(mirroring: Seq<MemoryMirror>, i: int, address: int) -> bool {
    &&& 0 <= i < mirroring.len()
    &&& mirroring[i].mirrored_memory.contains(address)
    &&& forall|j: int| 0 <= j < i ==> !(#[trigger] mirroring[j]).mirrored_memory.contains(address)
}

/// Whether some rule of `mirroring` redirects `address`.
pub open spec fn mirrored(mirroring: Seq<MemoryMirror>, address: int) -> bool {
    exists|i: int| first_mirror(mirroring, i, address)
}

/// The rule of `mirroring` that redirects `address`, where one does.
pub open spec fn mirror_of(mirroring: Seq<MemoryMirror>, address: int) -> MemoryMirror {
    mirroring[choose|i: int| first_mirror(mirroring, i, address)]
}

/// The cell that an access at `address` reaches under `mirroring`: one
/// redirection hop where a rule applies, the address itself where none does.
pub open spec fn redirect(mirroring: Seq<MemoryMirror>, address: int) -> int {
    if mirrored(mirroring, address) {
        mirror_of(mirroring, address).target(address)
    } else {
        address
    }
}

/// Whether one of `regions` holds `address`.
pub open spec fn protected(regions: Seq<WriteProtectedRegion>, address: int) -> bool {
    exists|i: int|
        0 <= i < regions.len() && (#[trigger] regions[i]).protected_memory.contains(address)
}

impl MemoryModel {
    /// Rule `i` is the first mirror rule whose mirrored span holds `address`.
    pub open spec fn first_mirror(self, i: int, address: int) -> bool {
        first_mirror(self.mirroring, i, address)
    }

    /// Whether some mirror rule redirects `address`.
    pub open spec fn mirrored(self, address: int) -> bool {
        mirrored(self.mirroring, address)
    }

    /// The rule that redirects `address`, where one does.
    pub open spec fn mirror_of(self, address: int) -> MemoryMirror {
        mirror_of(self.mirroring, address)
    }

    /// The cell that an access at `address` reaches.
    pub open spec fn redirect(self, address: int) -> int {
        redirect(self.mirroring, address)
    }

    /// Whether a write at `address` is dropped.
    pub open spec fn protected(self, address: int) -> bool {
        protected(self.write_protection, address)
    }

    /// Mirrored spans are pairwise disjoint, and every redirection of an
    /// address in range stays in range.
    pub open spec fn wf(self) -> bool {
        &&& forall|i: int, j: int|
            0 <= i < j < self.mirroring.len() ==> !spans_overlap(
                #[trigger] self.mirroring[i],
                #[trigger] self.mirroring[j],
            )
        &&& forall|i: int|
            0 <= i < self.mirroring.len() ==> (#[trigger] self.mirroring[i]).maps_into(
                self.data.len() as int,
            )
    }

    /// The byte that a read at `address` returns.
    pub open spec fn read_byte(self, address: int) -> u8 {
        self.data[self.redirect(address)]
    }

    /// The little-endian number held by the `size` bytes read from `address`
    /// on: the first byte counts once, each later byte 256 times the one before.
    pub open spec fn read_value(self, address: int, size: nat) -> int
        decreases size,
    {
        if size == 0 {
            0
        } else {
            self.read_byte(address) + 256 * self.read_value(address + 1, (size - 1) as nat)
        }
    }

    /// The address space after every hook concerned has reported an access
    /// of kind `operation` at `address` that moved `value`.
    pub open spec fn fired(
        self,
        operation: MemoryOperation,
        address: int,
        value: u8,
    ) -> MemoryModel {
        MemoryModel {
            channels: fire(self.channels, self.hooks, operation, address, value, self.hooks.len()),
            ..self
        }
    }

    /// The address space after `size` bytes were read from `address` on, one
    /// by one in rising order. Only the channels change.
    pub open spec fn after_read(self, address: int, size: nat) -> MemoryModel
        decreases size,
    {
        if size == 0 {
            self
        } else {
            self.after_read(address, (size - 1) as nat).fired(
                MemoryOperation::Read,
                address + size - 1,
                self.read_byte(address + size - 1),
            )
        }
    }

    /// The address space after one byte was read at each of `addresses`, in
    /// order. Only the channels change.
    pub open spec fn after_reads(self, addresses: Seq<int>) -> MemoryModel
        decreases addresses.len(),
    {
        if addresses.len() == 0 {
            self
        } else {
            self.after_reads(addresses.drop_last()).fired(
                MemoryOperation::Read,
                addresses.last(),
                self.read_byte(addresses.last()),
            )
        }
    }

    /// The address space with the cell at `address` holding `value`. The
    /// cell is changed directly: no rule applies and no hook reports.
    pub open spec fn poked(self, address: int, value: u8) -> MemoryModel {
        MemoryModel { data: self.data.update(address, value), ..self }
    }

    /// The address space after `value` was written at `address`: unchanged
    /// where the address is protected; otherwise the redirected cell holds
    /// `value` and every write hook concerned has reported.
    pub open spec fn after_write(self, address: int, value: u8) -> MemoryModel {
        if self.protected(address) {
            self
        } else {
            MemoryModel { data: self.data.update(self.redirect(address), value), ..self }.fired(
                MemoryOperation::Write,
                address,
                value,
            )
        }
    }

    /// The address space after the first `n` of `bytes` were written from
    /// `address` on, one by one in rising order.
    pub open spec fn after_write_bulk(self, address: int, bytes: Seq<u8>, n: nat) -> MemoryModel
        decreases n,
    {
        if n == 0 {
            self
        } else {
            self.after_write_bulk(address, bytes, (n - 1) as nat).after_write(
                address + n - 1,
                bytes[n - 1],
            )
        }
    }
}

/// The waiting events of each of `channels`.
pub open spec fn channel_views(channels: Seq<MemoryEventChannel>) -> Seq<Seq<MemoryEvent>> {
    Seq::new(channels.len(), |i: int| channels[i]@)
}

impl View for MEM {
    type V = MemoryModel;

    open spec fn view(&self) -> MemoryModel {
        MemoryModel {
            data: self.data@,
            mirroring: self.mirroring@,
            write_protection: self.write_protection@,
            hooks: self.hooks@,
            channels: channel_views(self.channels@),
        }
    }
}

/// Reporting an access creates no channel and removes none.
pub proof fn lemma_fire_keeps_channels(
    channels: Seq<Seq<MemoryEvent>>,
    hooks: Seq<MemoryHook>,
    operation: MemoryOperation,
    address: int,
    value: u8,
    n: nat,
)
    ensures
        fire(channels, hooks, operation, address, value, n).len() == channels.len(),
    decreases n,
{
    if n > 0 {
        lemma_fire_keeps_channels(channels, hooks, operation, address, value, (n - 1) as nat);
    }
}

impl MemoryModel {
    /// Reads and writes keep an address space well formed, and change
    /// neither its size nor its rules.
    pub proof fn lemma_access_keeps_wf(self, operation: MemoryOperation, address: int, value: u8)
        requires
            self.wf(),
            0 <= address < self.data.len(),
        ensures
            0 <= self.redirect(address) < self.data.len(),
            self.fired(operation, address, value).wf(),
            self.after_write(address, value).wf(),
            self.after_write(address, value).data.len() == self.data.len(),
            self.after_write(address, value).mirroring == self.mirroring,
            self.after_write(address, value).write_protection == self.write_protection,
            self.after_write(address, value).hooks == self.hooks,
            self.after_write(address, value).channels.len() == self.channels.len(),
    {
        if self.mirrored(address) {
            let k = choose|k: int| first_mirror(self.mirroring, k, address);
            assert(self.mirroring[k].maps_into(self.data.len() as int));
            assert(self.mirroring[k].mirrored_memory.contains(address));
        }
        lemma_fire_keeps_channels(
            self.channels,
            self.hooks,
            operation,
            address,
            value,
            self.hooks.len(),
        );
        lemma_fire_keeps_channels(
            self.channels,
            self.hooks,
            MemoryOperation::Write,
            address,
            value,
            self.hooks.len(),
        );
    }

    /// Changing a cell directly keeps an address space well formed.
    pub proof fn lemma_poke_keeps_wf(self, address: int, value: u8)
        requires
            self.wf(),
            0 <= address < self.data.len(),
        ensures
            self.poked(address, value).wf(),
            self.poked(address, value).data.len() == self.data.len(),
    {
        let after = self.poked(address, value);
        assert forall|i: int| 0 <= i < after.mirroring.len() implies (#[trigger] after.mirroring[i]).maps_into(
            after.data.len() as int,
        ) by {
            assert(self.mirroring[i].maps_into(self.data.len() as int));
        }
    }

    /// Reading changes nothing but the channels.
    pub proof fn lemma_reads_keep_wf(self, addresses: Seq<int>)
        requires
            self.wf(),
        ensures
            self.after_reads(addresses).wf(),
            self.after_reads(addresses).data == self.data,
            self.after_reads(addresses).mirroring == self.mirroring,
            self.after_reads(addresses).write_protection == self.write_protection,
            self.after_reads(addresses).hooks == self.hooks,
            self.after_reads(addresses).channels.len() == self.channels.len(),
        decreases addresses.len(),
    {
        if addresses.len() > 0 {
            self.lemma_reads_keep_wf(addresses.drop_last());
            let earlier = self.after_reads(addresses.drop_last());
            lemma_fire_keeps_channels(
                earlier.channels,
                earlier.hooks,
                MemoryOperation::Read,
                addresses.last(),
                self.read_byte(addresses.last()),
                earlier.hooks.len(),
            );
        }
    }

    /// Reading one more byte extends the reads made so far by one.
    pub proof fn lemma_reads_push(self, addresses: Seq<int>, address: int)
        requires
            self.wf(),
        ensures
            self.after_reads(addresses.push(address)) == self.after_reads(addresses).fired(
                MemoryOperation::Read,
                address,
                self.after_reads(addresses).read_byte(address),
            ),
            self.after_reads(addresses).read_byte(address) == self.read_byte(address),
            self.after_reads(Seq::empty()) == self,
    {
        self.lemma_reads_keep_wf(addresses);
        assert(addresses.push(address).drop_last() =~= addresses);
    }

    /// Reading changes nothing but the channels.
    pub proof fn lemma_read_keeps_wf(self, address: int, size: nat)
        requires
            self.wf(),
        ensures
            self.after_read(address, size).wf(),
            self.after_read(address, size).data == self.data,
            self.after_read(address, size).mirroring == self.mirroring,
            self.after_read(address, size).write_protection == self.write_protection,
            self.after_read(address, size).hooks == self.hooks,
            self.after_read(address, size).channels.len() == self.channels.len(),
        decreases size,
    {
        if size > 0 {
            self.lemma_read_keeps_wf(address, (size - 1) as nat);
            let earlier = self.after_read(address, (size - 1) as nat);
            lemma_fire_keeps_channels(
                earlier.channels,
                earlier.hooks,
                MemoryOperation::Read,
                address + size - 1,
                self.read_byte(address + size - 1),
                earlier.hooks.len(),
            );
        }
    }
}

/// In a well-formed address space the rule that redirects an address is
/// the only rule whose mirrored span holds it.
pub proof fn lemma_mirror_rule_unique(m: MemoryModel, i: int, address: int)
    requires
        m.wf(),
        0 <= i < m.mirroring.len(),
        m.mirroring[i].mirrored_memory.contains(address),
    ensures
        m.mirrored(address),
        m.mirror_of(address) == m.mirroring[i],
        m.redirect(address) == m.mirroring[i].target(address),
{
    assert forall|j: int| 0 <= j < m.mirroring.len() && j != i implies !(#[trigger] m.mirroring[j]).mirrored_memory.contains(
        address,
    ) by {
        if j < i {
            assert(!m.mirroring[j].mirrored_memory.intersects(m.mirroring[i].mirrored_memory));
        } else {
            assert(!m.mirroring[i].mirrored_memory.intersects(m.mirroring[j].mirrored_memory));
        }
    }
    assert(first_mirror(m.mirroring, i, address));
    let k = choose|k: int| first_mirror(m.mirroring, k, address);
    assert(k == i);
}

/// A read through a mirror rule returns the byte of the physical region at
/// the same offset; and where that physical cell is not itself inside a
/// mirrored span, it equals a read of the physical address.
pub proof fn lemma_mirror_reads_physical(m: MemoryModel, i: int, offset: int)
    requires
        m.wf(),
        0 <= i < m.mirroring.len(),
        0 <= offset < m.mirroring[i].mirrored_memory.region_size,
    ensures
        m.read_byte(m.mirroring[i].mirrored_memory.region_address + offset)
            == m.data[m.mirroring[i].physical_memory.region_address + offset],
        !m.mirrored(m.mirroring[i].physical_memory.region_address + offset) ==> m.read_byte(
            m.mirroring[i].mirrored_memory.region_address + offset,
        ) == m.read_byte(m.mirroring[i].physical_memory.region_address + offset),
{
    lemma_mirror_rule_unique(m, i, m.mirroring[i].mirrored_memory.region_address + offset);
}

/// A write inside a protected region leaves the address space as it was. A
/// write to the byte just before or just behind the region, where that
/// byte lies in the address space and in no other protected region, is
/// seen by the next read of that address.
pub proof fn lemma_write_protection_boundary(m: MemoryModel, i: int, address: int, value: u8)
    requires
        m.wf(),
        0 <= i < m.write_protection.len(),
        0 <= address < m.data.len(),
    ensures
        m.write_protection[i].protected_memory.contains(address) ==> m.after_write(address, value)
            == m,
        (address == m.write_protection[i].protected_memory.region_address - 1 || address
            == m.write_protection[i].protected_memory.region_address
            + m.write_protection[i].protected_memory.region_size) && !m.protected(address)
            ==> m.after_write(address, value).read_byte(address) == value,
{
    m.lemma_access_keeps_wf(MemoryOperation::Write, address, value);
}

// Constructors
impl MEM {
    /// An address space of `memory_size` zero bytes, with no rule, no hook
    /// and no channel.
    pub fn new(memory_size: usize) -> (r: Self)
        ensures
            r@.wf(),
            r@.data == Seq::new(memory_size as nat, |i: int| 0u8),
            r@.mirroring.len() == 0,
            r@.write_protection.len() == 0,
            r@.hooks.len() == 0,
            r@.channels.len() == 0,
    {
        let data = vec![0u8; memory_size];
        Self {
            data,
            mirroring: Vec::new(),
            write_protection: Vec::new(),
            hooks: Vec::new(),
            channels: Vec::new(),
        }
    }
}

// Read/Write
impl MEM {
    /// The byte that a read at `address` would return. No hook reports.
    pub fn peek(&self, address: usize) -> (r: u8)
        requires
            self@.wf(),
            address < self@.data.len(),
        ensures
            r == self@.read_byte(address as int),
    {
        let mirrored_address = self.get_mirrored_address(address);
        self.data[mirrored_address]
    }

    /// Reads one byte at `address`. Every read hook concerned reports.
    pub fn read_byte(&mut self, address: usize) -> (r: u8)
        requires
            old(self)@.wf(),
            address < old(self)@.data.len(),
        ensures
            final(self)@.wf(),
            final(self)@.data == old(self)@.data,
            r == old(self)@.read_byte(address as int),
            final(self)@ == old(self)@.fired(MemoryOperation::Read, address as int, r),
            final(self)@ == old(self)@.after_read(address as int, 1),
    {
        let value = self.peek(address);
        self.notify(MemoryOperation::Read, address, value);
        proof {
            old(self)@.lemma_read_keeps_wf(address as int, 1);
            reveal_with_fuel(MemoryModel::after_read, 2);
        }
        value
    }

    /// Reads `size` bytes from `address` on and returns them as one
    /// little-endian number. Each byte is redirected on its own, and every
    /// read hook concerned by a byte's address reports, in rising order of
    /// the addresses.
    pub fn read(&mut self, address: usize, size: usize) -> (r: usize)
        requires
            old(self)@.wf(),
            size <= 4,
            address + size <= old(self)@.data.len(),
        ensures
            final(self)@.wf(),
            final(self)@.data == old(self)@.data,
            r == old(self)@.read_value(address as int, size as nat),
            final(self)@ == old(self)@.after_read(address as int, size as nat),
    {
        let len = self.data.len();
        let mut bytes: Vec<u8> = Vec::new();
        let mut i: usize = 0;
        while i < size
            invariant
                i <= size <= 4,
                address + size <= len,
                len == old(self)@.data.len(),
                old(self)@.wf(),
                self@.wf(),
                bytes@.len() == i,
                forall|k: int|
                    0 <= k < i ==> #[trigger] bytes@[k] == old(self)@.read_byte(address + k),
                self@ == old(self)@.after_read(address as int, i as nat),
            decreases size - i,
        {
            proof {
                old(self)@.lemma_read_keeps_wf(address as int, i as nat);
            }
            let byte = self.read_byte(address + i);
            bytes.push(byte);
            i += 1;
        }
        let b0: u64 = if size > 0 { bytes[0] as u64 } else { 0 };
        let b1: u64 = if size > 1 { bytes[1] as u64 } else { 0 };
        let b2: u64 = if size > 2 { bytes[2] as u64 } else { 0 };
        let b3: u64 = if size > 3 { bytes[3] as u64 } else { 0 };
        proof {
            reveal_with_fuel(MemoryModel::read_value, 5);
            old(self)@.lemma_read_keeps_wf(address as int, size as nat);
        }
        (b0 + 256 * (b1 + 256 * (b2 + 256 * b3))) as usize
    }

    /// Reads the little-endian 16-bit number at `address`.
    pub fn read_word(&mut self, address: usize) -> (r: u16)
        requires
            old(self)@.wf(),
            address + 2 <= old(self)@.data.len(),
        ensures
            final(self)@.wf(),
            final(self)@.data == old(self)@.data,
            r == old(self)@.read_value(address as int, 2),
            r == old(self)@.read_byte(address as int) + 256 * old(self)@.read_byte(address + 1),
            final(self)@ == old(self)@.after_read(address as int, 2),
    {
        proof {
            reveal_with_fuel(MemoryModel::read_value, 3);
        }
        let r = self.read(address, 2);
        r as u16
    }

    /// Writes `data` at `address`. A write to a protected address is
    /// dropped; any other write reaches the redirected cell, and every
    /// write hook concerned reports.
    pub fn write(&mut self, address: usize, data: u8)
        requires
            old(self)@.wf(),
            address < old(self)@.data.len(),
        ensures
            final(self)@.wf(),
            final(self)@.data.len() == old(self)@.data.len(),
            final(self)@ == old(self)@.after_write(address as int, data),
    {
        proof {
            old(self)@.lemma_access_keeps_wf(MemoryOperation::Write, address as int, data);
        }
        if !self.is_protected(address) {
            let mirrored_address = self.get_mirrored_address(address);
            self.data.set(mirrored_address, data);
            self.notify(MemoryOperation::Write, address, data);
        }
    }

    /// Writes `data` byte by byte from `address` on.
    pub fn write_bulk(&mut self, address: usize, data: Vec<u8>)
        requires
            old(self)@.wf(),
            address + data@.len() <= old(self)@.data.len(),
        ensures
            final(self)@.wf(),
            final(self)@ == old(self)@.after_write_bulk(address as int, data@, data@.len()),
    {
        let len = self.data.len();
        let mut i: usize = 0;
        while i < data.len()
            invariant
                i <= data@.len(),
                address + data@.len() <= len,
                len == old(self)@.data.len(),
                self@.data.len() == old(self)@.data.len(),
                self@.wf(),
                self@ == old(self)@.after_write_bulk(address as int, data@, i as nat),
            decreases data.len() - i,
        {
            proof {
                self@.lemma_access_keeps_wf(MemoryOperation::Write, address + i, data@[i as int]);
            }
            self.write(address + i, data[i]);
            i += 1;
        }
    }
}

// Well-formedness
impl MEM {
    /// Whether no mirror rule from `from` on overlaps the mirrored span of
    /// rule `i`.
    fn span_is_free_behind(&self, i: usize, from: usize) -> (r: bool)
        requires
            i < self.mirroring@.len(),
        ensures
            r == forall|j: int|
                from <= j < self.mirroring@.len() ==> !spans_overlap(
                    self.mirroring@[i as int],
                    #[trigger] self.mirroring@[j],
                ),
    {
        let mut j: usize = from;
        while j < self.mirroring.len()
            invariant
                from <= j,
                i < self.mirroring@.len(),
                forall|k: int|
                    from <= k < j ==> !spans_overlap(
                        self.mirroring@[i as int],
                        #[trigger] self.mirroring@[k],
                    ),
            decreases self.mirroring.len() - j,
        {
            let span = &self.mirroring[i].mirrored_memory;
            if span.intersects_region(&self.mirroring[j].mirrored_memory) {
                assert(spans_overlap(self.mirroring@[i as int], self.mirroring@[j as int]));
                return false;
            }
            j += 1;
        }
        true
    }

    /// Whether the address space is well formed: mirrored spans are
    /// pairwise disjoint, and every redirection of an address in range
    /// stays in range.
    pub fn is_well_formed(&self) -> (r: bool)
        ensures
            r == self@.wf(),
    {
        let len = self.data.len();
        let mut i: usize = 0;
        while i < self.mirroring.len()
            invariant
                i <= self.mirroring@.len(),
                len == self@.data.len(),
                forall|a: int, b: int|
                    0 <= a < i && a < b < self.mirroring@.len() ==> !spans_overlap(
                        #[trigger] self.mirroring@[a],
                        #[trigger] self.mirroring@[b],
                    ),
                forall|a: int|
                    0 <= a < i ==> (#[trigger] self.mirroring@[a]).maps_into(len as int),
            decreases self.mirroring.len() - i,
        {
            if !self.mirroring[i].fits_within(len) {
                assert(!self@.mirroring[i as int].maps_into(self@.data.len() as int));
                return false;
            }
            if !self.span_is_free_behind(i, i + 1) {
                proof {
                    let j = choose|j: int|
                        i + 1 <= j < self.mirroring@.len() && spans_overlap(
                            self.mirroring@[i as int],
                            #[trigger] self.mirroring@[j],
                        );
                    assert(spans_overlap(self@.mirroring[i as int], self@.mirroring[j]));
                }
                return false;
            }
            i += 1;
        }
        true
    }
}

// Loading
impl MEM {
    /// An address space that holds `data`, byte for byte, with no rule, no
    /// hook and no channel: a raw image of memory.
    pub fn new_from(data: Vec<u8>) -> (r: Self)
        ensures
            r@.wf(),
            r@.data == data@,
            r@.mirroring.len() == 0,
            r@.write_protection.len() == 0,
            r@.hooks.len() == 0,
            r@.channels.len() == 0,
    {
        Self {
            data,
            mirroring: Vec::new(),
            write_protection: Vec::new(),
            hooks: Vec::new(),
            channels: Vec::new(),
        }
    }

    /// The two address spaces of a console with the cartridge file `data`
    /// in its slot: the file is parsed and its ROM banks are mapped.
    pub fn new_from_ines(data: &[u8]) -> (r: Result<(Self, mappers::PPU_MEM), LoadError>)
        ensures
            r matches Ok((memory, ppu_memory)) ==> {
                &&& ines::parse_file_spec(data@) matches Ok(image)
                &&& image.header.mapper_number == 0
                &&& mappers::mapper0::accepts(image)
                &&& memory@.wf()
                &&& ppu_memory@.wf()
                &&& memory@ == mappers::with_console_mirrors(mappers::mapper0::cpu_layout(image))
                &&& ppu_memory@ == mappers::with_palette_mirror(
                    mappers::mapper0::ppu_layout(image),
                )
            },
            r matches Err(LoadError::Cartridge(e)) ==> ines::parse_file_spec(data@) == Err::<
                ines::iNESImage,
                ines::iNESError,
            >(e),
            r matches Err(LoadError::Mapper(e)) ==> {
                &&& ines::parse_file_spec(data@) matches Ok(image)
                &&& !(image.header.mapper_number == 0 && mappers::mapper0::accepts(image))
                &&& e == (if image.header.mapper_number != 0 {
                    mappers::MapperError::UnsupportedMapper
                } else {
                    mappers::mapper0::refusal(image)
                })
            },
    {
        match ines::parse_file(data) {
            Err(e) => Err(LoadError::Cartridge(e)),
            Ok(parsed_ines) => match mappers::map(parsed_ines) {
                Err(e) => Err(LoadError::Mapper(e)),
                Ok(spaces) => Ok(spaces),
            },
        }
    }
}

// Mirroring
impl MEM {
    /// Installs a mirror rule, unless its mirrored span overlaps one that is
    /// installed already.
    pub fn push_mirrored_range(&mut self, new_mirror: MemoryMirror) -> (r: Result<(), MemoryError>)
        requires
            old(self)@.wf(),
            new_mirror.maps_into(old(self)@.data.len() as int),
        ensures
            final(self)@.wf(),
            r.is_err() <==> exists|i: int|
                0 <= i < old(self)@.mirroring.len() && new_mirror.mirrored_memory.intersects(
                    (#[trigger] old(self)@.mirroring[i]).mirrored_memory,
                ),
            r.is_err() ==> r == Err::<(), MemoryError>(MemoryError::MirrorOverlap),
            r.is_err() ==> final(self)@ == old(self)@,
            r.is_ok() ==> final(self)@ == (MemoryModel {
                mirroring: old(self)@.mirroring.push(new_mirror),
                ..old(self)@
            }),
    {
        let mut i: usize = 0;
        while i < self.mirroring.len()
            invariant
                i <= self.mirroring.len(),
                *self == *old(self),
                old(self)@.wf(),
                new_mirror.maps_into(old(self)@.data.len() as int),
                forall|j: int|
                    0 <= j < i ==> !new_mirror.mirrored_memory.intersects(
                        (#[trigger] self.mirroring@[j]).mirrored_memory,
                    ),
            decreases self.mirroring.len() - i,
        {
            if new_mirror.mirrored_memory.intersects_region(&self.mirroring[i].mirrored_memory) {
                assert(new_mirror.mirrored_memory.intersects(
                    old(self)@.mirroring[i as int].mirrored_memory,
                ));
                return Err(MemoryError::MirrorOverlap);
            }
            i += 1;
        }
        self.mirroring.push(new_mirror);
        Ok(())
    }

    /// The mirror rule that redirects `address`, if there is one: the first
    /// installed rule whose mirrored span holds the address.
    pub fn is_mirrored(&self, address: usize) -> (r: Option<&MemoryMirror>)
        ensures
            r.is_some() <==> self@.mirrored(address as int),
            r.is_some() ==> *r.unwrap() == self@.mirror_of(address as int),
    {
        let mut i: usize = 0;
        while i < self.mirroring.len()
            invariant
                i <= self.mirroring.len(),
                forall|j: int|
                    0 <= j < i ==> !(#[trigger] self.mirroring@[j]).mirrored_memory.contains(
                        address as int,
                    ),
            decreases self.mirroring.len() - i,
        {
            if self.mirroring[i].mirrored_memory.inside_region(address) {
                assert(self@.first_mirror(i as int, address as int));
                return Some(&self.mirroring[i]);
            }
            i += 1;
        }
        None
    }

    /// The cell that an access at `address` reaches.
    pub fn get_mirrored_address(&self, address: usize) -> (r: usize)
        requires
            self@.wf(),
            address < self@.data.len(),
        ensures
            r == self@.redirect(address as int),
            r < self@.data.len(),
    {
        let len = self.data.len();
        match self.is_mirrored(address) {
            Some(mirror) => {
                proof {
                    self@.lemma_access_keeps_wf(MemoryOperation::Read, address as int, 0);
                    let k = choose|k: int| first_mirror(self@.mirroring, k, address as int);
                    assert(first_mirror(self@.mirroring, k, address as int));
                    assert(*mirror == self@.mirroring[k]);
                    assert(self@.redirect(address as int) == mirror.target(address as int));
                    assert(mirror.target(address as int) < len);
                }
                (address - mirror.mirrored_memory.region_address)
                    + mirror.physical_memory.region_address
            },
            None => address,
        }
    }
}

// Write protection
impl MEM {
    /// Protects a region from writes. Regions may overlap: an address is
    /// protected when any region holds it.
    pub fn push_write_protected_region(&mut self, new_region: WriteProtectedRegion)
        requires
            old(self)@.wf(),
        ensures
            final(self)@.wf(),
            final(self)@ == (MemoryModel {
                write_protection: old(self)@.write_protection.push(new_region),
                ..old(self)@
            }),
    {
        self.write_protection.push(new_region);
    }

    /// Whether a write at `address` is dropped.
    pub fn is_protected(&self, address: usize) -> (r: bool)
        ensures
            r == self@.protected(address as int),
    {
        let mut i: usize = 0;
        while i < self.write_protection.len()
            invariant
                i <= self.write_protection.len(),
                forall|j: int|
                    0 <= j < i ==> !(#[trigger] self.write_protection@[j]).protected_memory.contains(
                        address as int,
                    ),
            decreases self.write_protection.len() - i,
        {
            if self.write_protection[i].protected_memory.inside_region(address) {
                assert(self@.write_protection[i as int].protected_memory.contains(address as int));
                return true;
            }
            i += 1;
        }
        false
    }
}

} // verus!
