//! The memory accesses of a product and their columns.
use generic_array::sequence::GenericSequence;
use generic_array::GenericArray;
use typenum::U12;
use vstd::prelude::*;

use crate::columns;
use crate::columns::ByteLookups;
use crate::natural::Natural;

verus! {

/// The number of 32 bit words of an element of the 384 bit field.
pub const WORDS_FIELD_ELEMENT: usize = 12;

/// What a read of one word of memory saw.
#[derive(Debug, Clone, Copy, PartialEq, Eq)]
pub struct MemoryReadRecord {
    pub value: u32,
    pub shard: u32,
    pub timestamp: u32,
    pub prev_shard: u32,
    pub prev_timestamp: u32,
}

/// What a write of one word of memory saw and left.
#[derive(Debug, Clone, Copy, PartialEq, Eq)]
pub struct MemoryWriteRecord {
    pub value: u32,
    pub shard: u32,
    pub timestamp: u32,
    pub prev_value: u32,
    pub prev_shard: u32,
    pub prev_timestamp: u32,
}

/// A read to be laid out in columns.
#[derive(Debug, Clone, Copy, PartialEq, Eq)]
pub struct MemoryReadAccess {
    pub channel: u32,
    pub record: MemoryReadRecord,
}

/// A write to be laid out in columns.
#[derive(Debug, Clone, Copy, PartialEq, Eq)]
pub struct MemoryWriteAccess {
    pub channel: u32,
    pub record: MemoryWriteRecord,
}

/// The columns of one read. They are zero until a read is laid out in them.
#[derive(Debug, Clone, Copy, PartialEq, Eq)]
pub struct MemoryReadCols {
    pub access: Option<MemoryReadAccess>,
}

/// The columns of one write. They are zero until a write is laid out in them.
#[derive(Debug, Clone, Copy, PartialEq, Eq)]
pub struct MemoryWriteCols {
    pub access: Option<MemoryWriteAccess>,
}

impl MemoryReadCols {
    /// Lays a read out in these columns and appends the lookups that this asks for to `output`.
    pub fn populate(
        &mut self,
        channel: u32,
        record: MemoryReadRecord,
        output: &mut Vec<ByteLookups<Natural>>,
    )
        ensures
            final(self).access == Some(MemoryReadAccess { channel, record }),
            columns::lookup_values(final(output)@) == columns::lookup_values(old(output)@).push(
                ByteLookups::MemoryRead(MemoryReadAccess { channel, record }),
            ),
    {
        let access = MemoryReadAccess { channel, record };
        let lookups = ByteLookups::MemoryRead(access);
        let ghost before = columns::lookup_values(output@);
        assert(columns::lookup_values(output@.push(lookups)) =~= before.push(lookups@));
        output.push(lookups);
        self.access = Some(access);
    }
}

impl MemoryWriteCols {
    /// Lays a write out in these columns and appends the lookups that this asks for to `output`.
    pub fn populate(
        &mut self,
        channel: u32,
        record: MemoryWriteRecord,
        output: &mut Vec<ByteLookups<Natural>>,
    )
        ensures
            final(self).access == Some(MemoryWriteAccess { channel, record }),
            columns::lookup_values(final(output)@) == columns::lookup_values(old(output)@).push(
                ByteLookups::MemoryWrite(MemoryWriteAccess { channel, record }),
            ),
    {
        let access = MemoryWriteAccess { channel, record };
        let lookups = ByteLookups::MemoryWrite(access);
        let ghost before = columns::lookup_values(output@);
        assert(columns::lookup_values(output@.push(lookups)) =~= before.push(lookups@));
        output.push(lookups);
        self.access = Some(access);
    }
}

/// The columns of the writes of one field element, one group for each of its words.
#[verifier::external_body]
#[derive(Debug)]
pub struct MemoryWriteArray {
    groups: GenericArray<MemoryWriteCols, U12>,
}

/// The columns of the reads of one field element, one group for each of its words.
#[verifier::external_body]
#[derive(Debug)]
pub struct MemoryReadArray {
    groups: GenericArray<MemoryReadCols, U12>,
}

/// The groups of columns that an array of writes holds.
pub uninterp spec fn write_groups(array: MemoryWriteArray) -> Seq<MemoryWriteCols>;

/// The groups of columns that an array of reads holds.
pub uninterp spec fn read_groups(array: MemoryReadArray) -> Seq<MemoryReadCols>;

impl MemoryWriteArray {
    /// Calls `GenericArray::generate`, with a length of twelve and a function that gives `group`
    /// at every index. Claims that the array holds twelve times `group`.
    #[verifier::external_body]
    pub(crate) fn filled(group: MemoryWriteCols) -> (r: MemoryWriteArray)
        ensures
            write_groups(r) == Seq::new(12, |i: int| group),
    {
        MemoryWriteArray { groups: GenericArray::generate(|_i: usize| group) }
    }

    /// Assigns through the mutable slice of a `GenericArray` (`DerefMut`), which panics where the
    /// index is not below the length. Claims that the group at `i` is replaced and no other.
    #[verifier::external_body]
    pub(crate) fn set(&mut self, i: usize, group: MemoryWriteCols)
        requires
            i < write_groups(*old(self)).len(),
        ensures
            write_groups(*final(self)) == write_groups(*old(self)).update(i as int, group),
    {
        self.groups[i] = group;
    }

    /// Reads through the slice of a `GenericArray` (`Deref`) with `get`. Claims that it gives the
    /// group at `i`, and none where `i` is not below the length.
    #[verifier::external_body]
    pub(crate) fn get(&self, i: usize) -> (r: Option<MemoryWriteCols>)
        ensures
            r == if i < write_groups(*self).len() {
                Some(write_groups(*self)[i as int])
            } else {
                None
            },
    {
        self.groups.get(i).copied()
    }

    /// Calls `clone` on a `GenericArray`, which copies every group. Claims that the copy holds the
    /// same groups.
    #[verifier::external_body]
    pub(crate) fn duplicate(&self) -> (r: MemoryWriteArray)
        ensures
            write_groups(r) == write_groups(*self),
    {
        MemoryWriteArray { groups: self.groups.clone() }
    }
}

impl MemoryReadArray {
    /// Calls `GenericArray::generate`, with a length of twelve and a function that gives `group`
    /// at every index. Claims that the array holds twelve times `group`.
    #[verifier::external_body]
    pub(crate) fn filled(group: MemoryReadCols) -> (r: MemoryReadArray)
        ensures
            read_groups(r) == Seq::new(12, |i: int| group),
    {
        MemoryReadArray { groups: GenericArray::generate(|_i: usize| group) }
    }

    /// Assigns through the mutable slice of a `GenericArray` (`DerefMut`), which panics where the
    /// index is not below the length. Claims that the group at `i` is replaced and no other.
    #[verifier::external_body]
    pub(crate) fn set(&mut self, i: usize, group: MemoryReadCols)
        requires
            i < read_groups(*old(self)).len(),
        ensures
            read_groups(*final(self)) == read_groups(*old(self)).update(i as int, group),
    {
        self.groups[i] = group;
    }

    /// Reads through the slice of a `GenericArray` (`Deref`) with `get`. Claims that it gives the
    /// group at `i`, and none where `i` is not below the length.
    #[verifier::external_body]
    pub(crate) fn get(&self, i: usize) -> (r: Option<MemoryReadCols>)
        ensures
            r == if i < read_groups(*self).len() {
                Some(read_groups(*self)[i as int])
            } else {
                None
            },
    {
        self.groups.get(i).copied()
    }

    /// Calls `clone` on a `GenericArray`, which copies every group. Claims that the copy holds the
    /// same groups.
    #[verifier::external_body]
    pub(crate) fn duplicate(&self) -> (r: MemoryReadArray)
        ensures
            read_groups(r) == read_groups(*self),
    {
        MemoryReadArray { groups: self.groups.clone() }
    }
}

} // verus!
