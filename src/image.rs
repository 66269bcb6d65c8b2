//! The compiled module image: the header, the tables of stub records for
//! publics, natives and public variables, and the names they point to.

use vstd::prelude::*;

use crate::error::{AmxError, AmxResult};
use crate::types::{AmxFuncstub, AmxHeader, FuncstubNt, Ucell, FUNCSTUB_NT_SIZE};

verus! {

/// The little-endian 32-bit value stored at `off`.
pub open spec fn u32_le(b: Seq<u8>, off: int) -> u32 {
    (b[off] as u32) | ((b[off + 1] as u32) << 8u32) | ((b[off + 2] as u32) << 16u32) | ((
    b[off + 3] as u32) << 24u32)
}

/// Four bytes are available at `off`.
pub open spec fn has_u32(b: Seq<u8>, off: int) -> bool {
    0 <= off && off + 4 <= b.len()
}

/// `name` is the NUL-terminated byte string that starts at `off`.
pub open spec fn is_cstr_at(b: Seq<u8>, off: int, name: Seq<u8>) -> bool {
    &&& 0 <= off
    &&& off + name.len() < b.len()
    &&& b[off + name.len()] == 0
    &&& forall|i: int| 0 <= i < name.len() ==> name[i] == #[trigger] b[off + i] && name[i] != 0
}

/// The NUL-terminated byte string at `off`, if a terminator follows within the
/// image.
pub open spec fn cstr_at(b: Seq<u8>, off: int) -> Option<Seq<u8>> {
    if exists|name: Seq<u8>| is_cstr_at(b, off, name) {
        Some(choose|name: Seq<u8>| is_cstr_at(b, off, name))
    } else {
        None
    }
}

/// A byte string at a given place is unique.
pub proof fn lemma_cstr_unique(b: Seq<u8>, off: int, n1: Seq<u8>, n2: Seq<u8>)
    requires
        is_cstr_at(b, off, n1),
        is_cstr_at(b, off, n2),
    ensures
        n1 == n2,
{
    if n1.len() < n2.len() {
        assert(n2[n1.len() as int] == b[off + n1.len()]);
    } else if n2.len() < n1.len() {
        assert(n1[n2.len() as int] == b[off + n2.len()]);
    } else {
        assert forall|i: int| 0 <= i < n1.len() implies n1[i] == n2[i] by {
            assert(n1[i] == b[off + i]);
            assert(n2[i] == b[off + i]);
        }
        assert(n1 =~= n2);
    }
}

/// The three tables of stub records in a module.
#[derive(Debug, Clone, Copy, PartialEq, Eq, Structural)]
pub enum Table {
    Publics,
    Natives,
    PubVars,
}

/// Where a table starts, and where the table after it starts.
pub open spec fn table_bounds(h: AmxHeader, t: Table) -> (usize, usize) {
    match t {
        Table::Publics => (h.publics, h.natives),
        Table::Natives => (h.natives, h.libraries),
        Table::PubVars => (h.pubvars, h.tags),
    }
}

/// The number of records in a table.
pub open spec fn table_len(h: AmxHeader, t: Table) -> int {
    let (first, next) = table_bounds(h, t);
    if h.defsize >= 4 && next >= first {
        (next - first) / (h.defsize as int)
    } else {
        0
    }
}

/// Where record `index` of a table starts.
pub open spec fn record_offset(h: AmxHeader, t: Table, index: int) -> int {
    table_bounds(h, t).0 + index * (h.defsize as int)
}

/// The record lies within the image.
pub open spec fn record_in_image(m: ModuleImage, t: Table, index: int) -> bool {
    let off = record_offset(m.header, t, index);
    0 <= off && off + (m.header.defsize as int) <= m.bytes@.len()
}

/// The name of a record: in the name table for the long form, inline
/// after the address for the short form.
pub open spec fn record_name(m: ModuleImage, t: Table, index: int) -> Option<Seq<u8>> {
    let off = record_offset(m.header, t, index);
    if m.header.defsize as int == FUNCSTUB_NT_SIZE as int {
        cstr_at(m.bytes@, u32_le(m.bytes@, off + 4) as int)
    } else {
        cstr_at(m.bytes@, off + 4)
    }
}

/// The address and name of record `index`, or why it cannot be read.
pub open spec fn entry_of(m: ModuleImage, t: Table, index: int) -> AmxResult<(Ucell, Seq<u8>)> {
    if index < 0 || index >= table_len(m.header, t) {
        Err(AmxError::Index)
    } else if !record_in_image(m, t, index) {
        Err(AmxError::Memory)
    } else {
        match record_name(m, t, index) {
            Some(name) => Ok((u32_le(m.bytes@, record_offset(m.header, t, index)), name)),
            None => Err(AmxError::Memory),
        }
    }
}

/// Record `index` can be read and is named `name`.
pub open spec fn entry_named(m: ModuleImage, t: Table, index: int, name: Seq<u8>) -> bool {
    entry_of(m, t, index) matches Ok((_, n)) && n == name
}

/// Record `index` can be read and has another name than `name`.
pub open spec fn entry_not_named(m: ModuleImage, t: Table, index: int, name: Seq<u8>) -> bool {
    entry_of(m, t, index) matches Ok((_, n)) && n != name
}

/// The scan for `name` stops at record `j`: it is the first record that
/// either cannot be read or has that name.
pub open spec fn stops_at(m: ModuleImage, t: Table, name: Seq<u8>, j: int) -> bool {
    &&& 0 <= j < table_len(m.header, t)
    &&& !entry_not_named(m, t, j, name)
    &&& forall|k: int| 0 <= k < j ==> entry_not_named(m, t, k, name)
}

/// The outcome of looking a name up in a table: the first record with that
/// name; `NotFound` when every record reads and none has it; `Memory` when a
/// record before any match cannot be read; `Format` when the table has more
/// records than an index can count.
pub open spec fn find_spec(m: ModuleImage, t: Table, name: Seq<u8>) -> AmxResult<i32> {
    if table_len(m.header, t) > i32::MAX {
        Err(AmxError::Format)
    } else if exists|j: int| stops_at(m, t, name, j) {
        let j = choose|j: int| stops_at(m, t, name, j);
        if entry_named(m, t, j, name) {
            Ok(j as i32)
        } else {
            Err(AmxError::Memory)
        }
    } else {
        Err(AmxError::NotFound)
    }
}

/// Whether two byte strings are equal.
pub fn bytes_eq(a: &[u8], b: &[u8]) -> (r: bool)
    ensures
        r == (a@ == b@),
{
    if a.len() != b.len() {
        return false;
    }
    let mut i: usize = 0;
    while i < a.len()
        invariant
            a@.len() == b@.len(),
            i <= a@.len(),
            forall|k: int| 0 <= k < i ==> a@[k] == b@[k],
        decreases a.len() - i,
    {
        if a[i] != b[i] {
            return false;
        }
        i = i + 1;
    }
    assert(a@ =~= b@);
    true
}

/// The header of a compiled module and the bytes of its image, header
/// included.
pub struct ModuleImage {
    pub header: AmxHeader,
    pub bytes: Vec<u8>,
}

/// Reads the little-endian 32-bit value at `off`.
fn read_u32(b: &Vec<u8>, off: usize) -> (r: u32)
    requires
        has_u32(b@, off as int),
    ensures
        r == u32_le(b@, off as int),
{
    let len = b.len();
    assert(off + 3 < len);
    let x0 = b[off] as u32;
    let x1 = b[off + 1] as u32;
    let x2 = b[off + 2] as u32;
    let x3 = b[off + 3] as u32;
    assert(x3 <= 0xFF);
    x0 | (x1 << 8u32) | (x2 << 16u32) | (x3 << 24u32)
}

/// Reads the NUL-terminated byte string at `off`.
fn read_cstr(b: &Vec<u8>, off: usize) -> (r: Option<Vec<u8>>)
    ensures
        match r {
            Some(name) => cstr_at(b@, off as int) == Some(name@),
            None => cstr_at(b@, off as int) is None,
        },
{
    let mut name: Vec<u8> = Vec::new();
    if off >= b.len() {
        return None;
    }
    let mut k: usize = off;
    while k < b.len()
        invariant
            off <= k <= b@.len(),
            name@.len() == k - off,
            forall|i: int| 0 <= i < name@.len() ==> name@[i] == #[trigger] b@[off + i] && name@[i] != 0,
        decreases b.len() - k,
    {
        if b[k] == 0 {
            proof {
                assert(is_cstr_at(b@, off as int, name@));
                let c = choose|n: Seq<u8>| is_cstr_at(b@, off as int, n);
                lemma_cstr_unique(b@, off as int, name@, c);
            }
            return Some(name);
        }
        let ghost prev = name@;
        name.push(b[k]);
        assert forall|i: int| 0 <= i < name@.len() implies name@[i] == #[trigger] b@[off + i]
            && name@[i] != 0 by {
            if i < prev.len() {
                assert(name@[i] == prev[i]);
            }
        }
        k = k + 1;
    }
    proof {
        if exists|n: Seq<u8>| is_cstr_at(b@, off as int, n) {
            let n = choose|n: Seq<u8>| is_cstr_at(b@, off as int, n);
            if n.len() < name@.len() {
                assert(name@[n.len() as int] == b@[off + n.len()]);
            } else {
                assert(off + n.len() < b@.len());
            }
        }
    }
    None
}

impl Table {
    fn bounds(&self, h: &AmxHeader) -> (r: (usize, usize))
        ensures
            r == table_bounds(*h, *self),
    {
        match self {
            Table::Publics => (h.publics, h.natives),
            Table::Natives => (h.natives, h.libraries),
            Table::PubVars => (h.pubvars, h.tags),
        }
    }
}

impl ModuleImage {
    /// The number of records in a table.
    pub fn table_len(&self, t: Table) -> (r: usize)
        ensures
            r as int == table_len(self.header, t),
    {
        let (first, next) = t.bounds(&self.header);
        if self.header.defsize >= 4 && next >= first {
            (next - first) / (self.header.defsize as usize)
        } else {
            0
        }
    }

    /// The address and name of record `index` of a table.
    pub fn entry(&self, t: Table, index: i32) -> (r: AmxResult<(Ucell, Vec<u8>)>)
        ensures
            match r {
                Ok((a, n)) => entry_of(*self, t, index as int) == Ok::<(Ucell, Seq<u8>), AmxError>(
                    (a, n@),
                ),
                Err(e) => entry_of(*self, t, index as int) == Err::<(Ucell, Seq<u8>), AmxError>(e),
            },
    {
        let count = self.table_len(t);
        if index < 0 || index as usize >= count {
            return Err(AmxError::Index);
        }
        let (first, _) = t.bounds(&self.header);
        let size = self.header.defsize as usize;
        let i = index as usize;
        assert(i < count);
        assert(i * size <= count * size) by (nonlinear_arith)
            requires
                i < count,
        ;
        assert(count * size <= usize::MAX) by (nonlinear_arith)
            requires
                count == (table_bounds(self.header, t).1 - first) / (size as int),
                size >= 4,
                table_bounds(self.header, t).1 >= first,
                table_bounds(self.header, t).1 <= usize::MAX,
        ;
        let rel = i * size;
        if first > self.bytes.len() || rel > self.bytes.len() - first || size > self.bytes.len()
            - first - rel {
            return Err(AmxError::Memory);
        }
        let off = first + rel;
        if size == FUNCSTUB_NT_SIZE {
            let stub = FuncstubNt {
                address: read_u32(&self.bytes, off),
                nameofs: read_u32(&self.bytes, off + 4),
            };
            match read_cstr(&self.bytes, stub.nameofs as usize) {
                Some(name) => Ok((stub.address, name)),
                None => Err(AmxError::Memory),
            }
        } else {
            match read_cstr(&self.bytes, off + 4) {
                Some(name) => {
                    let stub = AmxFuncstub { address: read_u32(&self.bytes, off), name };
                    Ok((stub.address, stub.name))
                },
                None => Err(AmxError::Memory),
            }
        }
    }

    /// The index of the first record of a table with the given name.
    pub fn find(&self, t: Table, name: &[u8]) -> (r: AmxResult<i32>)
        ensures
            r == find_spec(*self, t, name@),
    {
        let len = self.table_len(t);
        if len > i32::MAX as usize {
            return Err(AmxError::Format);
        }
        let mut i: usize = 0;
        while i < len
            invariant
                len == table_len(self.header, t),
                len <= i32::MAX,
                i <= len,
                forall|k: int| 0 <= k < i ==> entry_not_named(*self, t, k, name@),
            decreases len - i,
        {
            let found = match self.entry(t, i as i32) {
                Ok((_, n)) => bytes_eq(n.as_slice(), name),
                Err(_) => true,
            };
            if found {
                proof {
                    assert(stops_at(*self, t, name@, i as int));
                    let c = choose|j: int| stops_at(*self, t, name@, j);
                    if c < i {
                        assert(entry_not_named(*self, t, c, name@));
                    } else if c > i {
                        assert(entry_not_named(*self, t, i as int, name@));
                    }
                }
                return match self.entry(t, i as i32) {
                    Ok(_) => Ok(i as i32),
                    Err(_) => Err(AmxError::Memory),
                };
            }
            i = i + 1;
        }
        assert(!exists|j: int| stops_at(*self, t, name@, j));
        Err(AmxError::NotFound)
    }
}

} // verus!
