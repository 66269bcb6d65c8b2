//! A handle on one guest machine: its registers, its memory window and its
//! module image, with the operations the host performs on them.
//!
//! The registers are kept by the guest and are not trusted: every access
//! checks them again.

use vstd::prelude::*;

use vstd::string::StringSliceAdditionalSpecFns;
use vstd::utf8::encode_utf8;

use crate::cells::{
    decode_bytes, encode_unpacked, is_string_of, lemma_string_unique, string_length, string_of,
    unpacked_cells,
};
use crate::cp1251::{decodable, decode, decoded, encodable, encoded};
use crate::error::{check_status, code_of, status_result, AmxError, AmxResult};
use crate::image::{bytes_eq, entry_of, find_spec, table_len, ModuleImage, Table};
use crate::types::{AmxHeader, AmxNativeInfo, Cell, Ucell};

verus! {

/// Bytes that must stay free between the heap and the stack.
pub const STACK_MARGIN: i64 = 64;

/// The registers of a guest machine that the host reads and changes.
#[derive(Debug, Clone, Copy, PartialEq, Eq, Structural)]
pub struct RawAmx {
    /// Host address of the module image.
    pub base: usize,
    /// Host address of a data section kept apart from the image, if any.
    pub data: Option<usize>,
    /// Top of the heap: the first free guest address above it.
    pub hea: Cell,
    /// Stack pointer: the lowest guest address in use by the stack.
    pub stk: Cell,
    /// Top of the stack: one past the highest guest address.
    pub stp: Cell,
    pub flags: u16,
    /// The fault that a native reported for the guest to see.
    pub error: i32,
    /// Cells pushed for the next execution.
    pub paramcount: i32,
}

/// A guest machine as the host sees it. Guest address `a` names the byte at
/// `a` of the memory window; cell `i` of `memory` sits at guest address
/// `4 * i`.
pub struct AMX {
    pub amx: RawAmx,
    pub module: ModuleImage,
    pub memory: Vec<Cell>,
    /// Host entry points bound to the module's natives by `register`, one per
    /// native record; 0 where none is bound.
    pub natives: Vec<Ucell>,
}

/// What the guest machine reported after running a function.
#[derive(Debug, Clone, Copy, PartialEq, Eq, Structural)]
pub struct ExecOutcome {
    pub status: i32,
    pub retval: Cell,
}

/// The guest address lies in the window: not in the gap between heap and
/// stack, not negative, below the top of the stack.
pub open spec fn accessible(r: RawAmx, a: int) -> bool {
    !(r.hea <= a < r.stk) && 0 <= a < r.stp
}

/// The memory with `vals` stored from cell `start` on.
pub open spec fn fill(mem: Seq<Cell>, start: int, vals: Seq<Cell>) -> Seq<Cell> {
    Seq::new(mem.len(), |k: int| if start <= k < start + vals.len() { vals[k - start] } else { mem[k] })
}

/// The cells of an unpacked string: one per byte.
pub open spec fn byte_cells(bytes: Seq<u8>) -> Seq<Cell> {
    bytes.map_values(|b: u8| b as Cell)
}

/// `n` cells can be allotted: the heap may grow by `n` cells and still leave
/// the margin below the stack.
pub open spec fn allot_ok(r: RawAmx, n: int) -> bool {
    r.stk - r.hea - 4 * n >= STACK_MARGIN
}

/// The registers after allotting `n` cells.
pub open spec fn allotted(r: RawAmx, n: int) -> RawAmx {
    RawAmx { hea: (r.hea + 4 * n) as Cell, ..r }
}

/// `n` cells from guest address `a` lie in the memory window.
pub open spec fn block_ok(r: RawAmx, mem_len: int, a: int, n: int) -> bool {
    n == 0 || (0 <= a && a % 4 == 0 && a + 4 * (n - 1) < r.stp && a / 4 + n <= mem_len)
}

/// A cell can be pushed: the stack stays clear of the heap by the margin, and
/// the new top of the stack lies in the memory window.
pub open spec fn push_ok(r: RawAmx, mem_len: int) -> bool {
    &&& r.hea + STACK_MARGIN <= r.stk
    &&& r.paramcount < i32::MAX
    &&& r.stk - 4 >= 0
    &&& (r.stk - 4) % 4 == 0
    &&& r.stk - 4 < r.stp
    &&& (r.stk - 4) / 4 < mem_len
}

/// The error a push fails with when `push_ok` does not hold.
pub open spec fn push_error(r: RawAmx) -> AmxError {
    if r.hea + STACK_MARGIN <= r.stk && r.paramcount < i32::MAX {
        AmxError::MemoryAccess
    } else {
        AmxError::StackError
    }
}

/// The registers after a push.
pub open spec fn pushed(r: RawAmx) -> RawAmx {
    RawAmx { stk: (r.stk - 4) as Cell, paramcount: (r.paramcount + 1) as i32, ..r }
}

/// The memory after pushing `v`.
pub open spec fn pushed_memory(r: RawAmx, mem: Seq<Cell>, v: Cell) -> Seq<Cell> {
    mem.update((r.stk - 4) / 4, v)
}

/// The pushed cells can be taken off the stack again.
pub open spec fn pop_ok(r: RawAmx) -> bool {
    0 <= r.paramcount && r.stk + 4 * r.paramcount <= i32::MAX
}

/// The registers after the execution took the pushed cells off the stack.
pub open spec fn popped(r: RawAmx) -> RawAmx {
    RawAmx { stk: (r.stk + 4 * r.paramcount) as Cell, paramcount: 0, ..r }
}

/// The index that runs the module's main entry point.
pub const AMX_EXEC_MAIN: i32 = -1;

/// The index names a function that `exec` can run: the main entry point, or
/// a record of the publics table.
pub open spec fn exec_index_ok(m: ModuleImage, index: i32) -> bool {
    index == AMX_EXEC_MAIN || (0 <= index < table_len(m.header, Table::Publics))
}

/// The index names a record of the natives table, which `exec_native` runs.
pub open spec fn native_index_ok(m: ModuleImage, index: i32) -> bool {
    0 <= index < table_len(m.header, Table::Natives)
}

/// Pushing one cell: the registers, the memory and the result after it.
pub open spec fn push_spec(r: RawAmx, mem: Seq<Cell>, v: Cell) -> (RawAmx, Seq<Cell>, AmxResult<()>) {
    if push_ok(r, mem.len() as int) {
        (pushed(r), pushed_memory(r, mem, v), Ok(()))
    } else {
        (r, mem, Err(push_error(r)))
    }
}

/// Pushing an array. Success is owed when the cells can be allotted, lie in
/// the window, and their address can be pushed; then the heap has grown by
/// the cells, they hold the values, and their address is on the stack. On
/// failure the registers are as before, the allotted cells released.
pub open spec fn push_array_spec(r: RawAmx, mem: Seq<Cell>, values: Seq<Cell>) -> (
    RawAmx,
    Seq<Cell>,
    AmxResult<Cell>,
) {
    let n = values.len() as int;
    let h = r.hea;
    let a1 = allotted(r, n);
    if !allot_ok(r, n) {
        (r, mem, Err(AmxError::Memory))
    } else if !block_ok(a1, mem.len() as int, h as int, n) {
        (r, mem, Err(AmxError::MemoryAccess))
    } else if !push_ok(a1, mem.len() as int) {
        (r, fill(mem, h / 4, values), Err(push_error(a1)))
    } else {
        (pushed(a1), pushed_memory(a1, fill(mem, h / 4, values), h), Ok(h))
    }
}

/// Pushing text as an unpacked string: `Encoding` when a character has no
/// byte in the code page, else pushing the cells of its bytes and a
/// terminator.
pub open spec fn push_text_spec(r: RawAmx, mem: Seq<Cell>, text: Seq<char>) -> (
    RawAmx,
    Seq<Cell>,
    AmxResult<Cell>,
) {
    if !encodable(text) {
        (r, mem, Err(AmxError::Encoding))
    } else {
        push_array_spec(r, mem, byte_cells(encoded(text).push(0)))
    }
}

/// The result of a push without the address it produced.
pub open spec fn drop_address(p: (RawAmx, Seq<Cell>, AmxResult<Cell>)) -> (
    RawAmx,
    Seq<Cell>,
    AmxResult<()>,
) {
    (
        p.0,
        p.1,
        match p.2 {
            Ok(_) => Ok(()),
            Err(e) => Err(e),
        },
    )
}

/// Pushing one argument of a call.
pub open spec fn push_arg_spec(r: RawAmx, mem: Seq<Cell>, arg: PushArg) -> (
    RawAmx,
    Seq<Cell>,
    AmxResult<()>,
) {
    match arg {
        PushArg::Value(v) => push_spec(r, mem, v),
        PushArg::Array(values) => drop_address(push_array_spec(r, mem, values@)),
        PushArg::Text(text) => drop_address(push_text_spec(r, mem, text@)),
    }
}

/// Pushing the first `i` arguments, the last of them first, up to the first
/// push that fails.
pub open spec fn pushes_spec(r: RawAmx, mem: Seq<Cell>, args: Seq<PushArg>, i: nat) -> (
    RawAmx,
    Seq<Cell>,
    AmxResult<()>,
)
    decreases i,
{
    if i == 0 {
        (r, mem, Ok(()))
    } else {
        let p = push_arg_spec(r, mem, args[i - 1]);
        if p.2 is Err {
            p
        } else {
            pushes_spec(p.0, p.1, args, (i - 1) as nat)
        }
    }
}

/// The result of `exec` from the given registers.
pub open spec fn exec_result(m: ModuleImage, r: RawAmx, index: i32, outcome: ExecOutcome) -> AmxResult<Cell> {
    if !exec_index_ok(m, index) {
        Err(AmxError::Index)
    } else if !pop_ok(r) {
        Err(AmxError::StackError)
    } else {
        status_result(outcome.status, outcome.retval)
    }
}

/// What pushing an array leaves behind, as `push_array_spec` says.
pub open spec fn push_array_post(s: AMX, values: Seq<Cell>, r: AmxResult<Cell>, t: AMX) -> bool {
    &&& t.module == s.module
    &&& t.natives == s.natives
    &&& (t.amx, t.memory@, r) == push_array_spec(s.amx, s.memory@, values)
}

/// The bytes of a host native's name.
pub open spec fn native_name(info: AmxNativeInfo) -> Seq<u8> {
    encode_utf8(info.name@)
}

/// Entry `i` of the list is the first one with the given name.
pub open spec fn first_named(list: Seq<AmxNativeInfo>, name: Seq<u8>, i: int) -> bool {
    &&& 0 <= i < list.len()
    &&& native_name(list[i]) == name
    &&& forall|j: int| 0 <= j < i ==> native_name(#[trigger] list[j]) != name
}

/// The entry point of the first host native in the list with the given name.
pub open spec fn lookup_native(list: Seq<AmxNativeInfo>, name: Seq<u8>) -> Option<Ucell> {
    if exists|i: int| first_named(list, name, i) {
        Some(list[choose|i: int| first_named(list, name, i)].func)
    } else {
        None
    }
}

/// The entry point bound to native `i` after registering `list`: the one
/// bound before, if any, else the first host native of the same name, else
/// none (0).
pub open spec fn bound_after(prev: Seq<Ucell>, list: Seq<AmxNativeInfo>, name: Seq<u8>, i: int) -> Ucell {
    if i < prev.len() && prev[i] != 0 {
        prev[i]
    } else {
        match lookup_native(list, name) {
            Some(f) => f,
            None => 0,
        }
    }
}

/// The entry point of native `i`: the one bound by registration, else the
/// address in its record.
pub open spec fn native_address(s: AMX, i: int, record_address: Ucell) -> Ucell {
    if i < s.natives@.len() && s.natives@[i] != 0 {
        s.natives@[i]
    } else {
        record_address
    }
}

/// The three sizes of the module's memory, in bytes: code, data, and stack
/// with heap.
pub open spec fn mem_sizes(h: AmxHeader) -> (int, int, int) {
    (h.dat - h.cod, h.hea - h.dat, h.stp - h.hea)
}

/// What running a function leaves behind: `Index` when the index names no
/// function of its table, `StackError` when the pushed cells cannot be taken
/// off the stack; else the pushed cells are taken off and the reported status
/// decides the result.
pub open spec fn run_post(s: AMX, index_ok: bool, outcome: ExecOutcome, r: AmxResult<Cell>, t: AMX) -> bool {
    &&& t.module == s.module
    &&& t.natives == s.natives
    &&& t.memory@ == s.memory@
    &&& if !index_ok {
        r == Err::<Cell, AmxError>(AmxError::Index) && t.amx == s.amx
    } else if !pop_ok(s.amx) {
        r == Err::<Cell, AmxError>(AmxError::StackError) && t.amx == s.amx
    } else {
        r == status_result(outcome.status, outcome.retval) && t.amx == popped(s.amx)
    }
}

/// What `exec` leaves behind, for an index into the publics table or the
/// main entry point.
pub open spec fn exec_post(s: AMX, index: i32, outcome: ExecOutcome, r: AmxResult<Cell>, t: AMX) -> bool {
    run_post(s, exec_index_ok(s.module, index), outcome, r, t)
}

/// What `exec_native` leaves behind, for an index into the natives table.
pub open spec fn exec_native_post(s: AMX, index: i32, outcome: ExecOutcome, r: AmxResult<Cell>, t: AMX) -> bool {
    run_post(s, native_index_ok(s.module, index), outcome, r, t)
}

/// What `release` leaves behind: the heap ends at `address` if it reached
/// above it; nothing else changes.
pub open spec fn release_post(s: AMX, address: Cell, r: AmxResult<()>, t: AMX) -> bool {
    &&& r is Ok
    &&& t.module == s.module
    &&& t.natives == s.natives
    &&& t.memory@ == s.memory@
    &&& t.amx == if s.amx.hea > address {
        RawAmx { hea: address, ..s.amx }
    } else {
        s.amx
    }
}

/// Pushing an array, running a function and releasing the array's address
/// gives the heap back exactly as it was before the push, whatever the run
/// reported.
pub proof fn lemma_push_exec_release(
    s0: AMX,
    values: Seq<Cell>,
    addr: Cell,
    s1: AMX,
    index: i32,
    outcome: ExecOutcome,
    r: AmxResult<Cell>,
    s2: AMX,
    s3: AMX,
)
    requires
        push_array_post(s0, values, Ok(addr), s1),
        exec_post(s1, index, outcome, r, s2),
        release_post(s2, addr, Ok(()), s3),
    ensures
        s3.amx.hea == s0.amx.hea,
{
}

/// The highest guest address resolves whenever the stack pointer lies below
/// it.
pub proof fn lemma_top_address_accessible(r: RawAmx)
    requires
        r.stk < r.stp,
        0 < r.stp,
    ensures
        accessible(r, r.stp - 1),
{
}

/// A value handed to a guest function: a cell, an array of cells, or text
/// that becomes an unpacked string.
pub enum PushArg {
    Value(Cell),
    Array(Vec<Cell>),
    Text(String),
}

impl AMX {
    /// Where the memory window starts in host memory.
    pub open spec fn data_base(&self) -> usize {
        match self.amx.data {
            Some(d) => d,
            None => self.amx.base.wrapping_add(self.module.header.dat),
        }
    }

    /// What resolving guest address `a` gives.
    pub open spec fn resolved(&self, a: Cell) -> AmxResult<usize> {
        if accessible(self.amx, a as int) {
            Ok(self.data_base().wrapping_add(a as usize))
        } else {
            Err(AmxError::MemoryAccess)
        }
    }

    /// A whole cell can be read or written at guest address `a`: the address
    /// resolves, and it starts a cell of the window (a multiple of the cell
    /// size). Strings and cells are only read at such addresses; any other
    /// address gives `MemoryAccess`.
    pub open spec fn cell_ok(&self, a: int) -> bool {
        accessible(self.amx, a) && a % 4 == 0 && a / 4 < self.memory@.len()
    }

    /// The cells from guest address `a` to the end of the window.
    pub open spec fn cells_from(&self, a: int) -> Seq<Cell> {
        self.memory@.subrange(a / 4, self.memory@.len() as int)
    }

    /// Wraps the state of a guest machine.
    pub fn new(amx: RawAmx, module: ModuleImage, memory: Vec<Cell>) -> (r: AMX)
        ensures
            r.amx == amx,
            r.module == module,
            r.memory@ == memory@,
            r.natives@.len() == 0,
    {
        AMX { amx, module, memory, natives: Vec::new() }
    }

    /// The module header.
    pub fn header(&self) -> (r: &AmxHeader)
        ensures
            *r == self.module.header,
    {
        &self.module.header
    }

    /// The flags of the compiled module.
    pub fn flags(&self) -> (r: AmxResult<u16>)
        ensures
            r == Ok::<u16, AmxError>(self.amx.flags),
    {
        Ok(self.amx.flags)
    }

    /// Where the memory window starts: the separate data section if there is
    /// one, else the image base plus the header's data offset.
    pub fn data_section(&self) -> (r: usize)
        ensures
            r == self.data_base(),
    {
        match self.amx.data {
            Some(d) => d,
            None => self.amx.base.wrapping_add(self.module.header.dat),
        }
    }

    /// Resolves a guest address to its host location; fails with
    /// `MemoryAccess` for an address in the gap between heap and stack,
    /// a negative one, or one at or above the top of the stack.
    pub fn get_address(&self, address: Cell) -> (r: AmxResult<usize>)
        ensures
            accessible(self.amx, address as int) ==> r == Ok::<usize, AmxError>(
                self.data_base().wrapping_add(address as usize),
            ),
            !accessible(self.amx, address as int) ==> r == Err::<usize, AmxError>(
                AmxError::MemoryAccess,
            ),
    {
        let r = self.amx;
        if address >= r.hea && address < r.stk || address < 0 || address >= r.stp {
            Err(AmxError::MemoryAccess)
        } else {
            Ok(self.data_section().wrapping_add(address as usize))
        }
    }

    /// Whether a whole cell can be read or written at `address`.
    fn check_cell(&self, address: Cell) -> (r: bool)
        ensures
            r == self.cell_ok(address as int),
    {
        self.get_address(address).is_ok() && address % 4 == 0 && ((address / 4) as usize)
            < self.memory.len()
    }

    /// The cell at a guest address.
    pub fn read_cell(&self, address: Cell) -> (r: AmxResult<Cell>)
        ensures
            self.cell_ok(address as int) ==> r == Ok::<Cell, AmxError>(
                self.memory@[address / 4],
            ),
            !self.cell_ok(address as int) ==> r == Err::<Cell, AmxError>(AmxError::MemoryAccess),
    {
        if self.check_cell(address) {
            Ok(self.memory[(address / 4) as usize])
        } else {
            Err(AmxError::MemoryAccess)
        }
    }

    /// Stores a cell at a guest address.
    pub fn write_cell(&mut self, address: Cell, value: Cell) -> (r: AmxResult<()>)
        ensures
            final(self).amx == old(self).amx,
            final(self).module == old(self).module,
            final(self).natives == old(self).natives,
            old(self).cell_ok(address as int) ==> r is Ok && final(self).memory@ == old(
                self,
            ).memory@.update(address / 4, value),
            !old(self).cell_ok(address as int) ==> r == Err::<(), AmxError>(
                AmxError::MemoryAccess,
            ) && final(self).memory@ == old(self).memory@,
    {
        if self.check_cell(address) {
            self.memory.set((address / 4) as usize, value);
            Ok(())
        } else {
            Err(AmxError::MemoryAccess)
        }
    }

    /// The length of the string at a guest address.
    pub fn string_len(&self, address: Cell) -> (r: AmxResult<usize>)
        ensures
            self.cell_ok(address as int) ==> r == Ok::<usize, AmxError>(
                string_of(self.cells_from(address as int), usize::MAX as int).len() as usize,
            ) && is_string_of(
                self.cells_from(address as int),
                usize::MAX as int,
                string_of(self.cells_from(address as int), usize::MAX as int),
            ),
            !self.cell_ok(address as int) ==> r == Err::<usize, AmxError>(AmxError::MemoryAccess),
    {
        if !self.check_cell(address) {
            return Err(AmxError::MemoryAccess);
        }
        let (_, cells) = self.memory.as_slice().split_at((address / 4) as usize);
        assert(cells@ == self.cells_from(address as int));
        Ok(string_length(cells))
    }

    /// The bytes of the string at a guest address: up to its terminator and
    /// at most `size` of them, packed or unpacked as its first cell says.
    pub fn get_cstring_of_length(&self, address: Cell, size: usize) -> (r: AmxResult<Vec<u8>>)
        ensures
            self.cell_ok(address as int) ==> (r matches Ok(v) && v@ == string_of(
                self.cells_from(address as int),
                size as int,
            )),
            !self.cell_ok(address as int) ==> r == Err::<Vec<u8>, AmxError>(
                AmxError::MemoryAccess,
            ),
    {
        if !self.check_cell(address) {
            return Err(AmxError::MemoryAccess);
        }
        let (_, cells) = self.memory.as_slice().split_at((address / 4) as usize);
        assert(cells@ == self.cells_from(address as int));
        Ok(decode_bytes(cells, size))
    }

    /// The text of the string at a guest address, at most `size` characters,
    /// decoded from the code page.
    pub fn get_string_of_length(&self, address: Cell, size: usize) -> (r: AmxResult<String>)
        ensures
            !self.cell_ok(address as int) ==> r == Err::<String, AmxError>(AmxError::MemoryAccess),
            self.cell_ok(address as int) ==> ({
                let bytes = string_of(self.cells_from(address as int), size as int);
                &&& decodable(bytes) ==> (r matches Ok(s) && s@ == decoded(bytes))
                &&& !decodable(bytes) ==> r == Err::<String, AmxError>(AmxError::Encoding)
            }),
    {
        let bytes = self.get_cstring_of_length(address, size)?;
        decode(bytes.as_slice())
    }

    /// The bytes of the whole string at a guest address.
    pub fn get_cstring(&self, address: Cell) -> (r: AmxResult<Vec<u8>>)
        ensures
            self.cell_ok(address as int) ==> (r matches Ok(v) && v@ == string_of(
                self.cells_from(address as int),
                usize::MAX as int,
            )),
            !self.cell_ok(address as int) ==> r == Err::<Vec<u8>, AmxError>(
                AmxError::MemoryAccess,
            ),
    {
        let len = self.string_len(address)?;
        let r = self.get_cstring_of_length(address, len);
        proof {
            let cells = self.cells_from(address as int);
            let s = string_of(cells, usize::MAX as int);
            lemma_string_at_own_length(cells, s);
            assert(exists|b: Seq<u8>| is_string_of(cells, len as int, b));
            lemma_string_unique(cells, len as int, s, string_of(cells, len as int));
        }
        r
    }

    /// The text of the string at a guest address, decoded from the code page.
    pub fn get_string(&self, address: Cell) -> (r: AmxResult<String>)
        ensures
            !self.cell_ok(address as int) ==> r == Err::<String, AmxError>(AmxError::MemoryAccess),
            self.cell_ok(address as int) ==> ({
                let bytes = string_of(self.cells_from(address as int), usize::MAX as int);
                &&& decodable(bytes) ==> (r matches Ok(s) && s@ == decoded(bytes))
                &&& !decodable(bytes) ==> r == Err::<String, AmxError>(AmxError::Encoding)
            }),
    {
        let bytes = self.get_cstring(address)?;
        decode(bytes.as_slice())
    }

    /// Writes at most `allowed` bytes as an unpacked string at a guest
    /// address, then a terminator.
    pub fn set_cstr_of_size(&mut self, bytes: &[u8], dest: Cell, allowed: usize) -> (r: AmxResult<()>)
        ensures
            final(self).amx == old(self).amx,
            final(self).module == old(self).module,
            final(self).natives == old(self).natives,
            ({
                let n = if allowed < bytes@.len() { allowed as int } else { bytes@.len() as int };
                let ok = old(self).cell_ok(dest as int) && block_ok(
                    old(self).amx,
                    old(self).memory@.len() as int,
                    dest as int,
                    n + 1,
                );
                &&& ok ==> r is Ok && final(self).memory@ == fill(
                    old(self).memory@,
                    dest / 4,
                    byte_cells(bytes@.subrange(0, n)).push(0),
                )
                &&& !ok ==> r == Err::<(), AmxError>(AmxError::MemoryAccess) && final(self).memory@
                    == old(self).memory@
            }),
    {
        let n = if allowed < bytes.len() { allowed } else { bytes.len() };
        if n >= self.memory.len() || !self.check_cell(dest) || !self.check_block(dest, n + 1) {
            return Err(AmxError::MemoryAccess);
        }
        let start = (dest / 4) as usize;
        let ghost vals = byte_cells(bytes@.subrange(0, n as int)).push(0);
        let ghost mem0 = self.memory@;
        let mlen = self.memory.len();
        let mut k: usize = 0;
        while k < n
            invariant
                self.amx == old(self).amx,
                self.module == old(self).module,
                self.natives == old(self).natives,
                n <= bytes@.len(),
                start + n < self.memory@.len(),
                vals == byte_cells(bytes@.subrange(0, n as int)).push(0),
                k <= n,
                self.memory@.len() == mem0.len(),
                mlen == mem0.len(),
                forall|i: int|
                    0 <= i < self.memory@.len() ==> #[trigger] self.memory@[i] == if start <= i
                        < start + k {
                        vals[i - start]
                    } else {
                        mem0[i]
                    },
            decreases n - k,
        {
            self.memory.set(start + k, bytes[k] as Cell);
            k = k + 1;
        }
        self.memory.set(start + n, 0);
        assert(self.memory@ =~= fill(mem0, start as int, vals));
        Ok(())
    }

    /// Whether `n` cells from guest address `a` lie in the memory window.
    fn check_block(&self, a: Cell, n: usize) -> (r: bool)
        ensures
            r == block_ok(self.amx, self.memory@.len() as int, a as int, n as int),
    {
        if n == 0 {
            return true;
        }
        if a < 0 || a % 4 != 0 || n > self.memory.len() || n > i32::MAX as usize {
            return false;
        }
        let last = a as i64 + 4 * (n as i64 - 1);
        last < self.amx.stp as i64 && (a / 4) as usize <= self.memory.len() - n
    }

    /// The sizes of code, data, and stack with heap, in bytes; `Format` when
    /// the header's offsets give a size out of range.
    pub fn mem_info(&self) -> (r: AmxResult<(i64, i64, i64)>)
        ensures
            ({
                let (c, d, sh) = mem_sizes(self.module.header);
                let fits = i64::MIN <= c <= i64::MAX && i64::MIN <= d <= i64::MAX && i64::MIN <= sh
                    <= i64::MAX;
                &&& fits ==> r == Ok::<(i64, i64, i64), AmxError>((c as i64, d as i64, sh as i64))
                &&& !fits ==> r == Err::<(i64, i64, i64), AmxError>(AmxError::Format)
            }),
    {
        let h = &self.module.header;
        let c = h.dat as i128 - h.cod as i128;
        let d = h.hea as i128 - h.dat as i128;
        let sh = h.stp as i128 - h.hea as i128;
        let lo = i64::MIN as i128;
        let hi = i64::MAX as i128;
        if c < lo || c > hi || d < lo || d > hi || sh < lo || sh > hi {
            return Err(AmxError::Format);
        }
        Ok((c as i64, d as i64, sh as i64))
    }

    /// The index of the public function with the given name.
    pub fn find_public(&self, name: &str) -> (r: AmxResult<i32>)
        ensures
            r == find_spec(self.module, Table::Publics, name.spec_bytes()),
    {
        self.module.find(Table::Publics, name.as_bytes())
    }

    /// The index of the native function with the given name.
    pub fn find_native(&self, name: &str) -> (r: AmxResult<i32>)
        ensures
            r == find_spec(self.module, Table::Natives, name.spec_bytes()),
    {
        self.module.find(Table::Natives, name.as_bytes())
    }

    /// The host location of the public variable with the given name.
    pub fn find_pubvar(&self, name: &str) -> (r: AmxResult<usize>)
        ensures
            match find_spec(self.module, Table::PubVars, name.spec_bytes()) {
                Ok(i) => match entry_of(self.module, Table::PubVars, i as int) {
                    Ok((a, _)) => r == self.resolved(#[verifier::truncate] (a as Cell)),
                    Err(e) => r == Err::<usize, AmxError>(e),
                },
                Err(e) => r == Err::<usize, AmxError>(e),
            },
    {
        let index = self.module.find(Table::PubVars, name.as_bytes())?;
        let (address, _) = self.module.entry(Table::PubVars, index)?;
        self.get_address(#[verifier::truncate] (address as Cell))
    }

    /// The number of natives in the module.
    pub fn num_natives(&self) -> (r: AmxResult<i32>)
        ensures
            table_len(self.module.header, Table::Natives) <= i32::MAX ==> r == Ok::<i32, AmxError>(
                table_len(self.module.header, Table::Natives) as i32,
            ),
            table_len(self.module.header, Table::Natives) > i32::MAX ==> r == Err::<i32, AmxError>(
                AmxError::Format,
            ),
    {
        let n = self.module.table_len(Table::Natives);
        if n > i32::MAX as usize {
            Err(AmxError::Format)
        } else {
            Ok(n as i32)
        }
    }

    /// The name of native `index`.
    pub fn get_native(&self, index: i32) -> (r: AmxResult<Vec<u8>>)
        ensures
            match entry_of(self.module, Table::Natives, index as int) {
                Ok((_, name)) => r matches Ok(v) && v@ == name,
                Err(e) => r == Err::<Vec<u8>, AmxError>(e),
            },
    {
        let (_, name) = self.module.entry(Table::Natives, index)?;
        Ok(name)
    }

    /// The name of public `index`.
    pub fn get_public(&self, index: i32) -> (r: AmxResult<Vec<u8>>)
        ensures
            match entry_of(self.module, Table::Publics, index as int) {
                Ok((_, name)) => r matches Ok(v) && v@ == name,
                Err(e) => r == Err::<Vec<u8>, AmxError>(e),
            },
    {
        let (_, name) = self.module.entry(Table::Publics, index)?;
        Ok(name)
    }

    /// The entry point of native `index`.
    pub fn get_native_addr(&self, index: i32) -> (r: AmxResult<usize>)
        ensures
            match entry_of(self.module, Table::Natives, index as int) {
                Ok((a, _)) => r == Ok::<usize, AmxError>(
                    native_address(*self, index as int, a) as usize,
                ),
                Err(e) => r == Err::<usize, AmxError>(e),
            },
    {
        let (address, _) = self.module.entry(Table::Natives, index)?;
        let i = index as usize;
        if i < self.natives.len() && self.natives[i] != 0 {
            Ok(self.natives[i] as usize)
        } else {
            Ok(address as usize)
        }
    }

    /// Binds the module's natives to host entry points by name. A native
    /// bound before keeps its entry point; the others take the first host
    /// native of the same name. Fails with `NotFound` when a native stays
    /// unbound, with `Memory` when a record cannot be read (nothing is bound
    /// then), and with `Format` when the table is too long to index.
    pub fn register(&mut self, natives: &[AmxNativeInfo]) -> (r: AmxResult<()>)
        ensures
            final(self).amx == old(self).amx,
            final(self).module == old(self).module,
            final(self).memory@ == old(self).memory@,
            ({
                let m = old(self).module;
                let len = table_len(m.header, Table::Natives);
                let readable = forall|i: int| 0 <= i < len ==> #[trigger] entry_of(m, Table::Natives, i) is Ok;
                &&& len > i32::MAX ==> r == Err::<(), AmxError>(AmxError::Format) && final(self).natives@ == old(self).natives@
                &&& len <= i32::MAX && !readable ==> r == Err::<(), AmxError>(AmxError::Memory) && final(self).natives@ == old(self).natives@
                &&& len <= i32::MAX && readable ==> {
                    &&& final(self).natives@.len() == len
                    &&& forall|i: int| 0 <= i < len ==> #[trigger] final(self).natives@[i] == bound_after(
                        old(self).natives@,
                        natives@,
                        entry_of(m, Table::Natives, i)->Ok_0.1,
                        i,
                    )
                    &&& r is Ok <==> forall|i: int| 0 <= i < len ==> #[trigger] final(self).natives@[i] != 0
                    &&& r is Err ==> r == Err::<(), AmxError>(AmxError::NotFound)
                }
            }),
    {
        let len = self.module.table_len(Table::Natives);
        if len > i32::MAX as usize {
            return Err(AmxError::Format);
        }
        let mut bound: Vec<Ucell> = Vec::new();
        let mut all_bound = true;
        let mut i: usize = 0;
        while i < len
            invariant
                len == table_len(self.module.header, Table::Natives),
                len <= i32::MAX,
                i <= len,
                self.amx == old(self).amx,
                self.module == old(self).module,
                self.memory@ == old(self).memory@,
                self.natives@ == old(self).natives@,
                bound@.len() == i,
                forall|k: int| 0 <= k < i ==> #[trigger] entry_of(self.module, Table::Natives, k) is Ok,
                forall|k: int| 0 <= k < i ==> #[trigger] bound@[k] == bound_after(
                    old(self).natives@,
                    natives@,
                    entry_of(self.module, Table::Natives, k)->Ok_0.1,
                    k,
                ),
                all_bound <==> forall|k: int| 0 <= k < i ==> #[trigger] bound@[k] != 0,
            decreases len - i,
        {
            let (_, name) = match self.module.entry(Table::Natives, i as i32) {
                Ok(e) => e,
                Err(_) => {
                    return Err(AmxError::Memory);
                },
            };
            let prev: Ucell = if i < self.natives.len() { self.natives[i] } else { 0 };
            let func = if prev != 0 {
                prev
            } else {
                match lookup(natives, name.as_slice()) {
                    Some(f) => f,
                    None => 0,
                }
            };
            let ghost before = bound@;
            bound.push(func);
            assert(forall|k: int| 0 <= k < i ==> #[trigger] bound@[k] == before[k]);
            assert forall|k: int| 0 <= k < i + 1 implies #[trigger] bound@[k] == bound_after(
                old(self).natives@,
                natives@,
                entry_of(self.module, Table::Natives, k)->Ok_0.1,
                k,
            ) by {
                if k < i {
                    assert(bound@[k] == before[k]);
                }
            }
            let ghost was = all_bound;
            all_bound = all_bound && func != 0;
            proof {
                assert(bound@[i as int] == func);
                if all_bound {
                    assert forall|k: int| 0 <= k < i + 1 implies #[trigger] bound@[k] != 0 by {
                        if k < i {
                            assert(before[k] != 0);
                        }
                    }
                } else if func != 0 {
                    assert(!was);
                    let w = choose|k: int| 0 <= k < i && !(#[trigger] before[k] != 0);
                    assert(bound@[w] == 0);
                } else {
                    assert(bound@[i as int] == 0);
                }
            }
            i = i + 1;
        }
        self.natives = bound;
        if all_bound {
            Ok(())
        } else {
            Err(AmxError::NotFound)
        }
    }

    /// Makes a fault visible to the guest. Only faults with a status code
    /// can be raised; the others fail with `Params`.
    pub fn raise_error(&mut self, error: AmxError) -> (r: AmxResult<()>)
        ensures
            final(self).module == old(self).module,
            final(self).natives == old(self).natives,
            final(self).memory@ == old(self).memory@,
            code_of(error) is Some ==> r is Ok && final(self).amx == (RawAmx {
                error: code_of(error)->0,
                ..old(self).amx
            }),
            code_of(error) is None ==> r == Err::<(), AmxError>(AmxError::Params) && final(self).amx
                == old(self).amx,
    {
        match error.code() {
            Some(c) => {
                self.amx.error = c;
                Ok(())
            },
            None => Err(AmxError::Params),
        }
    }

    /// Allots `cells` cells on the guest heap; returns their guest address
    /// and their host location. Fails with `Memory` when the heap would come
    /// closer to the stack than the margin.
    pub fn allot(&mut self, cells: usize) -> (r: AmxResult<(Cell, usize)>)
        ensures
            final(self).module == old(self).module,
            final(self).natives == old(self).natives,
            final(self).memory@ == old(self).memory@,
            allot_ok(old(self).amx, cells as int) ==> r == Ok::<(Cell, usize), AmxError>(
                (old(self).amx.hea, old(self).data_base().wrapping_add(old(self).amx.hea as usize)),
            ) && final(self).amx == allotted(old(self).amx, cells as int),
            !allot_ok(old(self).amx, cells as int) ==> r == Err::<(Cell, usize), AmxError>(
                AmxError::Memory,
            ) && final(self).amx == old(self).amx,
    {
        if cells > i32::MAX as usize {
            return Err(AmxError::Memory);
        }
        let need: i64 = 4 * cells as i64;
        if self.amx.stk as i64 - self.amx.hea as i64 - need < STACK_MARGIN {
            return Err(AmxError::Memory);
        }
        let addr = self.amx.hea;
        let phys = self.data_section().wrapping_add(addr as usize);
        self.amx.hea = (addr as i64 + need) as Cell;
        Ok((addr, phys))
    }

    /// Frees the heap above a guest address.
    pub fn release(&mut self, address: Cell) -> (r: AmxResult<()>)
        ensures
            release_post(*old(self), address, r, *final(self)),
    {
        if self.amx.hea > address {
            self.amx.hea = address;
        }
        Ok(())
    }

    /// Pushes a cell on the guest stack as an argument of the next
    /// execution.
    pub fn push(&mut self, value: Cell) -> (r: AmxResult<()>)
        ensures
            final(self).module == old(self).module,
            final(self).natives == old(self).natives,
            (final(self).amx, final(self).memory@, r) == push_spec(
                old(self).amx,
                old(self).memory@,
                value,
            ),
    {
        let r = self.amx;
        if r.hea as i64 + STACK_MARGIN > r.stk as i64 || r.paramcount == i32::MAX {
            return Err(AmxError::StackError);
        }
        let top = r.stk - 4;
        if top < 0 || top % 4 != 0 || top >= r.stp || (top / 4) as usize >= self.memory.len() {
            return Err(AmxError::MemoryAccess);
        }
        self.amx.stk = top;
        self.amx.paramcount = r.paramcount + 1;
        self.memory.set((top / 4) as usize, value);
        Ok(())
    }

    /// Allots cells for an array on the guest heap, copies the values in,
    /// and pushes their address; returns the address. On failure the
    /// allotted cells are released again.
    pub fn push_array(&mut self, values: &[Cell]) -> (r: AmxResult<Cell>)
        ensures
            push_array_post(*old(self), values@, r, *final(self)),
    {
        let (addr, _) = self.allot(values.len())?;
        if !self.check_block(addr, values.len()) {
            let _ = self.release(addr);
            return Err(AmxError::MemoryAccess);
        }
        let ghost mem0 = self.memory@;
        let ghost a1 = self.amx;
        let n = values.len();
        let start: usize = if n == 0 { 0 } else { (addr / 4) as usize };
        let mlen = self.memory.len();
        let mut k: usize = 0;
        while k < n
            invariant
                self.amx == a1,
                self.module == old(self).module,
                self.natives == old(self).natives,
                n == values@.len(),
                n > 0 ==> start == addr / 4 && start + n <= mlen,
                mlen == mem0.len(),
                self.memory@.len() == mem0.len(),
                k <= n,
                forall|i: int|
                    0 <= i < mem0.len() ==> #[trigger] self.memory@[i] == if start <= i < start + k {
                        values@[i - start]
                    } else {
                        mem0[i]
                    },
            decreases n - k,
        {
            self.memory.set(start + k, values[k]);
            k = k + 1;
        }
        assert(self.memory@ =~= fill(mem0, addr / 4, values@));
        match self.push(addr) {
            Ok(()) => Ok(addr),
            Err(e) => {
                let _ = self.release(addr);
                Err(e)
            },
        }
    }

    /// Pushes text as an unpacked string: its bytes in the code page, one per
    /// cell, then a terminator. Packed strings are refused with
    /// `Unsupported`.
    pub fn push_string(&mut self, text: &str, packed: bool) -> (r: AmxResult<Cell>)
        ensures
            final(self).module == old(self).module,
            final(self).natives == old(self).natives,
            packed ==> r == Err::<Cell, AmxError>(AmxError::Unsupported) && final(self).amx == old(
                self,
            ).amx && final(self).memory@ == old(self).memory@,
            !packed ==> (final(self).amx, final(self).memory@, r) == push_text_spec(
                old(self).amx,
                old(self).memory@,
                text@,
            ),
    {
        if packed {
            return Err(AmxError::Unsupported);
        }
        let bytes = encode_unpacked(text)?;
        let cells = unpacked_cells(bytes.as_slice());
        assert(cells@ =~= byte_cells(encoded(text@).push(0)));
        self.push_array(cells.as_slice())
    }

    /// Runs a public function (or the main entry point, `AMX_EXEC_MAIN`) with
    /// the arguments pushed before. The guest machine runs it and reports
    /// `outcome`; the pushed arguments are then taken off the stack and the
    /// status mapped to the result. An index outside the publics table fails
    /// with `Index`; a native is run with `exec_native`.
    pub fn exec(&mut self, index: i32, outcome: ExecOutcome) -> (r: AmxResult<Cell>)
        ensures
            exec_post(*old(self), index, outcome, r, *final(self)),
    {
        if index != AMX_EXEC_MAIN && (index < 0 || index as usize >= self.module.table_len(
            Table::Publics,
        )) {
            return Err(AmxError::Index);
        }
        self.finish_run(outcome)
    }

    /// Runs native `index`, as found by `find_native`, with the arguments
    /// pushed before, in the same way as `exec`. An index outside the natives
    /// table fails with `Index`.
    pub fn exec_native(&mut self, index: i32, outcome: ExecOutcome) -> (r: AmxResult<Cell>)
        ensures
            exec_native_post(*old(self), index, outcome, r, *final(self)),
    {
        if index < 0 || index as usize >= self.module.table_len(Table::Natives) {
            return Err(AmxError::Index);
        }
        self.finish_run(outcome)
    }

    /// Takes the pushed arguments off the stack after a run and maps the
    /// reported status.
    fn finish_run(&mut self, outcome: ExecOutcome) -> (r: AmxResult<Cell>)
        ensures
            run_post(*old(self), true, outcome, r, *final(self)),
    {
        let r = self.amx;
        if r.paramcount < 0 || r.stk as i64 + 4 * r.paramcount as i64 > i32::MAX as i64 {
            return Err(AmxError::StackError);
        }
        self.amx.stk = (r.stk as i64 + 4 * r.paramcount as i64) as Cell;
        self.amx.paramcount = 0;
        check_status(outcome.status, outcome.retval)
    }

    /// Calls a guest function with arguments: pushes them last first, runs
    /// it, and then releases every heap cell the arguments took, whether the
    /// call succeeded or not.
    pub fn call(&mut self, index: i32, args: &[PushArg], outcome: ExecOutcome) -> (r: AmxResult<
        Cell,
    >)
        ensures
            final(self).amx.hea == old(self).amx.hea,
            final(self).module == old(self).module,
            final(self).natives == old(self).natives,
            ({
                let p = pushes_spec(old(self).amx, old(self).memory@, args@, args@.len());
                let ran = p.2 is Ok && exec_index_ok(old(self).module, index) && pop_ok(p.0);
                let after = if ran {
                    popped(p.0)
                } else {
                    p.0
                };
                &&& match p.2 {
                    Err(e) => r == Err::<Cell, AmxError>(e),
                    Ok(_) => r == exec_result(old(self).module, p.0, index, outcome),
                }
                &&& final(self).amx == (RawAmx { hea: old(self).amx.hea, ..after })
                &&& final(self).memory@ == p.1
            }),
    {
        let mark = self.amx.hea;
        let ghost all = pushes_spec(old(self).amx, old(self).memory@, args@, args@.len());
        let mut i = args.len();
        let mut failed: Option<AmxError> = None;
        while i > 0 && failed.is_none()
            invariant
                i <= args@.len(),
                self.amx.hea >= mark,
                self.module == old(self).module,
                self.natives == old(self).natives,
                all == pushes_spec(old(self).amx, old(self).memory@, args@, args@.len()),
                failed is None ==> all == pushes_spec(self.amx, self.memory@, args@, i as nat),
                failed matches Some(e) ==> all == (self.amx, self.memory@, Err::<(), AmxError>(e)),
            decreases i,
        {
            i = i - 1;
            let pushed_ok = match &args[i] {
                PushArg::Value(v) => self.push(*v),
                PushArg::Array(values) => match self.push_array(values.as_slice()) {
                    Ok(_) => Ok(()),
                    Err(e) => Err(e),
                },
                PushArg::Text(text) => match self.push_string(text.as_str(), false) {
                    Ok(_) => Ok(()),
                    Err(e) => Err(e),
                },
            };
            if let Err(e) = pushed_ok {
                failed = Some(e);
            }
        }
        let r = match failed {
            Some(e) => Err(e),
            None => self.exec(index, outcome),
        };
        let _ = self.release(mark);
        r
    }
}

/// The entry point of the first host native in the list with the given name.
fn lookup(list: &[AmxNativeInfo], name: &[u8]) -> (r: Option<Ucell>)
    ensures
        r == lookup_native(list@, name@),
{
    let mut i: usize = 0;
    while i < list.len()
        invariant
            i <= list@.len(),
            forall|j: int| 0 <= j < i ==> native_name(#[trigger] list@[j]) != name@,
        decreases list.len() - i,
    {
        let info = &list[i];
        if bytes_eq(info.name.as_str().as_bytes(), name) {
            proof {
                assert(first_named(list@, name@, i as int));
                let c = choose|k: int| first_named(list@, name@, k);
                if c < i {
                    assert(native_name(list@[c]) != name@);
                } else if c > i {
                    assert(native_name(list@[i as int]) != name@);
                }
            }
            return Some(info.func);
        }
        i = i + 1;
    }
    None
}

/// The string of some cells, cut at its own length, is the same string.
proof fn lemma_string_at_own_length(cells: Seq<Cell>, s: Seq<u8>)
    requires
        is_string_of(cells, usize::MAX as int, s),
    ensures
        is_string_of(cells, s.len() as int, s),
{
}

} // verus!