//! Byte-addressable memory with a registered output.
use vstd::prelude::*;
use vstd::arithmetic::div_mod::{lemma_breakdown, lemma_div_denominator};
use super::reg::{Reg, RegView};
use super::traits::Tickable;

verus! {

/// Number of bytes in the backing store.
pub const MEMSIZE: usize = 0x4_0000;

/// Physical index at which the high region starts.
pub const KERNBASE: usize = 0x2_0000;

/// First address of the high region.
pub const INSTBASE: u64 = 0x8000_0000;

/// How many bytes one access moves.
#[derive(Clone, Copy, Debug, PartialEq, Eq)]
pub enum Width {
    Byte,
    Half,
    Word,
    Double,
}

impl Width {
    /// The number of bytes.
    pub open spec fn size(self) -> nat {
        match self {
            Width::Byte => 1,
            Width::Half => 2,
            Width::Word => 4,
            Width::Double => 8,
        }
    }

    /// The number of bytes.
    pub fn bytes(self) -> (n: usize)
        ensures
            n == self.size(),
    {
        match self {
            Width::Byte => 1,
            Width::Half => 2,
            Width::Word => 4,
            Width::Double => 8,
        }
    }
}

/// What an access that failed was doing.
#[derive(Clone, Copy, Debug, PartialEq, Eq)]
pub enum Access {
    /// Reading an instruction word.
    Fetch,
    /// Reading data.
    Load,
    /// Writing data.
    Store,
    /// Copying a program image in.
    Image,
}

/// An access to the high region that falls outside the backing store.
#[derive(Clone, Copy, Debug, PartialEq, Eq)]
pub struct MemFault {
    pub addr: u64,
    pub kind: Access,
}

/// Whether `len` bytes from `addr` on lie in the high region and inside the
/// backing store.
pub open spec fn mapped(addr: u64, len: nat) -> bool {
    addr >= INSTBASE && KERNBASE + (addr - INSTBASE) + len <= MEMSIZE
}

/// The physical index of an address of the high region.
pub open spec fn physical(addr: u64) -> int {
    KERNBASE + (addr - INSTBASE)
}

/// 256 to the power `n`.
pub open spec fn pow256(n: nat) -> nat
    decreases n,
{
    if n == 0 {
        1
    } else {
        256 * pow256((n - 1) as nat)
    }
}

/// The number that `width` bytes from index `at` on spell, least significant
/// byte first.
pub open spec fn le_value(bytes: Seq<u8>, at: int, width: nat) -> nat
    decreases width,
{
    if width == 0 {
        0
    } else {
        bytes[at] as nat + 256 * le_value(bytes, at + 1, (width - 1) as nat)
    }
}

/// Byte `i` of `value`, counted from the least significant one.
pub open spec fn le_byte(value: u64, i: nat) -> u8 {
    ((value as nat / pow256(i)) % 256) as u8
}

/// `bytes` with the low `width` bytes of `value` written from index `at` on,
/// least significant byte first.
pub open spec fn le_store(bytes: Seq<u8>, at: int, width: nat, value: u64) -> Seq<u8> {
    Seq::new(
        bytes.len(),
        |j: int|
            if at <= j < at + width {
                le_byte(value, (j - at) as nat)
            } else {
                bytes[j]
            },
    )
}

/// `bytes` with `data` copied over it from index `at` on.
pub open spec fn overlay(bytes: Seq<u8>, at: int, data: Seq<u8>) -> Seq<u8> {
    Seq::new(
        bytes.len(),
        |j: int|
            if at <= j < at + data.len() {
                data[j - at]
            } else {
                bytes[j]
            },
    )
}

/// The words that a window of `rows` rows shows: one per row whose address,
/// `pc` plus four times the row, is mapped.
pub open spec fn window_words(bytes: Seq<u8>, pc: u64, rows: nat) -> Seq<u32>
    decreases rows,
{
    if rows == 0 {
        Seq::empty()
    } else {
        let rest = window_words(bytes, pc, (rows - 1) as nat);
        let addr = pc + 4 * (rows - 1);
        if addr <= u64::MAX && mapped(addr as u64, 4) {
            rest.push(le_value(bytes, physical(addr as u64), 4) as u32)
        } else {
            rest
        }
    }
}

/// The powers of 256 that fit a doubleword.
pub proof fn lemma_pow256_values()
    ensures
        pow256(0) == 1,
        pow256(1) == 0x100,
        pow256(2) == 0x1_0000,
        pow256(3) == 0x100_0000,
        pow256(4) == 0x1_0000_0000,
        pow256(5) == 0x100_0000_0000,
        pow256(6) == 0x1_0000_0000_0000,
        pow256(7) == 0x100_0000_0000_0000,
        pow256(8) == 0x1_0000_0000_0000_0000,
{
    reveal_with_fuel(pow256, 10);
}

/// `width` bytes spell a number below 256 to the power `width`.
pub proof fn lemma_le_value_bound(bytes: Seq<u8>, at: int, width: nat)
    ensures
        le_value(bytes, at, width) < pow256(width),
    decreases width,
{
    if width > 0 {
        lemma_le_value_bound(bytes, at + 1, (width - 1) as nat);
    }
}

/// Every power of 256 is positive.
pub proof fn lemma_pow256_positive(n: nat)
    ensures
        pow256(n) > 0,
    decreases n,
{
    if n > 0 {
        lemma_pow256_positive((n - 1) as nat);
    }
}

/// Bytes that are the digits of `value` to the base 256, from digit `skip`
/// on, spell `value` without its `skip` lowest digits, modulo 256 to the
/// power `width`.
proof fn lemma_digits_spell(bytes: Seq<u8>, at: int, width: nat, value: nat, skip: nat)
    requires
        0 <= at,
        at + width <= bytes.len(),
        forall|j: int|
            at <= j < at + width ==> #[trigger] bytes[j] == (value / pow256(
                (skip + j - at) as nat,
            )) % 256,
    ensures
        le_value(bytes, at, width) == (value / pow256(skip)) % pow256(width),
    decreases width,
{
    lemma_pow256_positive(skip);
    if width > 0 {
        let rest = (width - 1) as nat;
        assert forall|j: int| at + 1 <= j < at + 1 + rest implies #[trigger] bytes[j] == (value
            / pow256((skip + 1 + j - (at + 1)) as nat)) % 256 by {
            assert(bytes[j] == (value / pow256((skip + j - at) as nat)) % 256);
        }
        lemma_digits_spell(bytes, at + 1, rest, value, skip + 1);
        lemma_pow256_positive(rest);
        let x = value / pow256(skip);
        lemma_div_denominator(value as int, pow256(skip) as int, 256);
        assert(value / pow256(skip + 1) == x / 256);
        lemma_breakdown(x as int, 256, pow256(rest) as int);
        assert(bytes[at] == (value / pow256((skip + at - at) as nat)) % 256);
    }
}

/// The bytes that a store wrote spell, read from the same index on with the
/// same width, the value that was stored, modulo 256 to the power of the
/// width.
pub proof fn lemma_store_reads_back(bytes: Seq<u8>, at: int, width: nat, value: u64)
    requires
        0 <= at,
        at + width <= bytes.len(),
    ensures
        le_value(le_store(bytes, at, width, value), at, width) == value as nat % pow256(width),
{
    lemma_pow256_values();
    lemma_digits_spell(le_store(bytes, at, width, value), at, width, value as nat, 0);
}

/// The mathematical content of a memory block.
pub struct MemView {
    /// Whether the clock edge reaches the block.
    pub enabled: bool,
    /// The backing store.
    pub bytes: Seq<u8>,
    /// Physical index that the next clock edge reads from.
    pub read_address: nat,
    /// Number of bytes that the next clock edge reads.
    pub read_width: nat,
    /// Physical index that a pending write goes to.
    pub write_address: nat,
    /// Number of bytes of a pending write.
    pub write_width: nat,
    /// The value of a pending write.
    pub write_data: u64,
    /// Whether the next clock edge writes.
    pub write_enabled: bool,
    /// The registered output.
    pub output: RegView<u64>,
}

impl MemView {
    /// The read and the write port lie inside the backing store.
    pub open spec fn wf(self) -> bool {
        &&& self.bytes.len() == MEMSIZE
        &&& self.read_width <= 8
        &&& self.read_address + self.read_width <= MEMSIZE
        &&& self.write_width <= 8
        &&& self.write_address + self.write_width <= MEMSIZE
    }

    /// A zeroed block with nothing pending.
    pub open spec fn empty() -> MemView {
        MemView {
            enabled: true,
            bytes: Seq::new(MEMSIZE as nat, |j: int| 0u8),
            read_address: 0,
            read_width: 4,
            write_address: 0,
            write_width: 1,
            write_data: 0,
            write_enabled: false,
            output: RegView::fresh(0, 0),
        }
    }

    /// The block after `data` was copied in at `addr`. Nothing changes unless
    /// the whole of `data` is mapped.
    pub open spec fn load(self, addr: u64, data: Seq<u8>) -> MemView {
        if mapped(addr, data.len()) {
            MemView { bytes: overlay(self.bytes, physical(addr), data), ..self }
        } else {
            self
        }
    }

    /// The block after a read of `width` bytes at `addr` was issued. Nothing
    /// changes unless the bytes are mapped.
    pub open spec fn read(self, addr: u64, width: nat) -> MemView {
        if mapped(addr, width) {
            MemView { read_address: physical(addr) as nat, read_width: width, ..self }
        } else {
            self
        }
    }

    /// The block after a write of the low `width` bytes of `data` at `addr`
    /// was issued. Nothing changes unless the bytes are mapped.
    pub open spec fn write(self, addr: u64, width: nat, data: u64) -> MemView {
        if mapped(addr, width) {
            MemView {
                write_address: physical(addr) as nat,
                write_width: width,
                write_data: data,
                write_enabled: true,
                ..self
            }
        } else {
            self
        }
    }

    /// The backing store after the clock edge: a pending write is in it.
    pub open spec fn bytes_after_tick(self) -> Seq<u8> {
        if self.write_enabled {
            le_store(self.bytes, self.write_address as int, self.write_width, self.write_data)
        } else {
            self.bytes
        }
    }

    /// The block after a clock edge: the pending write is performed, the
    /// output commits what the edge before read, and what is now at the read
    /// port is staged in the output. A disabled block stays as it is.
    pub open spec fn tick(self) -> MemView {
        if self.enabled {
            let bytes = self.bytes_after_tick();
            MemView {
                bytes,
                write_enabled: false,
                output: self.output.commit().set(
                    le_value(bytes, self.read_address as int, self.read_width) as u64,
                ),
                ..self
            }
        } else {
            self
        }
    }

    /// The block with the clock edge let through.
    pub open spec fn enable(self) -> MemView {
        MemView { enabled: true, ..self }
    }

    /// The block with the clock edge kept out.
    pub open spec fn disable(self) -> MemView {
        MemView { enabled: false, ..self }
    }

    /// A clock edge keeps the ports inside the backing store.
    pub proof fn lemma_tick_wf(self)
        requires
            self.wf(),
        ensures
            self.tick().wf(),
    {
    }

    /// Bytes copied in at a mapped address are found again, unchanged, from
    /// the physical index of that address on.
    pub proof fn lemma_load_reads_back(self, addr: u64, data: Seq<u8>)
        requires
            self.wf(),
            mapped(addr, data.len()),
        ensures
            self.load(addr, data).bytes.subrange(
                physical(addr),
                physical(addr) + data.len(),
            ) == data,
            self.load(addr, data).wf(),
    {
        assert(self.load(addr, data).bytes.subrange(physical(addr), physical(addr) + data.len())
            =~= data);
    }

    /// One clock edge after a single byte was written to a mapped address,
    /// the byte stands at the physical index of that address, and no other
    /// byte has changed.
    pub proof fn lemma_byte_store_visible(self, addr: u64, data: u8)
        requires
            self.wf(),
            self.enabled,
            mapped(addr, 1),
        ensures
            self.write(addr, 1, data as u64).tick().bytes == self.bytes.update(
                physical(addr),
                data,
            ),
            self.write(addr, 1, data as u64).tick().bytes[physical(addr)] == data,
    {
        lemma_pow256_values();
        let after = self.write(addr, 1, data as u64).tick().bytes;
        assert(le_byte(data as u64, 0) == data);
        assert(after =~= self.bytes.update(physical(addr), data));
    }

    /// A value stored at a mapped address and read there with the same
    /// width shows at the output after two clock edges, cut to the width.
    pub proof fn lemma_store_then_read(self, addr: u64, width: nat, data: u64)
        requires
            self.wf(),
            self.enabled,
            self.output.enabled,
            mapped(addr, width),
            width <= 8,
        ensures
            self.write(addr, width, data).read(addr, width).tick().tick().output.current
                == data as nat % pow256(width),
    {
        lemma_store_reads_back(self.bytes, physical(addr), width, data);
        lemma_pow256_values();
        lemma_pow256_positive(width);
    }

    /// A read shows at the output after two clock edges, not after one: the
    /// first edge commits what was staged before the read was issued, the
    /// second one the bytes at the address that was read.
    pub proof fn lemma_read_latency(self, addr: u64, width: nat)
        requires
            self.wf(),
            self.enabled,
            self.output.enabled,
            mapped(addr, width),
            width <= 8,
        ensures
            self.read(addr, width).tick().output.current == self.output.pending,
            self.output.pending == self.output.current ==> self.read(
                addr,
                width,
            ).tick().output.current == self.output.current,
            self.read(addr, width).tick().tick().output.current == le_value(
                self.bytes_after_tick(),
                physical(addr),
                width,
            ) as u64,
    {
    }
}

/// Byte-addressable memory with a registered output. Addresses from
/// `INSTBASE` on are mapped to physical indices from `KERNBASE` on; lower
/// addresses have no mapping, and an access to one changes nothing.
#[derive(Debug)]
pub struct Mem {
    en: bool,
    wen: bool,
    raddr: usize,
    rwidth: usize,
    waddr: usize,
    wwidth: usize,
    wdata: u64,
    /// The registered output: what the clock edge before the last one read.
    pub out: Reg<u64>,
    mem: Vec<u8>,
}

impl View for Mem {
    type V = MemView;

    closed spec fn view(&self) -> MemView {
        MemView {
            enabled: self.en,
            bytes: self.mem@,
            read_address: self.raddr as nat,
            read_width: self.rwidth as nat,
            write_address: self.waddr as nat,
            write_width: self.wwidth as nat,
            write_data: self.wdata,
            write_enabled: self.wen,
            output: self.out@,
        }
    }
}

/// The physical index of `addr` if `len` bytes from it on are mapped.
pub fn locate(addr: u64, len: usize) -> (r: Option<usize>)
    ensures
        r is Some <==> mapped(addr, len as nat),
        r is Some ==> r->0 == physical(addr),
{
    if addr < INSTBASE {
        return None;
    }
    let offset: u64 = addr - INSTBASE;
    if offset > (MEMSIZE - KERNBASE) as u64 {
        return None;
    }
    let index: usize = KERNBASE + offset as usize;
    if len > MEMSIZE - index {
        return None;
    }
    Some(index)
}

impl Mem {
    /// A zeroed block with nothing pending.
    pub fn new() -> (m: Mem)
        ensures
            m@ == MemView::empty(),
            m@.wf(),
    {
        let m = Mem {
            en: true,
            raddr: 0,
            rwidth: 4,
            waddr: 0,
            wwidth: 1,
            wen: false,
            wdata: 0,
            out: Reg::<u64>::default(),
            mem: vec![0u8; MEMSIZE],
        };
        assert(m.mem@ =~= MemView::empty().bytes);
        m
    }

    /// Copies `bin` into the backing store at `addr`. Below `INSTBASE`
    /// nothing is copied; an image that reaches beyond the backing store is
    /// refused and nothing changes.
    pub fn load_array(&mut self, addr: u64, bin: &[u8]) -> (r: Result<(), MemFault>)
        requires
            old(self)@.wf(),
        ensures
            final(self)@ == old(self)@.load(addr, bin@),
            final(self)@.wf(),
            r is Err <==> addr >= INSTBASE && !mapped(addr, bin@.len()),
            r is Err ==> r == Err::<(), MemFault>(MemFault { addr, kind: Access::Image }),
    {
        if addr < INSTBASE {
            return Ok(());
        }
        let index: usize = match locate(addr, bin.len()) {
            Some(index) => index,
            None => {
                return Err(MemFault { addr, kind: Access::Image });
            },
        };
        let mut i: usize = 0;
        while i < bin.len()
            invariant
                i <= bin.len(),
                index + bin.len() <= MEMSIZE,
                self.mem@.len() == MEMSIZE,
                self.mem@ == overlay(old(self).mem@, index as int, bin@.take(i as int)),
                self.raddr == old(self).raddr,
                self.rwidth == old(self).rwidth,
                self.waddr == old(self).waddr,
                self.wwidth == old(self).wwidth,
                self.wdata == old(self).wdata,
                self.wen == old(self).wen,
                self.en == old(self).en,
                self.out == old(self).out,
            decreases bin.len() - i,
        {
            self.mem[index + i] = bin[i];
            i += 1;
            assert(self.mem@ =~= overlay(old(self).mem@, index as int, bin@.take(i as int)));
        }
        assert(bin@.take(i as int) =~= bin@);
        Ok(())
    }

    /// Issues a read of `width` at `addr`: the clock edge stages the bytes
    /// found there in the output. Below `INSTBASE` nothing is issued; a read
    /// that reaches beyond the backing store is refused and nothing changes.
    pub fn read_wide(&mut self, addr: u64, width: Width) -> (r: Result<(), MemFault>)
        requires
            old(self)@.wf(),
        ensures
            final(self)@ == old(self)@.read(addr, width.size()),
            final(self)@.wf(),
            r is Err <==> addr >= INSTBASE && !mapped(addr, width.size()),
            r is Err ==> r == Err::<(), MemFault>(MemFault { addr, kind: Access::Load }),
    {
        if addr < INSTBASE {
            return Ok(());
        }
        match locate(addr, width.bytes()) {
            Some(index) => {
                self.raddr = index;
                self.rwidth = width.bytes();
                Ok(())
            },
            None => Err(MemFault { addr, kind: Access::Load }),
        }
    }

    /// Issues a read of the word at `addr`.
    pub fn read(&mut self, addr: u64) -> (r: Result<(), MemFault>)
        requires
            old(self)@.wf(),
        ensures
            final(self)@ == old(self)@.read(addr, 4),
            final(self)@.wf(),
            r is Err <==> addr >= INSTBASE && !mapped(addr, 4),
            r is Err ==> r == Err::<(), MemFault>(MemFault { addr, kind: Access::Load }),
    {
        self.read_wide(addr, Width::Word)
    }

    /// Issues a write of the low `width` bytes of `data` at `addr`: the
    /// clock edge performs it. Below `INSTBASE` nothing is issued; a write
    /// that reaches beyond the backing store is refused and nothing changes.
    pub fn write_wide(&mut self, addr: u64, data: u64, width: Width) -> (r: Result<(), MemFault>)
        requires
            old(self)@.wf(),
        ensures
            final(self)@ == old(self)@.write(addr, width.size(), data),
            final(self)@.wf(),
            r is Err <==> addr >= INSTBASE && !mapped(addr, width.size()),
            r is Err ==> r == Err::<(), MemFault>(MemFault { addr, kind: Access::Store }),
    {
        if addr < INSTBASE {
            return Ok(());
        }
        match locate(addr, width.bytes()) {
            Some(index) => {
                self.waddr = index;
                self.wwidth = width.bytes();
                self.wdata = data;
                self.wen = true;
                Ok(())
            },
            None => Err(MemFault { addr, kind: Access::Store }),
        }
    }

    /// Issues a write of the byte `data` at `addr`.
    pub fn write(&mut self, addr: u64, data: u8) -> (r: Result<(), MemFault>)
        requires
            old(self)@.wf(),
        ensures
            final(self)@ == old(self)@.write(addr, 1, data as u64),
            final(self)@.wf(),
            r is Err <==> addr >= INSTBASE && !mapped(addr, 1),
            r is Err ==> r == Err::<(), MemFault>(MemFault { addr, kind: Access::Store }),
    {
        self.write_wide(addr, data as u64, Width::Byte)
    }

    /// The number that `width` bytes from physical index `at` on spell.
    fn load_le(&self, at: usize, width: usize) -> (v: u64)
        requires
            width <= 8,
            at + width <= self.mem.len(),
        ensures
            v == le_value(self.mem@, at as int, width as nat),
    {
        let mut acc: u64 = 0;
        let mut i: usize = width;
        while i > 0
            invariant
                i <= width <= 8,
                at + width <= self.mem.len(),
                acc == le_value(self.mem@, at + i, (width - i) as nat),
            decreases i,
        {
            proof {
                lemma_le_value_bound(self.mem@, at + i, (width - i) as nat);
                lemma_pow256_values();
            }
            i -= 1;
            acc = acc * 256 + self.mem[at + i] as u64;
        }
        acc
    }

    /// Writes the low `width` bytes of `value` from physical index `at` on.
    fn store_le(&mut self, at: usize, width: usize, value: u64)
        requires
            width <= 8,
            at + width <= old(self).mem.len(),
        ensures
            final(self).mem@ == le_store(old(self).mem@, at as int, width as nat, value),
            final(self).raddr == old(self).raddr,
            final(self).rwidth == old(self).rwidth,
            final(self).waddr == old(self).waddr,
            final(self).wwidth == old(self).wwidth,
            final(self).wdata == old(self).wdata,
            final(self).wen == old(self).wen,
            final(self).en == old(self).en,
            final(self).out == old(self).out,
    {
        let mut rest: u64 = value;
        let mut i: usize = 0;
        proof {
            lemma_pow256_values();
        }
        assert(self.mem@ =~= le_store(old(self).mem@, at as int, 0, value));
        while i < width
            invariant
                i <= width <= 8,
                at + width <= self.mem.len(),
                self.mem@.len() == old(self).mem@.len(),
                rest == value as nat / pow256(i as nat),
                self.mem@ == le_store(old(self).mem@, at as int, i as nat, value),
                self.raddr == old(self).raddr,
                self.rwidth == old(self).rwidth,
                self.waddr == old(self).waddr,
                self.wwidth == old(self).wwidth,
                self.wdata == old(self).wdata,
                self.wen == old(self).wen,
                self.en == old(self).en,
                self.out == old(self).out,
            decreases width - i,
        {
            proof {
                lemma_pow256_values();
                lemma_div_denominator(value as int, pow256(i as nat) as int, 256);
            }
            self.mem[at + i] = (rest % 256) as u8;
            rest = rest / 256;
            i += 1;
            assert(self.mem@ =~= le_store(old(self).mem@, at as int, i as nat, value));
        }
    }

    /// The word at `addr`, read at once: a word of the high region by its
    /// address, any other by its physical index. `None` if a byte of the word
    /// lies outside the backing store.
    pub fn read_u32(&self, addr: u64) -> (r: Option<u32>)
        requires
            self@.wf(),
        ensures
            addr >= INSTBASE ==> r == (if mapped(addr, 4) {
                Some(le_value(self@.bytes, physical(addr), 4) as u32)
            } else {
                None
            }),
            addr < INSTBASE ==> r == (if addr + 4 <= MEMSIZE {
                Some(le_value(self@.bytes, addr as int, 4) as u32)
            } else {
                None
            }),
    {
        let index: usize = if addr >= INSTBASE {
            match locate(addr, 4) {
                Some(index) => index,
                None => {
                    return None;
                },
            }
        } else if addr <= (MEMSIZE - 4) as u64 {
            addr as usize
        } else {
            return None;
        };
        proof {
            lemma_le_value_bound(self.mem@, index as int, 4);
            lemma_pow256_values();
        }
        Some(self.load_le(index, 4) as u32)
    }

    /// Lets the clock edge through.
    pub fn enable(&mut self)
        ensures
            final(self)@ == old(self)@.enable(),
    {
        self.en = true;
    }

    /// Keeps the clock edge out: the block stays as it is until it is
    /// enabled again.
    pub fn disable(&mut self)
        ensures
            final(self)@ == old(self)@.disable(),
    {
        self.en = false;
    }

    /// What the registered output shows.
    pub fn output(&self) -> (v: u64)
        ensures
            v == self@.output.current,
    {
        self.out.get()
    }

    /// The byte at physical index `index`, if there is one.
    pub fn peek(&self, index: usize) -> (r: Option<u8>)
        requires
            self@.wf(),
        ensures
            r == (if index < MEMSIZE {
                Some(self@.bytes[index as int])
            } else {
                None
            }),
    {
        if index < MEMSIZE {
            Some(self.mem[index])
        } else {
            None
        }
    }

    /// The words that a window of `rows` rows starting at `pc` shows.
    pub fn window(&self, pc: u64, rows: u16) -> (words: Vec<u32>)
        requires
            self@.wf(),
        ensures
            words@ == window_words(self@.bytes, pc, rows as nat),
    {
        let mut words: Vec<u32> = Vec::new();
        let mut i: u16 = 0;
        while i < rows
            invariant
                i <= rows,
                self@.wf(),
                words@ == window_words(self@.bytes, pc, i as nat),
            decreases rows - i,
        {
            let step: u64 = 4 * (i as u64);
            if step <= u64::MAX - pc {
                let addr: u64 = pc + step;
                if addr >= INSTBASE {
                    match self.read_u32(addr) {
                        Some(word) => {
                            words.push(word);
                        },
                        None => {},
                    }
                }
            }
            i += 1;
        }
        words
    }
}

impl Tickable for Mem {
    open spec fn ready(&self) -> bool {
        self@.wf()
    }

    open spec fn follows(&self, before: &Self) -> bool {
        self@ == before@.tick()
    }

    fn tick(&mut self) {
        if self.en {
            if self.wen {
                self.store_le(self.waddr, self.wwidth, self.wdata);
            }
            self.wen = false;
            self.out.tick();
            proof {
                lemma_le_value_bound(self.mem@, self.raddr as int, self.rwidth as nat);
                lemma_pow256_values();
            }
            let rdata: u64 = self.load_le(self.raddr, self.rwidth);
            self.out.set(rdata);
        }
    }
}

} // verus!
