//! The architectural registers and their names.
use vstd::prelude::*;
use vstd::string::StrSliceExecFns;
use super::reg::{Reg, RegView};
use super::traits::{Tickable, Value};

verus! {

/// Number of architectural registers.
pub const REGISTERS: usize = 32;

/// Number of names that the registers go by: one each, and `fp` for the
/// register that is also `s0`.
pub const NAMES: u8 = 33;

/// Entry `k` of the table of register names.
pub open spec fn name_at(k: int) -> Seq<char> {
    if k == 0 {
        "zero"@
    } else if k == 1 {
        "ra"@
    } else if k == 2 {
        "sp"@
    } else if k == 3 {
        "gp"@
    } else if k == 4 {
        "tp"@
    } else if k == 5 {
        "t0"@
    } else if k == 6 {
        "t1"@
    } else if k == 7 {
        "t2"@
    } else if k == 8 {
        "s0"@
    } else if k == 9 {
        "s1"@
    } else if k == 10 {
        "a0"@
    } else if k == 11 {
        "a1"@
    } else if k == 12 {
        "a2"@
    } else if k == 13 {
        "a3"@
    } else if k == 14 {
        "a4"@
    } else if k == 15 {
        "a5"@
    } else if k == 16 {
        "a6"@
    } else if k == 17 {
        "a7"@
    } else if k == 18 {
        "s2"@
    } else if k == 19 {
        "s3"@
    } else if k == 20 {
        "s4"@
    } else if k == 21 {
        "s5"@
    } else if k == 22 {
        "s6"@
    } else if k == 23 {
        "s7"@
    } else if k == 24 {
        "s8"@
    } else if k == 25 {
        "s9"@
    } else if k == 26 {
        "s10"@
    } else if k == 27 {
        "s11"@
    } else if k == 28 {
        "t3"@
    } else if k == 29 {
        "t4"@
    } else if k == 30 {
        "t5"@
    } else if k == 31 {
        "t6"@
    } else {
        "fp"@
    }
}

/// The register that entry `k` of the table names.
pub open spec fn number_at(k: int) -> u8 {
    if k == 32 {
        8
    } else {
        k as u8
    }
}

/// The register of the first entry from `from` on whose name is `name`.
pub open spec fn find_name(name: Seq<char>, from: int) -> Option<u8>
    decreases NAMES - from,
{
    if from < 0 || from >= NAMES {
        None
    } else if name_at(from) == name {
        Some(number_at(from))
    } else {
        find_name(name, from + 1)
    }
}

/// The number of the register that goes by `name`.
pub open spec fn abi_index(name: Seq<char>) -> Option<u8> {
    find_name(name, 0)
}

/// A name that stands at entry `k` of the table and at no entry before it
/// is the name of the register of entry `k`.
pub proof fn lemma_first_entry(name: Seq<char>, k: int, from: int)
    requires
        0 <= from <= k < NAMES,
        name_at(k) == name,
        forall|j: int| from <= j < k ==> name_at(j) != name,
    ensures
        find_name(name, from) == Some(number_at(k)),
    decreases k - from,
{
    if from < k {
        lemma_first_entry(name, k, from + 1);
    }
}

/// No two entries of the table hold the same name.
pub proof fn lemma_names_differ()
    ensures
        forall|j: int, k: int| 0 <= j < k < NAMES ==> name_at(j) != name_at(k),
{
    reveal_strlit("zero");
    reveal_strlit("ra");
    reveal_strlit("sp");
    reveal_strlit("gp");
    reveal_strlit("tp");
    reveal_strlit("t0");
    reveal_strlit("t1");
    reveal_strlit("t2");
    reveal_strlit("s0");
    reveal_strlit("s1");
    reveal_strlit("a0");
    reveal_strlit("a1");
    reveal_strlit("a2");
    reveal_strlit("a3");
    reveal_strlit("a4");
    reveal_strlit("a5");
    reveal_strlit("a6");
    reveal_strlit("a7");
    reveal_strlit("s2");
    reveal_strlit("s3");
    reveal_strlit("s4");
    reveal_strlit("s5");
    reveal_strlit("s6");
    reveal_strlit("s7");
    reveal_strlit("s8");
    reveal_strlit("s9");
    reveal_strlit("s10");
    reveal_strlit("s11");
    reveal_strlit("t3");
    reveal_strlit("t4");
    reveal_strlit("t5");
    reveal_strlit("t6");
    reveal_strlit("fp");
    assert forall|j: int, k: int| 0 <= j < k < NAMES implies name_at(j) != name_at(k) by {
        let a = name_at(j);
        let b = name_at(k);
        if a.len() == b.len() && a[0] == b[0] && a[1] == b[1] {
            if a.len() == 3 {
                assert(a[2] != b[2]);
            }
        }
    }
}

/// Every name of the table is the name of the register of its entry: `zero`
/// of register 0, `a0` of register 10, `fp` of register 8, and so on.
pub proof fn lemma_table(k: int)
    requires
        0 <= k < NAMES,
    ensures
        abi_index(name_at(k)) == Some(number_at(k)),
{
    lemma_names_differ();
    lemma_first_entry(name_at(k), k, 0);
}

/// The mathematical content of a register file.
pub struct RegFileView<T> {
    pub regs: Seq<RegView<T>>,
}

impl<T> RegFileView<T> {
    /// What register `index` shows.
    pub open spec fn read(self, index: int) -> T {
        self.regs[index].current
    }

    /// The file after `value` was staged for register `index`; register 0
    /// takes no value.
    pub open spec fn write(self, index: int, value: T) -> RegFileView<T> {
        if index == 0 {
            self
        } else {
            RegFileView { regs: self.regs.update(index, self.regs[index].set(value)) }
        }
    }

    /// The file after a clock edge.
    pub open spec fn tick(self) -> RegFileView<T> {
        RegFileView { regs: Seq::new(self.regs.len(), |i: int| self.regs[i].commit()) }
    }

    /// What the registers show, by number.
    pub open spec fn values(self) -> Seq<T> {
        Seq::new(self.regs.len(), |i: int| self.regs[i].current)
    }
}

impl<T: Value> RegFileView<T> {
    /// There are 32 registers, all enabled, and register 0 shows zero and has
    /// zero staged.
    pub open spec fn wf(self) -> bool {
        &&& self.regs.len() == REGISTERS
        &&& self.regs[0].current == T::zero_value()
        &&& self.regs[0].pending == T::zero_value()
        &&& forall|i: int| 0 <= i < REGISTERS ==> (#[trigger] self.regs[i]).enabled
    }

    /// 32 enabled registers that show zero.
    pub open spec fn zeroed() -> RegFileView<T> {
        RegFileView {
            regs: Seq::new(
                REGISTERS as nat,
                |i: int| RegView::fresh(T::zero_value(), T::zero_value()),
            ),
        }
    }

    /// Register 0 shows zero whatever is written and however often the clock
    /// ticks.
    pub proof fn lemma_zero_is_hard_wired(self, index: int, value: T)
        requires
            self.wf(),
            0 <= index < REGISTERS,
        ensures
            self.write(index, value).wf(),
            self.tick().wf(),
            self.write(index, value).tick().read(0) == T::zero_value(),
    {
    }

    /// A value written to a register other than 0 shows after the next
    /// clock edge and not before; no other register takes it.
    pub proof fn lemma_write_visible_after_tick(self, index: int, value: T)
        requires
            self.wf(),
            0 < index < REGISTERS,
        ensures
            self.write(index, value).read(index) == self.read(index),
            self.write(index, value).tick().read(index) == value,
            forall|j: int|
                0 <= j < REGISTERS && j != index ==> self.write(index, value).tick().read(j)
                    == self.tick().read(j),
    {
    }
}

/// The architectural registers, each a clocked register. Register 0 is
/// hard-wired to zero.
#[derive(Debug)]
pub struct RegFile<T> {
    regs: Vec<Reg<T>>,
}

impl<T> View for RegFile<T> {
    type V = RegFileView<T>;

    closed spec fn view(&self) -> RegFileView<T> {
        RegFileView { regs: Seq::new(self.regs@.len(), |i: int| self.regs@[i]@) }
    }
}

/// Whether two strings hold the same characters.
fn same_text(a: &str, b: &str) -> (r: bool)
    ensures
        r == (a@ == b@),
{
    let n: usize = a.unicode_len();
    if n != b.unicode_len() {
        return false;
    }
    let mut i: usize = 0;
    while i < n
        invariant
            i <= n,
            n == a@.len(),
            n == b@.len(),
            forall|j: int| 0 <= j < i ==> a@[j] == b@[j],
        decreases n - i,
    {
        if a.get_char(i) != b.get_char(i) {
            return false;
        }
        i += 1;
    }
    assert(a@ =~= b@);
    true
}

/// Entry `k` of the table of register names.
fn table_name(k: u8) -> (r: &'static str)
    requires
        k < NAMES,
    ensures
        r@ == name_at(k as int),
{
    match k {
        0 => "zero",
        1 => "ra",
        2 => "sp",
        3 => "gp",
        4 => "tp",
        5 => "t0",
        6 => "t1",
        7 => "t2",
        8 => "s0",
        9 => "s1",
        10 => "a0",
        11 => "a1",
        12 => "a2",
        13 => "a3",
        14 => "a4",
        15 => "a5",
        16 => "a6",
        17 => "a7",
        18 => "s2",
        19 => "s3",
        20 => "s4",
        21 => "s5",
        22 => "s6",
        23 => "s7",
        24 => "s8",
        25 => "s9",
        26 => "s10",
        27 => "s11",
        28 => "t3",
        29 => "t4",
        30 => "t5",
        31 => "t6",
        _ => "fp",
    }
}

/// The number of the register that goes by `name`; `None` if none does.
pub fn index_of(name: &str) -> (r: Option<u8>)
    ensures
        r == abi_index(name@),
        r is Some ==> r->0 < REGISTERS,
{
    let mut k: u8 = 0;
    while k < NAMES
        invariant
            k <= NAMES,
            abi_index(name@) == find_name(name@, k as int),
        decreases NAMES - k,
    {
        if same_text(table_name(k), name) {
            return Some(if k == 32 {
                8
            } else {
                k
            });
        }
        k += 1;
    }
    None
}

impl<T: Value> RegFile<T> {
    /// A file of 32 enabled registers that show zero.
    pub fn new() -> (f: RegFile<T>)
        ensures
            f@ == RegFileView::<T>::zeroed(),
            f@.wf(),
    {
        let mut regs: Vec<Reg<T>> = Vec::new();
        let mut i: usize = 0;
        while i < REGISTERS
            invariant
                i <= REGISTERS,
                regs@.len() == i,
                forall|j: int|
                    0 <= j < i ==> (#[trigger] regs@[j])@ == RegView::fresh(
                        T::zero_value(),
                        T::zero_value(),
                    ),
            decreases REGISTERS - i,
        {
            regs.push(Reg::default());
            i += 1;
        }
        let f = RegFile { regs };
        assert(f@.regs =~= RegFileView::<T>::zeroed().regs);
        f
    }

    /// What the register that goes by `name` shows; `None` if no register
    /// goes by that name.
    pub fn get(&self, name: &str) -> (r: Option<T>)
        requires
            self@.wf(),
        ensures
            r == match abi_index(name@) {
                Some(index) => Some(self@.read(index as int)),
                None => None,
            },
    {
        match index_of(name) {
            Some(index) => Some(self.read(index)),
            None => None,
        }
    }

    /// What register `index` shows.
    pub fn read(&self, index: u8) -> (v: T)
        requires
            self@.wf(),
            index < REGISTERS,
        ensures
            v == self@.read(index as int),
    {
        self.regs[index as usize].get()
    }

    /// Stages `value` for register `index`. A write to register 0 is
    /// ignored.
    pub fn write(&mut self, index: u8, value: T)
        requires
            old(self)@.wf(),
            index < REGISTERS,
        ensures
            final(self)@ == old(self)@.write(index as int, value),
            final(self)@.wf(),
    {
        if index != 0 {
            self.regs[index as usize].set(value);
            assert(self@.regs =~= old(self)@.write(index as int, value).regs);
        }
    }

    /// What the registers show, by number.
    pub fn values(&self) -> (v: Vec<T>)
        requires
            self@.wf(),
        ensures
            v@ == self@.values(),
    {
        let mut v: Vec<T> = Vec::new();
        let mut i: usize = 0;
        while i < REGISTERS
            invariant
                i <= REGISTERS,
                self@.wf(),
                v@.len() == i,
                forall|j: int| 0 <= j < i ==> v@[j] == self@.regs[j].current,
            decreases REGISTERS - i,
        {
            v.push(self.regs[i].get());
            i += 1;
        }
        assert(v@ =~= self@.values());
        v
    }
}

impl<T: Value> Tickable for RegFile<T> {
    open spec fn ready(&self) -> bool {
        self@.wf()
    }

    open spec fn follows(&self, before: &Self) -> bool {
        self@ == before@.tick()
    }

    fn tick(&mut self) {
        let mut i: usize = 0;
        while i < REGISTERS
            invariant
                i <= REGISTERS,
                self.regs@.len() == REGISTERS,
                forall|j: int| 0 <= j < i ==> (#[trigger] self.regs@[j])@ == old(self).regs@[j]@.commit(),
                forall|j: int| i <= j < REGISTERS ==> (#[trigger] self.regs@[j])@ == old(self).regs@[j]@,
            decreases REGISTERS - i,
        {
            self.regs[i].tick();
            i += 1;
        }
        assert(self@.regs =~= old(self)@.tick().regs);
    }
}

} // verus!
