//! The clocked register, the storage cell that everything else is built
//! from.
use vstd::prelude::*;
use super::traits::{Tickable, Value};

verus! {

/// The mathematical content of a clocked register.
pub struct RegView<T> {
    /// What every reader sees until the next clock edge.
    pub current: T,
    /// What the next clock edge makes current.
    pub pending: T,
    /// Whether the next clock edge takes `pending` over.
    pub enabled: bool,
}

/// One operation on a register that leaves its write enable alone.
pub enum RegOp<T> {
    /// Stage a value.
    Stage(T),
    /// The clock edge.
    Commit,
}

impl<T> RegView<T> {
    /// An enabled register that shows `init` and has `pending` staged.
    pub open spec fn fresh(init: T, pending: T) -> RegView<T> {
        RegView { current: init, pending, enabled: true }
    }

    /// The register after staging `data`.
    pub open spec fn set(self, data: T) -> RegView<T> {
        RegView { pending: data, ..self }
    }

    /// The register after a clock edge.
    pub open spec fn commit(self) -> RegView<T> {
        if self.enabled {
            RegView { current: self.pending, ..self }
        } else {
            self
        }
    }

    /// The register with its write enable set.
    pub open spec fn enable(self) -> RegView<T> {
        RegView { enabled: true, ..self }
    }

    /// The register with its write enable cleared.
    pub open spec fn disable(self) -> RegView<T> {
        RegView { enabled: false, ..self }
    }

    /// The register after one operation.
    pub open spec fn apply(self, op: RegOp<T>) -> RegView<T> {
        match op {
            RegOp::Stage(data) => self.set(data),
            RegOp::Commit => self.commit(),
        }
    }

    /// The register after a sequence of operations, first to last.
    pub open spec fn apply_all(self, ops: Seq<RegOp<T>>) -> RegView<T>
        decreases ops.len(),
    {
        if ops.len() == 0 {
            self
        } else {
            self.apply_all(ops.drop_last()).apply(ops.last())
        }
    }

    /// A new register shows its initial value, whatever is staged.
    pub proof fn lemma_fresh_shows_initial(init: T, pending: T)
        ensures
            RegView::fresh(init, pending).current == init,
    {
    }

    /// Staging a value does not change what readers see; on an enabled
    /// register the clock edge after it makes the staged value visible.
    pub proof fn lemma_set_visible_after_commit(self, data: T)
        ensures
            self.set(data).current == self.current,
            self.enabled ==> self.set(data).commit().current == data,
            !self.enabled ==> self.set(data).commit().current == self.current,
    {
    }

    /// A disabled register shows the same value after any sequence of
    /// stagings and clock edges, and is still disabled.
    pub proof fn lemma_disabled_holds(self, ops: Seq<RegOp<T>>)
        requires
            !self.enabled,
        ensures
            self.apply_all(ops).current == self.current,
            !self.apply_all(ops).enabled,
        decreases ops.len(),
    {
        if ops.len() > 0 {
            self.lemma_disabled_holds(ops.drop_last());
        }
    }

    /// Once a disabled register is enabled again, the next clock edge shows
    /// the value staged last.
    pub proof fn lemma_enable_resumes(self, data: T)
        ensures
            self.disable().set(data).commit().current == self.current,
            self.disable().set(data).enable().commit().current == data,
    {
    }
}

/// A two-phase storage cell: `set` stages a value, the clock edge commits it.
#[derive(Debug)]
pub struct Reg<T> {
    prev: T,
    next: T,
    enable: bool,
}

impl<T> View for Reg<T> {
    type V = RegView<T>;

    closed spec fn view(&self) -> RegView<T> {
        RegView { current: self.prev, pending: self.next, enabled: self.enable }
    }
}

impl<T: Value> Reg<T> {
    /// An enabled register that shows the zero of `T`.
    pub fn default() -> (r: Reg<T>)
        ensures
            r@ == RegView::fresh(T::zero_value(), T::zero_value()),
    {
        Reg { enable: true, prev: T::zero(), next: T::zero() }
    }

    /// An enabled register that shows `init`; the zero of `T` is staged.
    pub fn new(init: T) -> (r: Reg<T>)
        ensures
            r@ == RegView::fresh(init, T::zero_value()),
    {
        Reg { enable: true, prev: init, next: T::zero() }
    }

    /// The value committed by the last clock edge.
    pub fn get(&self) -> (v: T)
        ensures
            v == self@.current,
    {
        self.prev
    }

    /// Stages `data` for the next clock edge.
    pub fn set(&mut self, data: T)
        ensures
            final(self)@ == old(self)@.set(data),
    {
        self.next = data;
    }

    /// Lets the next clock edge take the staged value over.
    pub fn enable(&mut self)
        ensures
            final(self)@ == old(self)@.enable(),
    {
        self.enable = true;
    }

    /// Makes the clock edge leave the visible value alone.
    pub fn disable(&mut self)
        ensures
            final(self)@ == old(self)@.disable(),
    {
        self.enable = false;
    }
}

impl<T: Copy> Tickable for Reg<T> {
    open spec fn ready(&self) -> bool {
        true
    }

    open spec fn follows(&self, before: &Self) -> bool {
        self@ == before@.commit()
    }

    fn tick(&mut self) {
        if self.enable {
            self.prev = self.next;
        }
    }
}

} // verus!
