//! The execution stack: a value stack of 64-bit registers cut into one
//! window per call frame, and the frame stack.

use vstd::prelude::*;
use crate::compile::FuncBody;
use crate::const_pool::ConstPool;
use crate::error::TrapCode;
use crate::provider::{ExecProvider, RegisterOrImmediate};
use crate::registers::ExecRegisterSlice;

verus! {

/// The default value stack budget in bytes for the initial length.
pub const DEFAULT_VALUE_STACK_LIMIT: usize = 65536;

/// The default maximum number of nested calls.
pub const DEFAULT_CALL_STACK_LIMIT: usize = 65536;

/// The configured limits of the [`Stack`].
#[derive(Debug, Copy, Clone, PartialEq, Eq, Structural)]
pub struct StackLimits {
    /// The initial number of stack registers that the [`Stack`] prepares.
    pub initial_len: usize,
    /// The maximum number of stack registers in use that the [`Stack`] allows.
    pub maximum_len: usize,
    /// The maximum number of nested calls that the [`Stack`] allows.
    pub maximum_recursion_depth: usize,
}

impl StackLimits {
    /// The default limits: 64 KiB of 8-byte registers to start with, 1024 times
    /// as many at most.
    pub fn default_limits() -> (r: Self)
        ensures
            r.initial_len == DEFAULT_VALUE_STACK_LIMIT / 8,
            r.maximum_len == 1024 * r.initial_len,
            r.maximum_recursion_depth == DEFAULT_CALL_STACK_LIMIT,
    {
        let initial_len = DEFAULT_VALUE_STACK_LIMIT / 8;
        StackLimits { initial_len, maximum_len: 1024 * initial_len, maximum_recursion_depth: DEFAULT_CALL_STACK_LIMIT }
    }
}

impl Default for StackLimits {
    fn default() -> (r: Self)
        ensures
            r.initial_len == DEFAULT_VALUE_STACK_LIMIT / 8,
            r.maximum_len == 1024 * r.initial_len,
            r.maximum_recursion_depth == DEFAULT_CALL_STACK_LIMIT,
    {
        Self::default_limits()
    }
}

/// The region of the value stack that holds the registers of a frame.
#[derive(Debug, Copy, Clone, PartialEq, Eq, Structural)]
pub struct FrameRegion {
    pub start: usize,
    pub len: usize,
}

impl FrameRegion {
    /// Creates a region of `len` registers from `start` on.
    pub fn new(start: usize, len: usize) -> (r: Self)
        ensures
            r == (FrameRegion { start, len }),
    {
        FrameRegion { start, len }
    }

    /// Returns the position after the region.
    pub fn end(&self) -> (r: usize)
        requires
            self.start + self.len <= usize::MAX,
        ensures
            r == self.start + self.len,
    {
        self.start + self.len
    }

    /// Returns `true` if `other` starts where `self` ends.
    pub fn followed_by(&self, other: &FrameRegion) -> (r: bool)
        requires
            self.start + self.len <= usize::MAX,
        ensures
            r == (self.start + self.len == other.start),
    {
        self.start + self.len == other.start
    }
}

/// A handle of the instance that a frame executes in.
#[derive(Debug, Copy, Clone, PartialEq, Eq, Structural)]
pub struct Instance(pub u32);

/// A handle of a linear memory.
#[derive(Debug, Copy, Clone, PartialEq, Eq, Structural)]
pub struct Memory(pub u32);

/// A handle of a table.
#[derive(Debug, Copy, Clone, PartialEq, Eq, Structural)]
pub struct Table(pub u32);

/// A call frame.
#[derive(Debug, Copy, Clone, PartialEq, Eq, Structural)]
pub struct StackFrame {
    /// The index of the next instruction of the frame's function.
    pub pc: usize,
    /// The registers of the frame on the value stack.
    pub region: FrameRegion,
    /// The caller's registers that receive the results of the frame.
    pub results: ExecRegisterSlice,
    /// The instance the function executes in.
    pub instance: Instance,
    /// The compiled body of the function.
    pub func_body: FuncBody,
    /// The default linear memory of the instance, once looked up.
    pub default_memory: Option<Memory>,
    /// The default table of the instance, once looked up.
    pub default_table: Option<Table>,
}

/// A reference to a frame of the [`Stack`] by its depth.
#[derive(Debug, Copy, Clone, PartialEq, Eq, Structural)]
pub struct StackFrameRef(pub usize);

/// The value that `p` provides in the frame region `region` of `values`.
pub open spec fn provider_value(values: Seq<u64>, region: FrameRegion, consts: Seq<u64>, p: ExecProvider) -> u64 {
    match p@ {
        RegisterOrImmediate::Register(r) => values[region.start + r.0],
        RegisterOrImmediate::Immediate(c) => consts[c.0 as int],
    }
}

/// `p` refers to a register of the region or to a constant of the pool.
pub open spec fn provider_in(region: FrameRegion, consts: Seq<u64>, p: ExecProvider) -> bool {
    match p@ {
        RegisterOrImmediate::Register(r) => r.0 < region.len,
        RegisterOrImmediate::Immediate(c) => c.0 < consts.len(),
    }
}

/// The value stack: the registers of all frames, one after the other.
#[derive(Debug)]
pub struct ValueStack {
    values: Vec<u64>,
    maximum_len: usize,
}

impl ValueStack {
    /// The registers, bottom first.
    pub closed spec fn view(&self) -> Seq<u64> {
        self.values@
    }

    /// The largest number of registers the stack holds.
    pub closed spec fn spec_maximum_len(&self) -> usize {
        self.maximum_len
    }

    /// Creates an empty value stack that holds up to `maximum_len` registers.
    pub fn new(initial_len: usize, maximum_len: usize) -> (r: Self)
        requires
            initial_len <= maximum_len,
        ensures
            r@.len() == 0,
            r.spec_maximum_len() == maximum_len,
    {
        ValueStack { values: Vec::with_capacity(initial_len), maximum_len }
    }

    /// Returns the length of the value stack.
    pub fn len(&self) -> (r: usize)
        ensures
            r == self@.len(),
    {
        self.values.len()
    }

    /// Clears the value stack, removing all values.
    pub fn clear(&mut self)
        ensures
            final(self)@.len() == 0,
            final(self).spec_maximum_len() == old(self).spec_maximum_len(),
    {
        self.values.clear()
    }

    /// Extends the value stack by `delta` registers set to zero and returns
    /// their region; fails with a stack overflow, changing nothing, where the
    /// new length would exceed the maximum.
    pub fn extend_by(&mut self, delta: usize) -> (r: Result<FrameRegion, TrapCode>)
        ensures
            final(self).spec_maximum_len() == old(self).spec_maximum_len(),
            old(self)@.len() + delta > old(self).spec_maximum_len() ==> {
                &&& r == Err::<FrameRegion, TrapCode>(TrapCode::StackOverflow)
                &&& final(self)@ == old(self)@
            },
            old(self)@.len() + delta <= old(self).spec_maximum_len() ==> {
                &&& r == Ok::<FrameRegion, TrapCode>(FrameRegion { start: old(self)@.len() as usize, len: delta })
                &&& final(self)@.len() == old(self)@.len() + delta
                &&& final(self)@.subrange(0, old(self)@.len() as int) == old(self)@
                &&& forall|i: int| old(self)@.len() <= i < final(self)@.len() ==> #[trigger] final(self)@[i] == 0
            },
    {
        let len = self.values.len();
        if delta > self.maximum_len || len > self.maximum_len - delta {
            return Err(TrapCode::StackOverflow);
        }
        let ghost old_values = self.values@;
        let mut k: usize = 0;
        while k < delta
            invariant
                k <= delta,
                len == old_values.len(),
                self.maximum_len == old(self).maximum_len,
                self.values@.len() == len + k,
                self.values@.subrange(0, len as int) == old_values,
                forall|i: int| len <= i < len + k ==> #[trigger] self.values@[i] == 0,
            decreases delta - k,
        {
            self.values.push(0);
            proof {
                assert forall|j: int| 0 <= j < len implies self.values@[j] == old_values[j] by {
                    assert(self.values@[j] == self.values@.drop_last()[j]);
                    assert(self.values@.drop_last().subrange(0, len as int)[j] == old_values[j]);
                }
                assert(self.values@.subrange(0, len as int) =~= old_values);
            }
            k += 1;
        }
        Ok(FrameRegion::new(len, delta))
    }

    /// Shrinks the value stack by `delta` values.
    pub fn shrink_by(&mut self, delta: usize)
        requires
            delta <= old(self)@.len(),
        ensures
            final(self)@ == old(self)@.subrange(0, old(self)@.len() - delta),
            final(self).spec_maximum_len() == old(self).spec_maximum_len(),
    {
        let len = self.values.len();
        self.values.truncate(len - delta);
    }

    /// Returns the registers of `region`.
    pub fn frame_regs(&self, region: FrameRegion) -> (r: &[u64])
        requires
            region.start + region.len <= self@.len(),
        ensures
            r@ == self@.subrange(region.start as int, region.start + region.len),
    {
        let n = self.values.len();
        let end = region.start + region.len;
        &self.values.as_slice()[region.start..end]
    }

    /// Returns the registers of two neighbouring regions, `fst` just before `snd`.
    pub fn paired_frame_regs(&self, fst: FrameRegion, snd: FrameRegion) -> (r: (&[u64], &[u64]))
        requires
            fst.start + fst.len == snd.start,
            snd.start + snd.len <= self@.len(),
        ensures
            r.0@ == self@.subrange(fst.start as int, fst.start + fst.len),
            r.1@ == self@.subrange(snd.start as int, snd.start + snd.len),
    {
        let n = self.values.len();
        let both = self.frame_regs(FrameRegion::new(fst.start, fst.len + snd.len));
        let (a, b) = both.split_at(fst.len);
        assert(a@ =~= self@.subrange(fst.start as int, fst.start + fst.len));
        assert(b@ =~= self@.subrange(snd.start as int, snd.start + snd.len));
        (a, b)
    }
}

/// `values` with the positions from `base` on overwritten by `vals`.
pub open spec fn writes(values: Seq<u64>, base: int, vals: Seq<u64>) -> Seq<u64> {
    Seq::new(values.len(), |i: int| if base <= i < base + vals.len() { vals[i - base] } else { values[i] })
}

/// The execution stack.
#[derive(Debug)]
pub struct Stack {
    values: ValueStack,
    frames: Vec<StackFrame>,
    limits: StackLimits,
}

impl Stack {
    /// The registers of all frames.
    pub closed spec fn values(&self) -> Seq<u64> {
        self.values.values@
    }

    /// The value stack.
    pub closed spec fn value_stack(&self) -> ValueStack {
        self.values
    }

    /// The frames, the root first.
    pub closed spec fn frames(&self) -> Seq<StackFrame> {
        self.frames@
    }

    /// The limits of the stack.
    pub closed spec fn limits(&self) -> StackLimits {
        self.limits
    }

    /// The frames' regions tile the value stack in order, and the stack stays
    /// within its limits.
    pub open spec fn wf(&self) -> bool {
        &&& self.values().len() <= self.limits().maximum_len
        &&& self.value_stack().spec_maximum_len() == self.limits().maximum_len
        &&& self.frames().len() <= self.limits().maximum_recursion_depth
        &&& self.frames().len() == 0 ==> self.values().len() == 0
        &&& self.frames().len() > 0 ==> self.frames()[0].region.start == 0
        &&& self.frames().len() > 0 ==> self.frames().last().region.start + self.frames().last().region.len == self.values().len()
        &&& forall|i: int| 0 <= i < self.frames().len() - 1 ==>
            #[trigger] self.frames()[i].region.start + self.frames()[i].region.len == self.frames()[i + 1].region.start
    }

    /// Creates an empty stack with the given limits.
    pub fn new(limits: StackLimits) -> (r: Self)
        requires
            limits.initial_len <= limits.maximum_len,
        ensures
            r.wf(),
            r.limits() == limits,
            r.values().len() == 0,
            r.frames().len() == 0,
    {
        Stack { values: ValueStack::new(limits.initial_len, limits.maximum_len), frames: Vec::new(), limits }
    }

    /// Returns the number of registers in use.
    pub fn len_values(&self) -> (r: usize)
        ensures
            r == self.values().len(),
    {
        self.values.values.len()
    }

    /// Returns the number of frames.
    pub fn len_frames(&self) -> (r: usize)
        ensures
            r == self.frames().len(),
    {
        self.frames.len()
    }

    /// Returns the frame at `frame_ref`, if it exists.
    pub fn frame_at(&self, frame_ref: StackFrameRef) -> (r: Option<StackFrame>)
        ensures
            frame_ref.0 < self.frames().len() ==> r == Some(self.frames()[frame_ref.0 as int]),
            frame_ref.0 >= self.frames().len() ==> r.is_none(),
    {
        if frame_ref.0 < self.frames.len() {
            Some(self.frames[frame_ref.0])
        } else {
            None
        }
    }

    /// Sets the program counter of the frame at `frame_ref`.
    pub fn update_pc(&mut self, frame_ref: StackFrameRef, new_pc: usize)
        requires
            frame_ref.0 < old(self).frames().len(),
        ensures
            final(self).values() == old(self).values(),
            final(self).limits() == old(self).limits(),
            final(self).frames() == old(self).frames().update(
                frame_ref.0 as int,
                StackFrame { pc: new_pc, ..old(self).frames()[frame_ref.0 as int] },
            ),
    {
        let mut frame = self.frames[frame_ref.0];
        frame.pc = new_pc;
        self.frames.set(frame_ref.0, frame);
    }

    /// Returns the default linear memory of the frame at `frame_ref`: the one
    /// recorded in the frame, else `looked_up`, which is then recorded.
    pub fn default_memory(&mut self, frame_ref: StackFrameRef, looked_up: Memory) -> (r: Memory)
        requires
            frame_ref.0 < old(self).frames().len(),
        ensures
            final(self).values() == old(self).values(),
            final(self).limits() == old(self).limits(),
            old(self).frames()[frame_ref.0 as int].default_memory matches Some(m) ==> r == m
                && final(self).frames() == old(self).frames(),
            old(self).frames()[frame_ref.0 as int].default_memory is None ==> r == looked_up
                && final(self).frames() == old(self).frames().update(
                    frame_ref.0 as int,
                    StackFrame { default_memory: Some(looked_up), ..old(self).frames()[frame_ref.0 as int] },
                ),
    {
        let mut frame = self.frames[frame_ref.0];
        match frame.default_memory {
            Some(memory) => memory,
            None => {
                frame.default_memory = Some(looked_up);
                self.frames.set(frame_ref.0, frame);
                looked_up
            },
        }
    }

    /// Returns the default table of the frame at `frame_ref`: the one recorded
    /// in the frame, else `looked_up`, which is then recorded.
    pub fn default_table(&mut self, frame_ref: StackFrameRef, looked_up: Table) -> (r: Table)
        requires
            frame_ref.0 < old(self).frames().len(),
        ensures
            final(self).values() == old(self).values(),
            final(self).limits() == old(self).limits(),
            old(self).frames()[frame_ref.0 as int].default_table matches Some(t) ==> r == t
                && final(self).frames() == old(self).frames(),
            old(self).frames()[frame_ref.0 as int].default_table is None ==> r == looked_up
                && final(self).frames() == old(self).frames().update(
                    frame_ref.0 as int,
                    StackFrame { default_table: Some(looked_up), ..old(self).frames()[frame_ref.0 as int] },
                ),
    {
        let mut frame = self.frames[frame_ref.0];
        match frame.default_table {
            Some(table) => table,
            None => {
                frame.default_table = Some(looked_up);
                self.frames.set(frame_ref.0, frame);
                looked_up
            },
        }
    }

    /// Returns the value of register `index` of the frame at `frame_ref`.
    pub fn get(&self, frame_ref: StackFrameRef, index: u16) -> (r: u64)
        requires
            self.wf(),
            frame_ref.0 < self.frames().len(),
            index < self.frames()[frame_ref.0 as int].region.len,
        ensures
            r == self.values()[self.frames()[frame_ref.0 as int].region.start + index],
    {
        proof {
            self.lemma_region_in_bounds(frame_ref.0 as int);
        }
        let region = self.frames[frame_ref.0].region;
        self.values.values[region.start + index as usize]
    }

    /// Sets register `index` of the frame at `frame_ref` to `value`.
    pub fn set(&mut self, frame_ref: StackFrameRef, index: u16, value: u64)
        requires
            old(self).wf(),
            frame_ref.0 < old(self).frames().len(),
            index < old(self).frames()[frame_ref.0 as int].region.len,
        ensures
            final(self).wf(),
            final(self).frames() == old(self).frames(),
            final(self).limits() == old(self).limits(),
            final(self).values() == old(self).values().update(
                old(self).frames()[frame_ref.0 as int].region.start + index,
                value,
            ),
    {
        proof {
            self.lemma_region_in_bounds(frame_ref.0 as int);
        }
        let region = self.frames[frame_ref.0].region;
        self.values.values.set(region.start + index as usize, value);
    }

    /// Returns the value that `p` provides in the frame at `frame_ref`.
    pub fn provider_value_at(&self, frame_ref: StackFrameRef, p: ExecProvider, consts: &ConstPool) -> (r: u64)
        requires
            self.wf(),
            frame_ref.0 < self.frames().len(),
            provider_in(self.frames()[frame_ref.0 as int].region, consts@, p),
        ensures
            r == provider_value(self.values(), self.frames()[frame_ref.0 as int].region, consts@, p),
    {
        proof {
            self.lemma_region_in_bounds(frame_ref.0 as int);
        }
        let region = self.frames[frame_ref.0].region;
        self.load_provider(region, consts, p)
    }

    /// Writes `vals` into the registers from `first` on of the frame at `frame_ref`.
    pub fn set_many(&mut self, frame_ref: StackFrameRef, first: u16, vals: &[u64])
        requires
            old(self).wf(),
            frame_ref.0 < old(self).frames().len(),
            first + vals@.len() <= old(self).frames()[frame_ref.0 as int].region.len,
        ensures
            final(self).wf(),
            final(self).frames() == old(self).frames(),
            final(self).limits() == old(self).limits(),
            final(self).values() == writes(
                old(self).values(),
                old(self).frames()[frame_ref.0 as int].region.start + first,
                vals@,
            ),
    {
        proof {
            self.lemma_region_in_bounds(frame_ref.0 as int);
        }
        let base = self.frames[frame_ref.0].region.start + first as usize;
        let ghost old_values = self.values.values@;
        let mut k: usize = 0;
        while k < vals.len()
            invariant
                self.frames() == old(self).frames(),
                self.limits() == old(self).limits(),
                self.values.maximum_len == old(self).values.maximum_len,
                old(self).wf(),
                old_values == old(self).values(),
                k <= vals@.len(),
                base + vals@.len() <= old_values.len(),
                self.values.values@ == writes(old_values, base as int, vals@.subrange(0, k as int)),
            decreases vals@.len() - k,
        {
            self.values.values.set(base + k, vals[k]);
            proof {
                assert(self.values.values@ =~= writes(old_values, base as int, vals@.subrange(0, k + 1)));
            }
            k += 1;
        }
        proof {
            assert(vals@.subrange(0, vals@.len() as int) =~= vals@);
        }
    }

    /// Each frame's region lies within the value stack.
    proof fn lemma_region_in_bounds(&self, i: int)
        requires
            self.wf(),
            0 <= i < self.frames().len(),
        ensures
            self.frames()[i].region.start + self.frames()[i].region.len <= self.values().len(),
        decreases self.frames().len() - i,
    {
        if i < self.frames().len() - 1 {
            self.lemma_region_in_bounds(i + 1);
            assert(self.frames()[i].region.start + self.frames()[i].region.len == self.frames()[i + 1].region.start);
        }
    }

    /// Returns the value that `p` provides in `region`.
    fn load_provider(&self, region: FrameRegion, consts: &ConstPool, p: ExecProvider) -> (r: u64)
        requires
            region.start + region.len <= self.values().len(),
            provider_in(region, consts@, p),
        ensures
            r == provider_value(self.values(), region, consts@, p),
    {
        let n = self.values.values.len();
        match p.decode() {
            RegisterOrImmediate::Register(register) => {
                assert(region.start + register.0 < n);
                self.values.values[region.start + register.0 as usize]
            },
            RegisterOrImmediate::Immediate(cref) => match consts.resolve(cref) {
                Some(value) => value,
                None => 0,
            },
        }
    }

    /// Empties the stack.
    pub fn reset(&mut self)
        requires
            old(self).wf(),
        ensures
            final(self).wf(),
            final(self).limits() == old(self).limits(),
            final(self).values().len() == 0,
            final(self).frames().len() == 0,
    {
        self.values.clear();
        self.frames.clear();
    }

    /// Resets the stack and sets up the root frame of a function with
    /// `len_regs` registers, whose first registers take `params`; the others
    /// are zero.
    ///
    /// Fails with a stack overflow where the registers or the frame do not fit.
    pub fn init(&mut self, len_regs: usize, params: &[u64], func_body: FuncBody, instance: Instance) -> (r: Result<StackFrameRef, TrapCode>)
        requires
            old(self).wf(),
            params@.len() <= len_regs,
        ensures
            final(self).wf(),
            final(self).limits() == old(self).limits(),
            (len_regs > old(self).limits().maximum_len || old(self).limits().maximum_recursion_depth == 0) ==> {
                &&& r == Err::<StackFrameRef, TrapCode>(TrapCode::StackOverflow)
                &&& final(self).values().len() == 0
                &&& final(self).frames().len() == 0
            },
            !(len_regs > old(self).limits().maximum_len || old(self).limits().maximum_recursion_depth == 0) ==> {
                &&& r == Ok::<StackFrameRef, TrapCode>(StackFrameRef(0))
                &&& final(self).frames() == seq![StackFrame {
                    pc: 0,
                    region: FrameRegion { start: 0, len: len_regs },
                    results: ExecRegisterSlice { first: crate::registers::ExecRegister(0), len: 0 },
                    instance,
                    func_body,
                    default_memory: None,
                    default_table: None,
                }]
                &&& final(self).values().len() == len_regs
                &&& forall|i: int| 0 <= i < len_regs ==>
                    #[trigger] final(self).values()[i] == if i < params@.len() { params@[i] } else { 0 }
            },
    {
        self.reset();
        if self.limits.maximum_recursion_depth == 0 {
            return Err(TrapCode::StackOverflow);
        }
        let region = self.values.extend_by(len_regs)?;
        let mut i: usize = 0;
        while i < params.len()
            invariant
                i <= params@.len(),
                params@.len() <= len_regs,
                self.limits == old(self).limits,
                self.frames@.len() == 0,
                len_regs <= self.limits.maximum_len,
                self.limits.maximum_recursion_depth > 0,
                self.values.maximum_len == self.limits.maximum_len,
                self.values.values@.len() == len_regs,
                forall|j: int| 0 <= j < len_regs ==> #[trigger] self.values.values@[j] == if j < i { params@[j] } else { 0 },
            decreases params@.len() - i,
        {
            self.values.values.set(i, params[i]);
            i += 1;
        }
        self.frames.push(StackFrame {
            pc: 0,
            region: FrameRegion { start: 0, len: len_regs },
            results: ExecRegisterSlice::empty(),
            instance,
            func_body,
            default_memory: None,
            default_table: None,
        });
        Ok(StackFrameRef(0))
    }

    /// Calls a function with `len_regs` registers from the top frame: pushes
    /// its region, whose first registers take the values of `args` in the
    /// caller's frame (the others are zero), and its frame, whose results go
    /// to the caller's `results`.
    ///
    /// Fails with a stack overflow, changing nothing, where the registers or
    /// the frame would exceed the limits.
    pub fn call_wasm(
        &mut self,
        len_regs: usize,
        results: ExecRegisterSlice,
        args: &[ExecProvider],
        consts: &ConstPool,
        func_body: FuncBody,
        instance: Instance,
    ) -> (r: Result<StackFrameRef, TrapCode>)
        requires
            old(self).wf(),
            old(self).frames().len() > 0,
            args@.len() <= len_regs,
            forall|k: int| 0 <= k < args@.len() ==> provider_in(old(self).frames().last().region, consts@, #[trigger] args@[k]),
        ensures
            final(self).wf(),
            final(self).limits() == old(self).limits(),
            (old(self).values().len() + len_regs > old(self).limits().maximum_len
                || old(self).frames().len() >= old(self).limits().maximum_recursion_depth) ==> {
                &&& r == Err::<StackFrameRef, TrapCode>(TrapCode::StackOverflow)
                &&& final(self).values() == old(self).values()
                &&& final(self).frames() == old(self).frames()
            },
            !(old(self).values().len() + len_regs > old(self).limits().maximum_len
                || old(self).frames().len() >= old(self).limits().maximum_recursion_depth) ==> {
                let caller = old(self).frames().last().region;
                let n = old(self).values().len();
                &&& r == Ok::<StackFrameRef, TrapCode>(StackFrameRef(old(self).frames().len() as usize))
                &&& final(self).frames() == old(self).frames().push(StackFrame {
                    pc: 0,
                    region: FrameRegion { start: n as usize, len: len_regs },
                    results,
                    instance,
                    func_body,
                    default_memory: None,
                    default_table: None,
                })
                &&& final(self).values().len() == n + len_regs
                &&& final(self).values().subrange(0, n as int) == old(self).values()
                &&& forall|k: int| 0 <= k < len_regs ==> #[trigger] final(self).values()[n + k] == if k < args@.len() {
                    provider_value(old(self).values(), caller, consts@, args@[k])
                } else {
                    0
                }
            },
    {
        let n = self.values.values.len();
        if len_regs > self.limits.maximum_len - n || self.frames.len() >= self.limits.maximum_recursion_depth {
            return Err(TrapCode::StackOverflow);
        }
        let caller = self.frames[self.frames.len() - 1].region;
        proof {
            self.lemma_region_in_bounds(self.frames().len() - 1);
        }
        let ghost old_values = self.values.values@;
        let mut k: usize = 0;
        while k < len_regs
            invariant
                k <= len_regs,
                args@.len() <= len_regs,
                old(self).wf(),
                self.frames@ == old(self).frames@,
                self.limits == old(self).limits,
                self.values.maximum_len == old(self).values.maximum_len,
                old_values == old(self).values@,
                n + len_regs <= self.limits.maximum_len,
                self.frames@.len() < self.limits.maximum_recursion_depth,
                n == old_values.len(),
                caller.start + caller.len <= n,
                forall|j: int| 0 <= j < args@.len() ==> provider_in(caller, consts@, #[trigger] args@[j]),
                self.values.values@.len() == n + k,
                self.values.values@.subrange(0, n as int) == old_values,
                forall|j: int| 0 <= j < k ==> #[trigger] self.values.values@[n + j] == if j < args@.len() {
                    provider_value(old_values, caller, consts@, args@[j])
                } else {
                    0
                },
            decreases len_regs - k,
        {
            let value = if k < args.len() {
                let v = self.load_provider(caller, consts, args[k]);
                proof {
                    assert(self.values.values@.subrange(0, n as int)[caller.start + 0] == old_values[caller.start + 0]);
                    assert(provider_value(self.values.values@, caller, consts@, args@[k as int]) == provider_value(old_values, caller, consts@, args@[k as int])) by {
                        if let RegisterOrImmediate::Register(r) = args@[k as int]@ {
                            assert(self.values.values@.subrange(0, n as int)[caller.start + r.0] == self.values.values@[caller.start + r.0]);
                        }
                    }
                }
                v
            } else {
                0
            };
            self.values.values.push(value);
            proof {
                assert(self.values.values@.subrange(0, n as int) =~= old_values) by {
                    assert forall|j: int| 0 <= j < n implies self.values.values@[j] == old_values[j] by {
                        assert(self.values.values@[j] == self.values.values@.drop_last()[j]);
                    }
                }
            }
            k += 1;
        }
        let frame_ref = StackFrameRef(self.frames.len());
        let ghost old_frames = self.frames@;
        self.frames.push(StackFrame {
            pc: 0,
            region: FrameRegion { start: n, len: len_regs },
            results,
            instance,
            func_body,
            default_memory: None,
            default_table: None,
        });
        proof {
            assert forall|i: int| 0 <= i < self.frames().len() - 1 implies
                #[trigger] self.frames()[i].region.start + self.frames()[i].region.len == self.frames()[i + 1].region.start by {
                if i < old_frames.len() - 1 {
                    assert(self.frames()[i] == old_frames[i]);
                    assert(self.frames()[i + 1] == old_frames[i + 1]);
                } else {
                    assert(self.frames()[i] == old_frames.last());
                }
            }
        }
        Ok(frame_ref)
    }

    /// Returns from the top frame to its caller: the values of `returned` in
    /// the top frame go to the caller's result registers, and the top frame
    /// and its registers are removed.
    ///
    /// Returns `None`, changing nothing, where the top frame is the root: the
    /// execution is then finished by [`Stack::finalize`].
    pub fn return_wasm(&mut self, returned: &[ExecProvider], consts: &ConstPool) -> (r: Option<StackFrameRef>)
        requires
            old(self).wf(),
            old(self).frames().len() > 0,
            old(self).frames().len() > 1 ==> {
                let callee = old(self).frames().last();
                let caller = old(self).frames()[old(self).frames().len() - 2];
                &&& returned@.len() == callee.results.len
                &&& callee.results.first.0 + callee.results.len <= caller.region.len
                &&& forall|k: int| 0 <= k < returned@.len() ==> provider_in(callee.region, consts@, #[trigger] returned@[k])
            },
        ensures
            final(self).wf(),
            final(self).limits() == old(self).limits(),
            old(self).frames().len() == 1 ==> r.is_none() && final(self).values() == old(self).values()
                && final(self).frames() == old(self).frames(),
            old(self).frames().len() > 1 ==> {
                let callee = old(self).frames().last();
                let caller = old(self).frames()[old(self).frames().len() - 2];
                let base = caller.region.start + callee.results.first.0;
                &&& r == Some(StackFrameRef((old(self).frames().len() - 2) as usize))
                &&& final(self).frames() == old(self).frames().drop_last()
                &&& final(self).values().len() == callee.region.start
                &&& forall|i: int| 0 <= i < callee.region.start ==> #[trigger] final(self).values()[i] == if base <= i < base + returned@.len() {
                    provider_value(old(self).values(), callee.region, consts@, returned@[i - base])
                } else {
                    old(self).values()[i]
                }
            },
    {
        if self.frames.len() == 1 {
            return None;
        }
        let last = self.frames.len() - 1;
        proof {
            self.lemma_region_in_bounds(last as int);
            self.lemma_region_in_bounds(last - 1);
        }
        let callee = self.frames[last];
        let caller = self.frames[last - 1];
        let base = caller.region.start + callee.results.first.0 as usize;
        let ghost old_values = self.values.values@;
        let mut k: usize = 0;
        while k < returned.len()
            invariant
                k <= returned@.len(),
                old(self).wf(),
                self.frames@ == old(self).frames@,
                self.limits == old(self).limits,
                self.values.maximum_len == old(self).values.maximum_len,
                old_values == old(self).values@,
                base == caller.region.start + callee.results.first.0,
                base + returned@.len() <= callee.region.start,
                callee.region.start + callee.region.len == old_values.len(),
                forall|j: int| 0 <= j < returned@.len() ==> provider_in(callee.region, consts@, #[trigger] returned@[j]),
                self.values.values@.len() == old_values.len(),
                forall|i: int| 0 <= i < old_values.len() ==> #[trigger] self.values.values@[i] == if base <= i < base + k {
                    provider_value(old_values, callee.region, consts@, returned@[i - base])
                } else {
                    old_values[i]
                },
            decreases returned@.len() - k,
        {
            let value = self.load_provider(callee.region, consts, returned[k]);
            proof {
                if let RegisterOrImmediate::Register(r) = returned@[k as int]@ {
                    assert(self.values.values@[callee.region.start + r.0] == old_values[callee.region.start + r.0]);
                }
            }
            self.values.values.set(base + k, value);
            k += 1;
        }
        self.values.shrink_by(callee.region.len);
        self.frames.pop();
        Some(StackFrameRef(last - 1))
    }

    /// Finishes the execution of the root frame: returns the values of
    /// `returned` in it and leaves the stack empty.
    pub fn finalize(&mut self, returned: &[ExecProvider], consts: &ConstPool) -> (r: Vec<u64>)
        requires
            old(self).wf(),
            old(self).frames().len() == 1,
            forall|k: int| 0 <= k < returned@.len() ==> provider_in(old(self).frames()[0].region, consts@, #[trigger] returned@[k]),
        ensures
            final(self).wf(),
            final(self).limits() == old(self).limits(),
            final(self).values().len() == 0,
            final(self).frames().len() == 0,
            r@.len() == returned@.len(),
            forall|k: int| 0 <= k < returned@.len() ==> #[trigger] r@[k] == provider_value(
                old(self).values(),
                old(self).frames()[0].region,
                consts@,
                returned@[k],
            ),
    {
        let root = self.frames[0].region;
        proof {
            self.lemma_region_in_bounds(0);
        }
        let mut out: Vec<u64> = Vec::new();
        let mut k: usize = 0;
        while k < returned.len()
            invariant
                self.wf(),
                self.frames().len() == 1,
                root == self.frames()[0].region,
                root.start + root.len <= self.values().len(),
                self.values() == old(self).values(),
                self.frames() == old(self).frames(),
                self.limits() == old(self).limits(),
                forall|j: int| 0 <= j < returned@.len() ==> provider_in(root, consts@, #[trigger] returned@[j]),
                k <= returned@.len(),
                out@.len() == k,
                forall|j: int| 0 <= j < k ==> #[trigger] out@[j] == provider_value(old(self).values(), root, consts@, returned@[j]),
            decreases returned@.len() - k,
        {
            out.push(self.load_provider(root, consts, returned[k]));
            k += 1;
        }
        self.reset();
        out
    }

    /// Returns the values of `args` in the top frame for a call of a host
    /// function with `len_results` results.
    ///
    /// The host call needs a window of as many registers as the larger of its
    /// parameter and result counts: it fails with a stack overflow where that
    /// window would exceed the limit.
    pub fn host_call_params(&self, args: &[ExecProvider], len_results: usize, consts: &ConstPool) -> (r: Result<Vec<u64>, TrapCode>)
        requires
            self.wf(),
            self.frames().len() > 0,
            forall|k: int| 0 <= k < args@.len() ==> provider_in(self.frames().last().region, consts@, #[trigger] args@[k]),
        ensures
            r is Err <==> self.values().len() + (if args@.len() >= len_results { args@.len() as int } else { len_results as int })
                > self.limits().maximum_len,
            r matches Err(e) ==> e == TrapCode::StackOverflow,
            r matches Ok(values) ==> values@.len() == args@.len() && forall|k: int| 0 <= k < args@.len() ==>
                #[trigger] values@[k] == provider_value(self.values(), self.frames().last().region, consts@, args@[k]),
    {
        let max_inout = if args.len() >= len_results { args.len() } else { len_results };
        if max_inout > self.limits.maximum_len - self.values.values.len() {
            return Err(TrapCode::StackOverflow);
        }
        let caller = self.frames[self.frames.len() - 1].region;
        proof {
            self.lemma_region_in_bounds(self.frames().len() - 1);
        }
        let mut out: Vec<u64> = Vec::new();
        let mut k: usize = 0;
        while k < args.len()
            invariant
                self.wf(),
                self.frames().len() > 0,
                caller == self.frames().last().region,
                caller.start + caller.len <= self.values().len(),
                forall|j: int| 0 <= j < args@.len() ==> provider_in(caller, consts@, #[trigger] args@[j]),
                k <= args@.len(),
                out@.len() == k,
                forall|j: int| 0 <= j < k ==> #[trigger] out@[j] == provider_value(self.values(), caller, consts@, args@[j]),
            decreases args@.len() - k,
        {
            out.push(self.load_provider(caller, consts, args[k]));
            k += 1;
        }
        Ok(out)
    }

    /// Checks that a host function called as the root of an execution, with
    /// `len_params` parameters and `len_results` results, fits the value
    /// stack: its window holds as many registers as the larger count.
    pub fn host_root_window(&self, len_params: usize, len_results: usize) -> (r: Result<usize, TrapCode>)
        requires
            self.wf(),
            self.frames().len() == 0,
        ensures
            r is Err <==> (if len_params >= len_results { len_params } else { len_results }) > self.limits().maximum_len,
            r matches Err(e) ==> e == TrapCode::StackOverflow,
            r matches Ok(n) ==> n == if len_params >= len_results { len_params } else { len_results },
    {
        let max_inout = if len_params >= len_results { len_params } else { len_results };
        if max_inout > self.limits.maximum_len {
            return Err(TrapCode::StackOverflow);
        }
        Ok(max_inout)
    }

    /// Writes the values that a host function returned into the result
    /// registers `results` of the top frame.
    pub fn host_call_results(&mut self, results: ExecRegisterSlice, returned: &[u64])
        requires
            old(self).wf(),
            old(self).frames().len() > 0,
            returned@.len() == results.len,
            results.first.0 + results.len <= old(self).frames().last().region.len,
        ensures
            final(self).wf(),
            final(self).limits() == old(self).limits(),
            final(self).frames() == old(self).frames(),
            final(self).values().len() == old(self).values().len(),
            forall|i: int| 0 <= i < old(self).values().len() ==> {
                let base = old(self).frames().last().region.start + results.first.0;
                #[trigger] final(self).values()[i] == if base <= i < base + returned@.len() {
                    returned@[i - base]
                } else {
                    old(self).values()[i]
                }
            },
    {
        let last = self.frames.len() - 1;
        proof {
            self.lemma_region_in_bounds(last as int);
        }
        let base = self.frames[last].region.start + results.first.0 as usize;
        let ghost old_values = self.values.values@;
        let mut k: usize = 0;
        while k < returned.len()
            invariant
                self.frames() == old(self).frames(),
                self.limits() == old(self).limits(),
                self.values.maximum_len == old(self).values.maximum_len,
                old(self).wf(),
                k <= returned@.len(),
                base + returned@.len() <= old_values.len(),
                old_values == old(self).values(),
                self.values.values@.len() == old_values.len(),
                forall|i: int| 0 <= i < old_values.len() ==> #[trigger] self.values.values@[i] == if base <= i < base + k {
                    returned@[i - base]
                } else {
                    old_values[i]
                },
            decreases returned@.len() - k,
        {
            self.values.values.set(base + k, returned[k]);
            k += 1;
        }
    }
}

/// The stack stays within its limits: no more frames than the recursion
/// depth, no more registers than the maximum length, and no registers without
/// a frame, so that returning from the root leaves both empty.
pub proof fn lemma_stack_within_limits(stack: Stack)
    requires
        stack.wf(),
    ensures
        stack.frames().len() <= stack.limits().maximum_recursion_depth,
        stack.values().len() <= stack.limits().maximum_len,
        stack.frames().len() == 0 ==> stack.values().len() == 0,
{
}

} // verus!
