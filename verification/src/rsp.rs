//! The coprocessor driver model: dispatch of a microcode task with an
//! optional input data segment, the blocking wait for completion, and
//! reading the output region of the coprocessor's data memory.
//!
//! Dispatch copies the input segment to the head of data memory and
//! starts the task; completion must be awaited before the data memory is
//! read or the coprocessor is reused. The model does not interpret
//! microcode: a dispatched task's only modelled effect on data memory is
//! the input copy, which is exactly the behaviour of the echo diagnostic
//! task. The DMA and status register accesses themselves live outside the
//! library.

use vstd::prelude::*;
use crate::GfxError;

verus! {

/// Capacity of the coprocessor's instruction memory, in bytes.
pub const IMEM_SIZE: usize = 4096;

/// Capacity of the coprocessor's data memory, in bytes.
pub const DMEM_SIZE: usize = 4096;

/// The mathematical value of the coprocessor: its data memory and whether
/// the last dispatched task has completed.
#[verifier::ext_equal]
pub struct RspView {
    pub dmem: Seq<u8>,
    pub done: bool,
}

/// The input segment of a dispatch, as a mathematical value.
pub open spec fn spec_input_view(input: Option<&Vec<u8>>) -> Option<Seq<u8>> {
    match input {
        Some(v) => Some(v@),
        None => None,
    }
}

/// Dispatching a task: the input segment, if any, is copied to the head
/// of data memory; the rest of data memory is untouched; the task is
/// running.
pub open spec fn spec_dispatch(v: RspView, input: Option<Seq<u8>>) -> RspView {
    match input {
        None => RspView { dmem: v.dmem, done: false },
        Some(inp) => RspView { dmem: inp + v.dmem.skip(inp.len() as int), done: false },
    }
}

/// The coprocessor driver.
pub struct Rsp {
    dmem: Vec<u8>,
    done: bool,
}

impl View for Rsp {
    type V = RspView;

    closed spec fn view(&self) -> RspView {
        RspView { dmem: self.dmem@, done: self.done }
    }
}

impl Rsp {
    /// Data memory always spans the full capacity.
    pub open spec fn wf(self) -> bool {
        self@.dmem.len() == DMEM_SIZE
    }

    /// An idle coprocessor with zeroed data memory.
    pub fn new() -> (r: Rsp)
        ensures
            r.wf(),
            r@.done,
            forall|i: int| 0 <= i < r@.dmem.len() ==> r@.dmem[i] == 0,
    {
        let mut dmem: Vec<u8> = Vec::new();
        let mut i: usize = 0;
        while i < DMEM_SIZE
            invariant
                i <= DMEM_SIZE,
                dmem@.len() == i,
                forall|j: int| 0 <= j < i ==> dmem@[j] == 0,
            decreases DMEM_SIZE - i,
        {
            dmem.push(0);
            i += 1;
        }
        Rsp { dmem, done: true }
    }

    /// Dispatches a task: the microcode must fit instruction memory and
    /// the input segment must fit data memory, else the dispatch is
    /// refused and nothing changes — a fatal configuration error, checked
    /// here rather than trusted. On success the input is copied to the
    /// head of data memory and the task starts.
    pub fn load_and_run(&mut self, code: &Vec<u8>, input: Option<&Vec<u8>>) -> (r: Result<
        (),
        GfxError,
    >)
        requires
            old(self).wf(),
        ensures
            final(self).wf(),
            code@.len() > IMEM_SIZE ==> r == Err::<(), GfxError>(GfxError::MicrocodeTooLarge)
                && final(self)@ == old(self)@,
            code@.len() <= IMEM_SIZE && (match spec_input_view(input) {
                Some(inp) => inp.len() > DMEM_SIZE,
                None => false,
            }) ==> r == Err::<(), GfxError>(GfxError::InputTooLarge) && final(self)@ == old(
                self,
            )@,
            code@.len() <= IMEM_SIZE && (match spec_input_view(input) {
                Some(inp) => inp.len() <= DMEM_SIZE,
                None => true,
            }) ==> r == Ok::<(), GfxError>(()) && final(self)@ == spec_dispatch(
                old(self)@,
                spec_input_view(input),
            ),
    {
        if code.len() > IMEM_SIZE {
            return Err(GfxError::MicrocodeTooLarge);
        }
        match input {
            None => {
                self.done = false;
                proof {
                    assert(self@ =~= spec_dispatch(old(self)@, spec_input_view(input)));
                }
                Ok(())
            },
            Some(inp) => {
                if inp.len() > DMEM_SIZE {
                    return Err(GfxError::InputTooLarge);
                }
                let n = inp.len();
                let mut i: usize = 0;
                while i < n
                    invariant
                        i <= n,
                        n == inp@.len(),
                        n <= self.dmem@.len(),
                        self.dmem@.len() == old(self)@.dmem.len(),
                        forall|j: int| 0 <= j < i ==> self.dmem@[j] == inp@[j],
                        forall|j: int|
                            i <= j < self.dmem@.len() ==> self.dmem@[j] == old(self)@.dmem[j],
                    decreases n - i,
                {
                    self.dmem.set(i, inp[i]);
                    i += 1;
                }
                self.done = false;
                proof {
                    assert(self@.dmem =~= inp@ + old(self)@.dmem.skip(inp@.len() as int));
                    assert(self@ =~= spec_dispatch(old(self)@, spec_input_view(input)));
                }
                Ok(())
            },
        }
    }

    /// Blocks until the dispatched task signals completion. The model
    /// returns with the completion flag set; data memory is unchanged.
    /// There is no timeout and no cancellation by design.
    pub fn wait_for_done(&mut self)
        ensures
            final(self)@.dmem == old(self)@.dmem,
            final(self)@.done,
            old(self).wf() ==> final(self).wf(),
    {
        self.done = true;
    }

    /// Whether the last dispatched task has completed.
    pub fn is_done(&self) -> (r: bool)
        ensures
            r == self@.done,
    {
        self.done
    }

    /// Copies the first `len` bytes out of data memory; only valid once
    /// the task is done.
    pub fn read_output(&self, len: usize) -> (r: Vec<u8>)
        requires
            self.wf(),
            self@.done,
            len <= DMEM_SIZE,
        ensures
            r@ == self@.dmem.subrange(0, len as int),
    {
        let mut r: Vec<u8> = Vec::new();
        let mut i: usize = 0;
        while i < len
            invariant
                i <= len,
                len <= self.dmem@.len(),
                r@ == self.dmem@.subrange(0, i as int),
            decreases len - i,
        {
            r.push(self.dmem[i]);
            proof {
                assert(r@ =~= self.dmem@.subrange(0, i + 1));
            }
            i += 1;
        }
        r
    }
}

} // verus!
