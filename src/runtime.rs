use crate::access::NUM_REGISTERS;
use crate::tracer::{be_bytes, lemma_trace_extends, push_be_bytes, trace_of};
use vstd::prelude::*;
use vstd::seq_lib::lemma_seq_contains_after_push;

verus! {

/// Every this many cycles a constrained run reports its progress.
pub const HEARTBEAT_INTERVAL: u64 = 10_000_000;

/// A decoded instruction: an opcode and three operands. `op_a` always names
/// a register; `op_b` and `op_c` name one unless flagged as immediates.
#[derive(Clone, Copy, Debug, PartialEq, Eq, Structural)]
pub struct Instruction {
    pub opcode: u32,
    pub op_a: u32,
    pub op_b: u32,
    pub op_c: u32,
    pub imm_b: bool,
    pub imm_c: bool,
}

impl Instruction {
    /// The register indices this instruction reads or writes.
    pub open spec fn spec_access_regs(self) -> Seq<u32> {
        seq![self.op_a] + (if self.imm_b {
            Seq::empty()
        } else {
            seq![self.op_b]
        }) + (if self.imm_c {
            Seq::empty()
        } else {
            seq![self.op_c]
        })
    }

    /// Every register operand names a legal register.
    pub open spec fn wf(self) -> bool {
        forall|i: int|
            0 <= i < self.spec_access_regs().len() ==> #[trigger] self.spec_access_regs()[i]
                < NUM_REGISTERS
    }

    pub fn access_regs(&self) -> (r: Vec<u32>)
        ensures
            r@ == self.spec_access_regs(),
    {
        let mut regs: Vec<u32> = Vec::new();
        regs.push(self.op_a);
        if !self.imm_b {
            regs.push(self.op_b);
        }
        if !self.imm_c {
            regs.push(self.op_c);
        }
        assert(regs@ =~= self.spec_access_regs());
        regs
    }
}

/// Whether `v` holds `x`.
fn contains(v: &Vec<u32>, x: u32) -> (r: bool)
    ensures
        r == v@.contains(x),
{
    let mut i: usize = 0;
    while i < v.len()
        invariant
            0 <= i <= v.len(),
            forall|j: int| 0 <= j < i ==> v@[j] != x,
        decreases v.len() - i,
    {
        if v[i] == x {
            return true;
        }
        i += 1;
    }
    false
}

/// Appends to `out` each element of `src` that it does not hold yet.
fn push_missing(out: &mut Vec<u32>, src: &Vec<u32>)
    requires
        old(out)@.no_duplicates(),
    ensures
        final(out)@.no_duplicates(),
        forall|x: u32| #[trigger]
            final(out)@.contains(x) <==> (old(out)@.contains(x) || src@.contains(x)),
{
    let mut i: usize = 0;
    while i < src.len()
        invariant
            0 <= i <= src.len(),
            out@.no_duplicates(),
            forall|x: u32| #[trigger]
                out@.contains(x) <==> (old(out)@.contains(x) || src@.subrange(0, i as int).contains(
                    x,
                )),
        decreases src.len() - i,
    {
        let x = src[i];
        let ghost before = out@;
        if !contains(out, x) {
            out.push(x);
        }
        let ghost seen = src@.subrange(0, i as int);
        assert(src@.subrange(0, i + 1) =~= seen.push(x));
        assert forall|y: u32| #[trigger] out@.contains(y) <==> (before.contains(y) || y == x) by {
            lemma_seq_contains_after_push(before, x, y);
        }
        assert forall|y: u32| #[trigger] seen.push(x).contains(y) <==> (seen.contains(y) || y == x) by {
            lemma_seq_contains_after_push(seen, x, y);
        }
        i += 1;
    }
    assert(src@.subrange(0, src.len() as int) =~= src@);
}

/// The registers of `curr` and `prev` together, each once, in an order left
/// unspecified.
pub fn union_registers(curr: &Vec<u32>, prev: &Vec<u32>) -> (r: Vec<u32>)
    ensures
        r@.no_duplicates(),
        forall|x: u32| #[trigger] r@.contains(x) <==> (curr@.contains(x) || prev@.contains(x)),
{
    let mut out: Vec<u32> = Vec::new();
    push_missing(&mut out, curr);
    push_missing(&mut out, prev);
    out
}

/// The machine's clock and program counter.
#[derive(Clone, Copy, Debug, PartialEq, Eq, Structural)]
pub struct ExecutionState {
    pub pc: u32,
    pub global_clk: u64,
}

/// The machine state that the per-cycle instrumentation reads and writes.
pub struct Runtime {
    pub state: ExecutionState,
    /// Live register values, one per register.
    pub registers: Vec<u32>,
    /// Set while running instructions that are left out of the proven trace.
    pub unconstrained: bool,
    /// The cycle trace sink, when tracing was requested.
    pub trace_buf: Option<Vec<u8>>,
    /// Previously committed instructions, the most recent last.
    pub last_instructions: Vec<Instruction>,
}

/// What one instruction's log step reports.
#[derive(Debug)]
pub struct CycleLog {
    pub global_clk: u64,
    pub pc: u32,
    pub instruction: Instruction,
    /// `(index, live value)` of each register touched by this instruction or
    /// the previous one, each register once.
    pub registers: Vec<(u32, u32)>,
    /// Whether a progress line is due at this cycle.
    pub heartbeat: bool,
}

impl CycleLog {
    /// The indices of the reported registers, in report order.
    pub open spec fn register_indices(&self) -> Seq<u32> {
        self.registers@.map_values(|p: (u32, u32)| p.0)
    }
}

/// The trace sink's contents, if there is a sink.
pub open spec fn trace_view(buf: Option<Vec<u8>>) -> Option<Seq<u8>> {
    match buf {
        Some(b) => Some(b@),
        None => None,
    }
}

impl Runtime {
    pub open spec fn wf(&self) -> bool {
        &&& self.registers.len() == NUM_REGISTERS
        &&& forall|i: int|
            0 <= i < self.last_instructions.len() ==> (#[trigger] self.last_instructions[i]).wf()
    }

    /// The registers touched by the most recently committed instruction.
    pub open spec fn prev_access_regs(&self) -> Seq<u32> {
        if self.last_instructions.len() > 0 {
            self.last_instructions@.last().spec_access_regs()
        } else {
            Seq::empty()
        }
    }

    /// The sink after the cycle tracer has run for the current cycle.
    pub open spec fn traced(&self) -> Option<Seq<u8>> {
        match trace_view(self.trace_buf) {
            Some(b) => if self.unconstrained {
                Some(b)
            } else {
                Some(b + be_bytes(self.state.pc))
            },
            None => None,
        }
    }

    /// Whether a progress line is due at the current cycle.
    pub open spec fn heartbeat_due(&self) -> bool {
        !self.unconstrained && self.state.global_clk % HEARTBEAT_INTERVAL == 0
    }

    /// When the sink holds the records of the constrained commits at `pcs`,
    /// one more log step leaves it holding those of `pcs` followed by the
    /// current program counter if constrained, and unchanged otherwise.
    pub proof fn lemma_log_extends_trace(&self, pcs: Seq<u32>)
        requires
            trace_view(self.trace_buf) == Some(trace_of(pcs)),
        ensures
            self.traced() == (if self.unconstrained {
                Some(trace_of(pcs))
            } else {
                Some(trace_of(pcs.push(self.state.pc)))
            }),
    {
        lemma_trace_extends(pcs, self.state.pc);
    }

    /// A machine with all registers zero, at the given program counter and
    /// cycle, constrained, with an empty trace sink when `trace` is set.
    pub fn new(pc: u32, global_clk: u64, trace: bool) -> (r: Runtime)
        ensures
            r.wf(),
            r.state == (ExecutionState { pc, global_clk }),
            forall|i: int| 0 <= i < NUM_REGISTERS ==> #[trigger] r.registers@[i] == 0,
            !r.unconstrained,
            trace_view(r.trace_buf) == (if trace {
                Some(Seq::<u8>::empty())
            } else {
                None
            }),
            r.last_instructions@.len() == 0,
    {
        let mut registers: Vec<u32> = Vec::new();
        while registers.len() < NUM_REGISTERS as usize
            invariant
                registers.len() <= NUM_REGISTERS,
                forall|i: int| 0 <= i < registers.len() ==> #[trigger] registers@[i] == 0,
            decreases NUM_REGISTERS - registers.len(),
        {
            registers.push(0);
        }
        let trace_buf = if trace {
            Some(Vec::new())
        } else {
            None
        };
        Runtime {
            state: ExecutionState { pc, global_clk },
            registers,
            unconstrained: false,
            trace_buf,
            last_instructions: Vec::new(),
        }
    }

    /// The per-instruction instrumentation step: appends the program counter
    /// to the trace sink when constrained, and reports the registers touched
    /// by `instruction` and by the previous instruction with their live
    /// values, and whether a progress line is due.
    pub fn log(&mut self, instruction: &Instruction) -> (r: CycleLog)
        requires
            old(self).wf(),
            instruction.wf(),
        ensures
            final(self).state == old(self).state,
            final(self).registers@ == old(self).registers@,
            final(self).unconstrained == old(self).unconstrained,
            final(self).last_instructions@ == old(self).last_instructions@,
            trace_view(final(self).trace_buf) == old(self).traced(),
            r.global_clk == old(self).state.global_clk,
            r.pc == old(self).state.pc,
            r.instruction == *instruction,
            r.heartbeat == old(self).heartbeat_due(),
            r.register_indices().no_duplicates(),
            forall|x: u32| #[trigger]
                r.register_indices().contains(x) <==> (
                instruction.spec_access_regs().contains(x) || old(self).prev_access_regs().contains(
                    x,
                )),
            forall|i: int|
                0 <= i < r.registers.len() ==> (#[trigger] r.registers@[i]).1
                    == old(self).registers@[r.registers@[i].0 as int],
    {
        if !self.unconstrained {
            match &mut self.trace_buf {
                Some(buf) => push_be_bytes(buf, self.state.pc),
                None => {},
            }
        }
        let prev_dirty_regs = if self.last_instructions.len() > 0 {
            self.last_instructions[self.last_instructions.len() - 1].access_regs()
        } else {
            Vec::new()
        };
        let curr_dirty_regs = instruction.access_regs();
        let dirty = union_registers(&curr_dirty_regs, &prev_dirty_regs);
        let mut registers: Vec<(u32, u32)> = Vec::new();
        let mut i: usize = 0;
        while i < dirty.len()
            invariant
                0 <= i <= dirty.len(),
                registers.len() == i,
                self.registers.len() == NUM_REGISTERS,
                forall|x: u32| #[trigger] dirty@.contains(x) ==> x < NUM_REGISTERS,
                forall|j: int|
                    0 <= j < i ==> #[trigger] registers@[j] == (
                    dirty@[j],
                    self.registers@[dirty@[j] as int],
                ),
            decreases dirty.len() - i,
        {
            let reg = dirty[i];
            assert(dirty@.contains(reg));
            registers.push((reg, self.registers[reg as usize]));
            i += 1;
        }
        assert(registers@.map_values(|p: (u32, u32)| p.0) =~= dirty@);
        CycleLog {
            global_clk: self.state.global_clk,
            pc: self.state.pc,
            instruction: *instruction,
            registers,
            heartbeat: !self.unconstrained && self.state.global_clk % HEARTBEAT_INTERVAL == 0,
        }
    }
}

} // verus!
