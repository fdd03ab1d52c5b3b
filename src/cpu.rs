use vstd::prelude::*;
use crate::address_mode::AddressMode;
use crate::memory::{byte_at, written16, written8, Mem, MemoryAddress};
use crate::op_codes::{
    decode, dispatch_group, executes, mode_fits, opcode_table, Instruction, OpCode,
};
use crate::registers::Registers;
use crate::status::Flags;
use crate::word::{
    add16, add8, hi_byte, high, lemma_bytes_word, lemma_wrap16_add, lemma_wrap8_add, lo_byte, low,
    make_word, sub16, sub8, word, wrap16, wrap8,
};

verus! {

/// Where the execution loop stands.
#[derive(Clone, Copy, Debug, PartialEq, Eq, Structural)]
pub enum RunState {
    Running,
    /// Stopped by STP or WAI until an interrupt re-arms the processor.
    HaltedAwaitingInterrupt,
    /// An exit request was honoured at a cycle-budget boundary.
    Terminated,
}

/// Cycles granted each time the budget runs out, when interrupts and the exit
/// request are checked.
pub const INTERRUPT_PERIOD: u32 = 64;

/// The processor: its registers, the remaining cycle budget, the pending exit
/// request and the run state.
#[derive(Clone, Copy, Debug, PartialEq, Eq, Structural)]
pub struct CPU {
    pub regs: Registers,
    pub cycles: u32,
    pub should_exit: bool,
    pub state: RunState,
}

impl CPU {
    pub open spec fn wf(self) -> bool {
        self.regs.wf()
    }

    /// The state with the program counter moved on by `n` bytes.
    pub open spec fn advanced(self, n: int) -> CPU {
        CPU { regs: Registers { pc: wrap16(self.regs.pc + n), ..self.regs }, ..self }
    }

    pub open spec fn with_flags(self, p: Flags) -> CPU {
        CPU { regs: Registers { p: p, ..self.regs }, ..self }
    }

    pub open spec fn emulation(self) -> bool {
        self.regs.p.emulation_mode
    }

    /// The byte `i` places after the program counter, in the program bank.
    pub open spec fn operand<M: Mem>(self, mem: M, i: int) -> u8 {
        mem.byte(self.regs.pbr, wrap16(self.regs.pc + i))
    }

    pub fn new() -> (r: CPU)
        ensures
            r.regs == Registers::reset(),
            r.cycles == INTERRUPT_PERIOD,
            !r.should_exit,
            r.state == RunState::Running,
            r.wf(),
    {
        CPU {
            regs: Registers::new(),
            cycles: INTERRUPT_PERIOD,
            should_exit: false,
            state: RunState::Running,
        }
    }

    pub fn a(&self) -> (r: u16)
        ensures
            r == self.regs.a,
    {
        self.regs.a
    }

    pub fn x(&self) -> (r: u16)
        ensures
            r == self.regs.x,
    {
        self.regs.x
    }

    pub fn y(&self) -> (r: u16)
        ensures
            r == self.regs.y,
    {
        self.regs.y
    }

    pub fn sp(&self) -> (r: u16)
        ensures
            r == self.regs.sp,
    {
        self.regs.sp
    }

    pub fn pc(&self) -> (r: u16)
        ensures
            r == self.regs.pc,
    {
        self.regs.pc
    }

    pub fn dbr(&self) -> (r: u8)
        ensures
            r == self.regs.dbr,
    {
        self.regs.dbr
    }

    pub fn d(&self) -> (r: u16)
        ensures
            r == self.regs.d,
    {
        self.regs.d
    }

    /// Low byte of the direct register.
    pub fn dl(&self) -> (r: u8)
        ensures
            r == lo_byte(self.regs.d),
    {
        low(self.regs.d)
    }

    /// High byte of the direct register.
    pub fn dh(&self) -> (r: u8)
        ensures
            r == hi_byte(self.regs.d),
    {
        high(self.regs.d)
    }

    pub fn pbr(&self) -> (r: u8)
        ensures
            r == self.regs.pbr,
    {
        self.regs.pbr
    }

    pub fn is_emulation(&self) -> (r: bool)
        ensures
            r == self.emulation(),
    {
        self.regs.p.emulation_mode
    }

    pub fn increment_pc(&mut self)
        ensures
            *final(self) == old(self).advanced(1),
    {
        self.regs.pc = add16(self.regs.pc, 1);
    }

    /// Reads the byte at the program counter and moves past it.
    pub fn next_b<M: Mem>(&mut self, mem: &M) -> (r: u8)
        ensures
            r == old(self).operand(*mem, 0),
            *final(self) == old(self).advanced(1),
    {
        let b = mem.load(self.regs.pbr, self.regs.pc);
        self.increment_pc();
        b
    }
}

/// The cycles that pass in one tick of a halted processor: those of WAI.
pub const IDLE_CYCLES: u32 = 3;

/// The cycle budget after spending `cost` from `cycles`, and whether the
/// budget ran out: then it is replenished by `INTERRUPT_PERIOD` and the
/// boundary checks run.
pub open spec fn spent(cycles: u32, cost: u32) -> (u32, bool) {
    if cycles > cost {
        ((cycles - cost) as u32, false)
    } else {
        ((cycles + INTERRUPT_PERIOD - cost) as u32, true)
    }
}

impl CPU {
    /// The cycle cost of an opcode: its base count in the opcode table.
    fn get_cycles(op: u8) -> (r: u8)
        ensures
            r == opcode_table(op).cycles,
            r <= 8,
    {
        decode(op).cycles
    }

    /// The checks at a cycle-budget boundary: a pending exit request
    /// terminates the run.
    pub open spec fn after_boundary(self, boundary: bool) -> CPU {
        if boundary && self.should_exit {
            CPU { state: RunState::Terminated, ..self }
        } else {
            self
        }
    }

    /// A halted processor's tick: `IDLE_CYCLES` cycles pass and the
    /// boundary checks run when the budget runs out.
    pub open spec fn idled(self) -> CPU {
        let (cycles, boundary) = spent(self.cycles, IDLE_CYCLES);
        CPU { cycles: cycles, ..self }.after_boundary(boundary)
    }

    /// Spends `cost` cycles from the budget and reports whether it ran out.
    fn spend(&mut self, cost: u32) -> (boundary: bool)
        requires
            cost <= INTERRUPT_PERIOD,
        ensures
            (final(self).cycles, boundary) == spent(old(self).cycles, cost),
            *final(self) == (CPU { cycles: final(self).cycles, ..*old(self) }),
    {
        if self.cycles > cost {
            self.cycles = self.cycles - cost;
            false
        } else {
            self.cycles = self.cycles + INTERRUPT_PERIOD - cost;
            true
        }
    }

    /// The state in which the instruction fetched from this state starts executing:
    /// past its opcode byte, with its cost spent.
    pub open spec fn fetched(self, cost: u32) -> CPU {
        CPU {
            cycles: spent(self.cycles, cost).0,
            ..self.advanced(1)
        }
    }

    /// Executes one instruction: fetches the opcode at (PBR, PC), moves past
    /// it, spends its cycles, runs the instruction and, when the budget ran
    /// out, replenishes it and honours a pending exit request. A halted
    /// processor only lets `IDLE_CYCLES` cycles pass, so that an
    /// exit request still ends it; a terminated one does not change. Both
    /// give back `None`.
    pub fn step<M: Mem>(&mut self, mem: &mut M) -> (r: Option<OpCode>)
        ensures
            old(self).state == RunState::Terminated ==> {
                &&& r is None
                &&& *final(self) == *old(self)
                &&& *final(mem) == *old(mem)
            },
            old(self).state == RunState::HaltedAwaitingInterrupt ==> {
                &&& r is None
                &&& *final(self) == old(self).idled()
                &&& *final(mem) == *old(mem)
            },
            old(self).state == RunState::Running ==> {
                let entry = opcode_table(old(self).operand(*old(mem), 0));
                &&& r == Some(entry)
                &&& exists|c1: CPU|
                    #[trigger] executes(
                        entry.instruction,
                        entry.mode,
                        old(self).fetched(entry.cycles as u32),
                        *old(mem),
                        c1,
                        *final(mem),
                    ) && *final(self) == c1.after_boundary(
                        spent(old(self).cycles, entry.cycles as u32).1,
                    )
            },
            stepped(*old(self), *old(mem), *final(self), *final(mem)),
            old(self).wf() ==> final(self).wf(),
    {
        match self.state {
            RunState::Running => {},
            RunState::HaltedAwaitingInterrupt => {
                let boundary = self.spend(IDLE_CYCLES);
                if boundary && self.should_exit {
                    self.state = RunState::Terminated;
                }
                return None;
            },
            RunState::Terminated => {
                return None;
            },
        }
        let opcode = self.next_b(&*mem);
        let entry = decode(opcode);
        let cost = CPU::get_cycles(opcode) as u32;
        let boundary = self.spend(cost);
        let ghost c = *self;
        let ghost m0 = *mem;
        let mode = entry.mode;
        let ins = entry.instruction;
        match ins {
            Instruction::Adc | Instruction::And | Instruction::Asl | Instruction::Bcc
            | Instruction::Bcs | Instruction::Beq | Instruction::Bit | Instruction::Bmi
            | Instruction::Bne | Instruction::Bpl | Instruction::Bra | Instruction::Brk => self.dispatch_0(ins, mode, mem),
            Instruction::Brl | Instruction::Bvc | Instruction::Bvs | Instruction::Clc
            | Instruction::Cld | Instruction::Cli | Instruction::Clv | Instruction::Cmp
            | Instruction::Cop | Instruction::Cpx | Instruction::Cpy | Instruction::Dec => self.dispatch_1(ins, mode, mem),
            Instruction::Dex | Instruction::Dey | Instruction::Eor | Instruction::Inc
            | Instruction::Inx | Instruction::Iny | Instruction::Jmp | Instruction::Jsl
            | Instruction::Jsr | Instruction::Lda | Instruction::Ldx | Instruction::Ldy => self.dispatch_2(ins, mode, mem),
            Instruction::Lsr | Instruction::Mvn | Instruction::Mvp | Instruction::Nop
            | Instruction::Ora | Instruction::Pea | Instruction::Pei | Instruction::Per
            | Instruction::Pha | Instruction::Phb | Instruction::Phd | Instruction::Phk => self.dispatch_3(ins, mode, mem),
            Instruction::Php | Instruction::Phx | Instruction::Phy | Instruction::Pla
            | Instruction::Plb | Instruction::Pld | Instruction::Plp | Instruction::Plx
            | Instruction::Ply | Instruction::Rep | Instruction::Rol | Instruction::Ror => self.dispatch_4(ins, mode, mem),
            Instruction::Rti | Instruction::Rtl | Instruction::Rts | Instruction::Sbc
            | Instruction::Sec | Instruction::Sed | Instruction::Sei | Instruction::Sep
            | Instruction::Sta | Instruction::Stp | Instruction::Stx | Instruction::Sty => self.dispatch_5(ins, mode, mem),
            Instruction::Stz | Instruction::Tax | Instruction::Tay | Instruction::Tcd
            | Instruction::Tcs | Instruction::Tdc | Instruction::Trb | Instruction::Tsb
            | Instruction::Tsc | Instruction::Tsx | Instruction::Txa | Instruction::Txs => self.dispatch_6(ins, mode, mem),
            Instruction::Txy | Instruction::Tya | Instruction::Tyx | Instruction::Wai
            | Instruction::Wdm | Instruction::Xba | Instruction::Xce => self.dispatch_7(ins, mode, mem),
        }
        let ghost c1 = *self;
        if boundary && self.should_exit {
            self.state = RunState::Terminated;
        }
        proof {
            assert(c == old(self).fetched(entry.cycles as u32));
            assert(boundary == spent(old(self).cycles, entry.cycles as u32).1);
            assert(m0 == *old(mem));
            assert(executes(entry.instruction, entry.mode, old(self).fetched(entry.cycles as u32), *old(mem), c1, *mem) && *self == c1.after_boundary(boundary));
        }
        Some(entry)
    }

    /// Runs the instructions ADC to BRK.
    #[verifier::spinoff_prover]
    fn dispatch_0<M: Mem>(&mut self, ins: Instruction, mode: AddressMode, mem: &mut M)
        requires
            mode_fits(ins, mode),
            dispatch_group(ins) == 0,
        ensures
            executes(ins, mode, *old(self), *old(mem), *final(self), *final(mem)),
            old(self).wf() ==> final(self).wf(),
    {
        proof {
            reveal(executes);
        }
        match ins {
            Instruction::Adc => self.adc(mode, &*mem),
            Instruction::And => self.and(mode, &*mem),
            Instruction::Asl => self.asl(mode, mem),
            Instruction::Bcc => self.bcc(&*mem),
            Instruction::Bcs => self.bcs(&*mem),
            Instruction::Beq => self.beq(&*mem),
            Instruction::Bit => self.bit(mode, &*mem),
            Instruction::Bmi => self.bmi(&*mem),
            Instruction::Bne => self.bne(&*mem),
            Instruction::Bpl => self.bpl(&*mem),
            Instruction::Bra => self.bra(&*mem),
            Instruction::Brk => self.brk(mem),
            _ => {},
        }
    }

    /// Runs the instructions BRL to DEC.
    #[verifier::spinoff_prover]
    fn dispatch_1<M: Mem>(&mut self, ins: Instruction, mode: AddressMode, mem: &mut M)
        requires
            mode_fits(ins, mode),
            dispatch_group(ins) == 1,
        ensures
            executes(ins, mode, *old(self), *old(mem), *final(self), *final(mem)),
            old(self).wf() ==> final(self).wf(),
    {
        proof {
            reveal(executes);
        }
        match ins {
            Instruction::Brl => self.brl(&*mem),
            Instruction::Bvc => self.bvc(&*mem),
            Instruction::Bvs => self.bvs(&*mem),
            Instruction::Clc => self.clc(),
            Instruction::Cld => self.cld(),
            Instruction::Cli => self.cli(),
            Instruction::Clv => self.clv(),
            Instruction::Cmp => self.cmp(mode, &*mem),
            Instruction::Cop => self.cop(mem),
            Instruction::Cpx => self.cpx(mode, &*mem),
            Instruction::Cpy => self.cpy(mode, &*mem),
            Instruction::Dec => self.dec(mode, mem),
            _ => {},
        }
    }

    /// Runs the instructions DEX to LDY.
    #[verifier::spinoff_prover]
    fn dispatch_2<M: Mem>(&mut self, ins: Instruction, mode: AddressMode, mem: &mut M)
        requires
            mode_fits(ins, mode),
            dispatch_group(ins) == 2,
        ensures
            executes(ins, mode, *old(self), *old(mem), *final(self), *final(mem)),
            old(self).wf() ==> final(self).wf(),
    {
        proof {
            reveal(executes);
        }
        match ins {
            Instruction::Dex => self.dex(),
            Instruction::Dey => self.dey(),
            Instruction::Eor => self.eor(mode, &*mem),
            Instruction::Inc => self.inc(mode, mem),
            Instruction::Inx => self.inx(),
            Instruction::Iny => self.iny(),
            Instruction::Jmp => self.jmp(mode, &*mem),
            Instruction::Jsl => self.jsl(mem),
            Instruction::Jsr => self.jsr(mode, mem),
            Instruction::Lda => self.lda(mode, &*mem),
            Instruction::Ldx => self.ldx(mode, &*mem),
            Instruction::Ldy => self.ldy(mode, &*mem),
            _ => {},
        }
    }

    /// Runs the instructions LSR to PHK.
    #[verifier::spinoff_prover]
    fn dispatch_3<M: Mem>(&mut self, ins: Instruction, mode: AddressMode, mem: &mut M)
        requires
            mode_fits(ins, mode),
            dispatch_group(ins) == 3,
        ensures
            executes(ins, mode, *old(self), *old(mem), *final(self), *final(mem)),
            old(self).wf() ==> final(self).wf(),
    {
        proof {
            reveal(executes);
        }
        match ins {
            Instruction::Lsr => self.lsr(mode, mem),
            Instruction::Mvn => self.mvn(mem),
            Instruction::Mvp => self.mvp(mem),
            Instruction::Nop => self.nop(),
            Instruction::Ora => self.ora(mode, &*mem),
            Instruction::Pea => self.pea(mem),
            Instruction::Pei => self.pei(mem),
            Instruction::Per => self.per(mem),
            Instruction::Pha => self.pha(mem),
            Instruction::Phb => self.phb(mem),
            Instruction::Phd => self.phd(mem),
            Instruction::Phk => self.phk(mem),
            _ => {},
        }
    }

    /// Runs the instructions PHP to ROR.
    #[verifier::spinoff_prover]
    fn dispatch_4<M: Mem>(&mut self, ins: Instruction, mode: AddressMode, mem: &mut M)
        requires
            mode_fits(ins, mode),
            dispatch_group(ins) == 4,
        ensures
            executes(ins, mode, *old(self), *old(mem), *final(self), *final(mem)),
            old(self).wf() ==> final(self).wf(),
    {
        proof {
            reveal(executes);
        }
        match ins {
            Instruction::Php => self.php(mem),
            Instruction::Phx => self.phx(mem),
            Instruction::Phy => self.phy(mem),
            Instruction::Pla => self.pla(&*mem),
            Instruction::Plb => self.plb(&*mem),
            Instruction::Pld => self.pld(&*mem),
            Instruction::Plp => self.plp(&*mem),
            Instruction::Plx => self.plx(&*mem),
            Instruction::Ply => self.ply(&*mem),
            Instruction::Rep => self.rep(&*mem),
            Instruction::Rol => self.rol(mode, mem),
            Instruction::Ror => self.ror(mode, mem),
            _ => {},
        }
    }

    /// Runs the instructions RTI to STY.
    #[verifier::spinoff_prover]
    fn dispatch_5<M: Mem>(&mut self, ins: Instruction, mode: AddressMode, mem: &mut M)
        requires
            mode_fits(ins, mode),
            dispatch_group(ins) == 5,
        ensures
            executes(ins, mode, *old(self), *old(mem), *final(self), *final(mem)),
            old(self).wf() ==> final(self).wf(),
    {
        proof {
            reveal(executes);
        }
        match ins {
            Instruction::Rti => self.rti(&*mem),
            Instruction::Rtl => self.rtl(&*mem),
            Instruction::Rts => self.rts(&*mem),
            Instruction::Sbc => self.sbc(mode, &*mem),
            Instruction::Sec => self.sec(),
            Instruction::Sed => self.sed(),
            Instruction::Sei => self.sei(),
            Instruction::Sep => self.sep(&*mem),
            Instruction::Sta => self.sta(mode, mem),
            Instruction::Stp => self.stp(),
            Instruction::Stx => self.stx(mode, mem),
            Instruction::Sty => self.sty(mode, mem),
            _ => {},
        }
    }

    /// Runs the instructions STZ to TXS.
    #[verifier::spinoff_prover]
    fn dispatch_6<M: Mem>(&mut self, ins: Instruction, mode: AddressMode, mem: &mut M)
        requires
            mode_fits(ins, mode),
            dispatch_group(ins) == 6,
        ensures
            executes(ins, mode, *old(self), *old(mem), *final(self), *final(mem)),
            old(self).wf() ==> final(self).wf(),
    {
        proof {
            reveal(executes);
        }
        match ins {
            Instruction::Stz => self.stz(mode, mem),
            Instruction::Tax => self.tax(),
            Instruction::Tay => self.tay(),
            Instruction::Tcd => self.tcd(),
            Instruction::Tcs => self.tcs(),
            Instruction::Tdc => self.tdc(),
            Instruction::Trb => self.trb(mode, mem),
            Instruction::Tsb => self.tsb(mode, mem),
            Instruction::Tsc => self.tsc(),
            Instruction::Tsx => self.tsx(),
            Instruction::Txa => self.txa(),
            Instruction::Txs => self.txs(),
            _ => {},
        }
    }

    /// Runs the instructions TXY to XCE.
    #[verifier::spinoff_prover]
    fn dispatch_7<M: Mem>(&mut self, ins: Instruction, mode: AddressMode, mem: &mut M)
        requires
            mode_fits(ins, mode),
            dispatch_group(ins) == 7,
        ensures
            executes(ins, mode, *old(self), *old(mem), *final(self), *final(mem)),
            old(self).wf() ==> final(self).wf(),
    {
        proof {
            reveal(executes);
        }
        match ins {
            Instruction::Txy => self.txy(),
            Instruction::Tya => self.tya(),
            Instruction::Tyx => self.tyx(),
            Instruction::Wai => self.wai(),
            Instruction::Wdm => self.wdm(),
            Instruction::Xba => self.xba(),
            Instruction::Xce => self.xce(),
            _ => {},
        }
    }

    pub fn is_running(&self) -> (r: bool)
        ensures
            r == (self.state == RunState::Running),
    {
        match self.state {
            RunState::Running => true,
            _ => false,
        }
    }

    /// Re-arms a processor halted by STP or WAI, as an interrupt does.
    pub fn resume(&mut self)
        ensures
            old(self).state == RunState::HaltedAwaitingInterrupt ==> *final(self) == (CPU {
                state: RunState::Running,
                ..*old(self)
            }),
            old(self).state != RunState::HaltedAwaitingInterrupt ==> *final(self) == *old(self),
    {
        if let RunState::HaltedAwaitingInterrupt = self.state {
            self.state = RunState::Running;
        }
    }

    /// Asks the run to end at the next cycle-budget boundary.
    pub fn request_exit(&mut self)
        ensures
            *final(self) == (CPU { should_exit: true, ..*old(self) }),
    {
        self.should_exit = true;
    }

    pub fn is_terminated(&self) -> (r: bool)
        ensures
            r == (self.state == RunState::Terminated),
    {
        match self.state {
            RunState::Terminated => true,
            _ => false,
        }
    }

    /// Steps until the run is terminated, at most `max_steps` times, and
    /// returns the run state it stops in. A halted processor keeps stepping,
    /// so that an exit request still ends it at a budget boundary.
    pub fn run<M: Mem>(&mut self, mem: &mut M, max_steps: u64) -> (r: RunState)
        ensures
            r == final(self).state,
            exists|n: nat|
                n <= max_steps && #[trigger] ran(*old(self), *old(mem), *final(self), *final(mem), n)
                    && (n == max_steps || final(self).state == RunState::Terminated),
            old(self).wf() ==> final(self).wf(),
            old(self).state == RunState::Terminated ==> *final(self) == *old(self),
    {
        let ghost wf0 = self.wf();
        let ghost c0 = *self;
        let ghost m0 = *mem;
        let mut i: u64 = 0;
        while i < max_steps && !self.is_terminated()
            invariant
                i <= max_steps,
                wf0 ==> self.wf(),
                ran(c0, m0, *self, *mem, i as nat),
                c0.state == RunState::Terminated ==> *self == c0,
            decreases max_steps - i,
        {
            let ghost c = *self;
            let ghost m = *mem;
            self.step(mem);
            proof {
                assert(ran(c0, m0, c, m, i as nat) && c.state != RunState::Terminated && stepped(c, m, *self, *mem));
                let k = (i + 1) as nat;
                assert((k - 1) as nat == i as nat);
                assert(ran(c0, m0, *self, *mem, k));
            }
            i = i + 1;
        }
        proof {
            assert(ran(c0, m0, *self, *mem, i as nat));
        }
        self.state
    }
}

/// One step from `c0` on memory `m0` gives `c1` and `m1`: a running
/// processor executes the instruction at (PBR, PC) as the opcode table and
/// `executes` say, then runs the boundary checks; a halted one lets one
/// instruction's cycles pass; a terminated one stays as it is.
pub open spec fn stepped<M: Mem>(c0: CPU, m0: M, c1: CPU, m1: M) -> bool {
    match c0.state {
        RunState::Running => {
            let entry = opcode_table(c0.operand(m0, 0));
            exists|c: CPU|
                #[trigger] executes(entry.instruction, entry.mode, c0.fetched(entry.cycles as u32), m0, c, m1)
                    && c1 == c.after_boundary(spent(c0.cycles, entry.cycles as u32).1)
        },
        RunState::HaltedAwaitingInterrupt => c1 == c0.idled() && m1 == m0,
        RunState::Terminated => c1 == c0 && m1 == m0,
    }
}

/// `n` steps, none taken from a terminated state, lead from `c0` and `m0`
/// to `c1` and `m1`.
pub open spec fn ran<M: Mem>(c0: CPU, m0: M, c1: CPU, m1: M, n: nat) -> bool
    decreases n,
{
    if n == 0 {
        c1 == c0 && m1 == m0
    } else {
        exists|c: CPU, m: M|
            ran(c0, m0, c, m, (n - 1) as nat) && c.state != RunState::Terminated
                && #[trigger] stepped(c, m, c1, m1)
    }
}

/// The stack address after `k` pushes from stack pointer `sp`: in emulation
/// mode the stack stays in page one.
pub open spec fn stack_down(sp: u16, emulation: bool, k: int) -> u16 {
    if emulation {
        word(1, wrap8(lo_byte(sp) - k))
    } else {
        wrap16(sp - k)
    }
}

/// The stack address after `k` pulls from stack pointer `sp`.
pub open spec fn stack_up(sp: u16, emulation: bool, k: int) -> u16 {
    if emulation {
        word(1, wrap8(lo_byte(sp) + k))
    } else {
        wrap16(sp + k)
    }
}

/// The byte at `(b, a)` after `bytes` are pushed, in order, on memory `m0`
/// from stack pointer `sp`.
pub open spec fn pushed_byte<M: Mem>(
    m0: M,
    sp: u16,
    emulation: bool,
    bytes: Seq<u8>,
    b: u8,
    a: u16,
) -> u8
    decreases bytes.len(),
{
    if bytes.len() == 0 {
        m0.byte(b, a)
    } else if b == 0 && a == stack_down(sp, emulation, bytes.len() - 1) {
        bytes.last()
    } else {
        pushed_byte(m0, sp, emulation, bytes.drop_last(), b, a)
    }
}

/// `m1` is `m0` after `bytes` are pushed, in order, from stack pointer `sp`.
pub open spec fn pushed<M: Mem>(m0: M, m1: M, sp: u16, emulation: bool, bytes: Seq<u8>) -> bool {
    forall|b: u8, a: u16| #[trigger] m1.byte(b, a) == pushed_byte(m0, sp, emulation, bytes, b, a)
}

/// The `k`-th byte (from one) pulled from stack pointer `sp`.
pub open spec fn pulled<M: Mem>(mem: M, sp: u16, emulation: bool, k: int) -> u8 {
    mem.byte(0, stack_up(sp, emulation, k))
}

/// The width-aware registers.
#[derive(Clone, Copy, Debug, PartialEq, Eq, Structural)]
pub enum Reg {
    A,
    X,
    Y,
}

/// `v` written into a register holding `old`: all of it when wide, else its
/// low byte, keeping the high byte of `old`.
pub open spec fn merge(old: u16, v: u16, wide: bool) -> u16 {
    if wide {
        v
    } else {
        word(hi_byte(old), lo_byte(v))
    }
}

/// The part of a register value that is live at the given width.
pub open spec fn live(v: u16, wide: bool) -> u16 {
    if wide {
        v
    } else {
        lo_byte(v) as u16
    }
}

pub fn merge_into(old: u16, v: u16, wide: bool) -> (r: u16)
    ensures
        r == merge(old, v, wide),
{
    if wide {
        v
    } else {
        make_word(high(old), low(v))
    }
}

pub fn live_part(v: u16, wide: bool) -> (r: u16)
    ensures
        r == live(v, wide),
        !wide ==> r < 0x100,
{
    if wide {
        v
    } else {
        low(v) as u16
    }
}

impl Flags {
    /// Zero and negative set from a result of the given width.
    pub open spec fn nz(self, v: u16, wide: bool) -> Flags {
        Flags {
            zero: live(v, wide) == 0,
            negative: if wide {
                v >= 0x8000
            } else {
                lo_byte(v) >= 0x80
            },
            ..self
        }
    }
}

impl CPU {
    /// Whether operations on register `r` are 16-bit.
    pub open spec fn wide(self, r: Reg) -> bool {
        match r {
            Reg::A => !self.regs.p.accumulator_width,
            _ => !self.regs.p.index_width,
        }
    }

    pub open spec fn reg(self, r: Reg) -> u16 {
        match r {
            Reg::A => self.regs.a,
            Reg::X => self.regs.x,
            Reg::Y => self.regs.y,
        }
    }

    pub open spec fn set_reg(self, r: Reg, v: u16) -> CPU {
        match r {
            Reg::A => CPU { regs: Registers { a: v, ..self.regs }, ..self },
            Reg::X => CPU { regs: Registers { x: v, ..self.regs }, ..self },
            Reg::Y => CPU { regs: Registers { y: v, ..self.regs }, ..self },
        }
    }

    pub open spec fn nz(self, v: u16, wide: bool) -> CPU {
        self.with_flags(self.regs.p.nz(v, wide))
    }

    /// The address pair that a read-modify-write at the given width uses.
    pub open spec fn target<M: Mem>(self, am: AddressMode, mem: M, wide: bool) -> (
        MemoryAddress,
        MemoryAddress,
    ) {
        if wide {
            am.pair(self, mem)
        } else {
            (am.address(self, mem), am.address(self, mem))
        }
    }

    pub fn is_wide(&self, r: Reg) -> (w: bool)
        ensures
            w == self.wide(r),
    {
        match r {
            Reg::A => !self.regs.p.accumulator_width,
            _ => !self.regs.p.index_width,
        }
    }

    pub fn get_reg(&self, r: Reg) -> (v: u16)
        ensures
            v == self.reg(r),
    {
        match r {
            Reg::A => self.regs.a,
            Reg::X => self.regs.x,
            Reg::Y => self.regs.y,
        }
    }

    pub fn put_reg(&mut self, r: Reg, v: u16)
        ensures
            *final(self) == old(self).set_reg(r, v),
    {
        match r {
            Reg::A => self.regs.a = v,
            Reg::X => self.regs.x = v,
            Reg::Y => self.regs.y = v,
        }
    }

    pub fn set_nz(&mut self, v: u16, wide: bool)
        ensures
            *final(self) == old(self).nz(v, wide),
    {
        let l = live_part(v, wide);
        self.regs.p.zero = l == 0;
        self.regs.p.negative = if wide {
            v >= 0x8000
        } else {
            low(v) >= 0x80
        };
    }

    /// Resolves the address pair of a read-modify-write operand.
    pub fn resolve<M: Mem>(&mut self, am: &AddressMode, mem: &M, wide: bool) -> (r: (
        MemoryAddress,
        MemoryAddress,
    ))
        requires
            am.is_data(),
        ensures
            r == old(self).target(*am, *mem, wide),
            *final(self) == old(self).past(*am, wide),
    {
        if wide {
            am.get_address_16(self, mem)
        } else {
            let at = am.get_address_8(self, mem);
            (at, at)
        }
    }

    /// The operand that `am` names, read at the given width.
    pub open spec fn read<M: Mem>(self, am: AddressMode, mem: M, wide: bool) -> u16 {
        if wide {
            let p = am.pair(self, mem);
            word(byte_at(mem, p.1), byte_at(mem, p.0))
        } else {
            byte_at(mem, am.address(self, mem)) as u16
        }
    }

    /// The state once the operand bytes of `am` at the given width are
    /// consumed.
    pub open spec fn past(self, am: AddressMode, wide: bool) -> CPU {
        self.advanced(
            if wide {
                am.len16()
            } else {
                am.len()
            },
        )
    }

    pub open spec fn with_sp(self, sp: u16) -> CPU {
        CPU { regs: Registers { sp: sp, ..self.regs }, ..self }
    }

    /// The stack pointer moved down by `k` pushes.
    pub open spec fn pushed_sp(self, k: int) -> CPU {
        self.with_sp(stack_down(self.regs.sp, self.emulation(), k))
    }

    /// The stack pointer moved up by `k` pulls.
    pub open spec fn pulled_sp(self, k: int) -> CPU {
        self.with_sp(stack_up(self.regs.sp, self.emulation(), k))
    }

    /// Reads an 8-bit operand.
    pub fn load_8<M: Mem>(&mut self, addr_mode: &AddressMode, mem: &M) -> (r: u8)
        requires
            addr_mode.has_address(),
        ensures
            r == old(self).read(*addr_mode, *mem, false),
            *final(self) == old(self).past(*addr_mode, false),
    {
        let (bank, addr) = addr_mode.get_address_8(self, mem);
        mem.load(bank, addr)
    }

    /// Reads a 16-bit operand, low byte first.
    pub fn load_16<M: Mem>(&mut self, addr_mode: &AddressMode, mem: &M) -> (r: u16)
        requires
            addr_mode.has_pair(),
        ensures
            r == old(self).read(*addr_mode, *mem, true),
            *final(self) == old(self).past(*addr_mode, true),
    {
        let ((lo_bank, lo_addr), (hi_bank, hi_addr)) = addr_mode.get_address_16(self, mem);
        let lo = mem.load(lo_bank, lo_addr);
        let hi = mem.load(hi_bank, hi_addr);
        make_word(hi, lo)
    }

    /// Reads an operand at the given width.
    pub fn load_w<M: Mem>(&mut self, addr_mode: &AddressMode, mem: &M, wide: bool) -> (r: u16)
        requires
            addr_mode.is_data(),
        ensures
            r == old(self).read(*addr_mode, *mem, wide),
            *final(self) == old(self).past(*addr_mode, wide),
            !wide ==> r < 0x100,
    {
        if wide {
            self.load_16(addr_mode, mem)
        } else {
            self.load_8(addr_mode, mem) as u16
        }
    }

    /// Writes an 8-bit operand.
    pub fn store_8<M: Mem>(&mut self, addr_mode: &AddressMode, mem: &mut M, to_store: u8)
        requires
            addr_mode.has_address(),
        ensures
            written8(*old(mem), *final(mem), addr_mode.address(*old(self), *old(mem)), to_store),
            *final(self) == old(self).past(*addr_mode, false),
    {
        let (bank, address) = addr_mode.get_address_8(self, mem);
        mem.store(bank, address, to_store);
    }

    /// Writes a 16-bit operand, low byte first.
    pub fn store_16<M: Mem>(&mut self, addr_mode: &AddressMode, mem: &mut M, to_store: u16)
        requires
            addr_mode.has_pair(),
        ensures
            written16(
                *old(mem),
                *final(mem),
                addr_mode.pair(*old(self), *old(mem)).0,
                addr_mode.pair(*old(self), *old(mem)).1,
                to_store,
            ),
            *final(self) == old(self).past(*addr_mode, true),
    {
        let ((lo_bank, lo_addr), (hi_bank, hi_addr)) = addr_mode.get_address_16(self, mem);
        mem.store(lo_bank, lo_addr, low(to_store));
        mem.store(hi_bank, hi_addr, high(to_store));
    }

    /// Writes `v` (its low byte when not wide) at an already resolved
    /// address pair.
    pub fn store_at<M: Mem>(mem: &mut M, at: (MemoryAddress, MemoryAddress), v: u16, wide: bool)
        ensures
            wide ==> written16(*old(mem), *final(mem), at.0, at.1, v),
            !wide ==> written8(*old(mem), *final(mem), at.0, lo_byte(v)),
    {
        if wide {
            mem.store((at.0).0, (at.0).1, low(v));
            mem.store((at.1).0, (at.1).1, high(v));
        } else {
            mem.store((at.0).0, (at.0).1, low(v));
        }
    }

    /// Reads the operand at an already resolved address pair.
    pub fn load_at<M: Mem>(mem: &M, at: (MemoryAddress, MemoryAddress), wide: bool) -> (r: u16)
        ensures
            r == if wide {
                word(byte_at(*mem, at.1), byte_at(*mem, at.0))
            } else {
                byte_at(*mem, at.0) as u16
            },
    {
        if wide {
            let lo = mem.load((at.0).0, (at.0).1);
            let hi = mem.load((at.1).0, (at.1).1);
            make_word(hi, lo)
        } else {
            mem.load((at.0).0, (at.0).1) as u16
        }
    }

    fn stack_dec(&self) -> (r: u16)
        ensures
            r == stack_down(self.regs.sp, self.emulation(), 1),
    {
        if self.regs.p.emulation_mode {
            make_word(1, sub8(low(self.regs.sp), 1))
        } else {
            sub16(self.regs.sp, 1)
        }
    }

    fn stack_inc(&self) -> (r: u16)
        ensures
            r == stack_up(self.regs.sp, self.emulation(), 1),
    {
        if self.regs.p.emulation_mode {
            make_word(1, add8(low(self.regs.sp), 1))
        } else {
            add16(self.regs.sp, 1)
        }
    }

    /// Pushes one byte: it is written at the top of the stack, which then
    /// moves down.
    pub fn push_b<M: Mem>(&mut self, mem: &mut M, v: u8)
        ensures
            pushed(*old(mem), *final(mem), old(self).regs.sp, old(self).emulation(), seq![v]),
            *final(self) == old(self).pushed_sp(1),
    {
        let top = if self.regs.p.emulation_mode {
            make_word(1, low(self.regs.sp))
        } else {
            self.regs.sp
        };
        mem.store(0, top, v);
        self.regs.sp = self.stack_dec();
        proof {
            let bytes = seq![v];
            assert(bytes.drop_last() =~= Seq::<u8>::empty());
            lemma_wrap8_add(lo_byte(old(self).regs.sp) as int, 0);
            assert forall|b: u8, a: u16| #[trigger]
                mem.byte(b, a) == pushed_byte(
                    *old(mem),
                    old(self).regs.sp,
                    old(self).emulation(),
                    bytes,
                    b,
                    a,
                ) by {
                assert(pushed_byte(*old(mem), old(self).regs.sp, old(self).emulation(), bytes.drop_last(), b, a) == old(mem).byte(b, a));
            }
        }
    }

    /// Pushes a word, high byte first.
    pub fn push_w<M: Mem>(&mut self, mem: &mut M, v: u16)
        ensures
            pushed(
                *old(mem),
                *final(mem),
                old(self).regs.sp,
                old(self).emulation(),
                seq![hi_byte(v), lo_byte(v)],
            ),
            *final(self) == old(self).pushed_sp(2),
    {
        let ghost m0 = *mem;
        let ghost c0 = *self;
        self.push_b(mem, high(v));
        let ghost m1 = *mem;
        let ghost c1 = *self;
        self.push_b(mem, low(v));
        proof {
            lemma_push_more(m0, m1, *mem, c0.regs.sp, c0.emulation(), seq![hi_byte(v)], lo_byte(v), c1.regs.sp);
            assert(seq![hi_byte(v)].push(lo_byte(v)) =~= seq![hi_byte(v), lo_byte(v)]);
            lemma_stack_down_twice(c0.regs.sp, c0.emulation(), 1, 1);
        }
    }

    /// Pulls a word, low byte first.
    pub fn pull_w<M: Mem>(&mut self, mem: &M) -> (r: u16)
        ensures
            r == word(
                pulled(*mem, old(self).regs.sp, old(self).emulation(), 2),
                pulled(*mem, old(self).regs.sp, old(self).emulation(), 1),
            ),
            *final(self) == old(self).pulled_sp(2),
    {
        let ghost c0 = *self;
        let lo = self.pull_b(mem);
        let hi = self.pull_b(mem);
        proof {
            lemma_stack_up_twice(c0.regs.sp, c0.emulation(), 1, 1);
        }
        make_word(hi, lo)
    }

    /// Pulls one byte: the stack pointer moves up, then the byte there is
    /// read.
    pub fn pull_b<M: Mem>(&mut self, mem: &M) -> (r: u8)
        ensures
            r == pulled(*mem, old(self).regs.sp, old(self).emulation(), 1),
            *final(self) == old(self).pulled_sp(1),
    {
        self.regs.sp = self.stack_inc();
        mem.load(0, self.regs.sp)
    }
}

/// Moving the stack pointer down `j` and then `k` places moves it `j + k`.
pub proof fn lemma_stack_down_twice(sp: u16, emulation: bool, j: int, k: int)
    ensures
        stack_down(stack_down(sp, emulation, j), emulation, k) == stack_down(sp, emulation, j + k),
{
    if emulation {
        lemma_bytes_word(1, wrap8(lo_byte(sp) - j));
        lemma_wrap8_add(lo_byte(sp) - j, -k);
    } else {
        lemma_wrap16_add(sp - j, -k);
    }
}

/// Moving the stack pointer up `j` and then `k` places moves it `j + k`.
pub proof fn lemma_stack_up_twice(sp: u16, emulation: bool, j: int, k: int)
    ensures
        stack_up(stack_up(sp, emulation, j), emulation, k) == stack_up(sp, emulation, j + k),
{
    if emulation {
        lemma_bytes_word(1, wrap8(lo_byte(sp) + j));
        lemma_wrap8_add(lo_byte(sp) + j, k);
    } else {
        lemma_wrap16_add(sp + j, k);
    }
}

/// Pulling `k` places after `n` pushes reaches the place of push `n - k`.
pub proof fn lemma_stack_up_after_down(sp: u16, emulation: bool, n: int, k: int)
    ensures
        stack_up(stack_down(sp, emulation, n), emulation, k) == stack_down(sp, emulation, n - k),
{
    if emulation {
        lemma_bytes_word(1, wrap8(lo_byte(sp) - n));
        lemma_wrap8_add(lo_byte(sp) - n, k);
    } else {
        lemma_wrap16_add(sp - n, k);
    }
}

/// Pushing `s1` and then `s2` is pushing `s1 + s2`.
pub proof fn lemma_push_append<M: Mem>(
    m0: M,
    m1: M,
    m2: M,
    sp: u16,
    emulation: bool,
    s1: Seq<u8>,
    s2: Seq<u8>,
)
    requires
        pushed(m0, m1, sp, emulation, s1),
        pushed(m1, m2, stack_down(sp, emulation, s1.len() as int), emulation, s2),
    ensures
        pushed(m0, m2, sp, emulation, s1 + s2),
{
    assert forall|b: u8, a: u16| #[trigger]
        m2.byte(b, a) == pushed_byte(m0, sp, emulation, s1 + s2, b, a) by {
        lemma_pushed_byte_append(m0, m1, sp, emulation, s1, s2, b, a);
    }
}

proof fn lemma_pushed_byte_append<M: Mem>(
    m0: M,
    m1: M,
    sp: u16,
    emulation: bool,
    s1: Seq<u8>,
    s2: Seq<u8>,
    b: u8,
    a: u16,
)
    requires
        pushed(m0, m1, sp, emulation, s1),
    ensures
        pushed_byte(m1, stack_down(sp, emulation, s1.len() as int), emulation, s2, b, a)
            == pushed_byte(m0, sp, emulation, s1 + s2, b, a),
    decreases s2.len(),
{
    let sp1 = stack_down(sp, emulation, s1.len() as int);
    if s2.len() == 0 {
        assert(s1 + s2 =~= s1);
    } else {
        assert((s1 + s2).drop_last() =~= s1 + s2.drop_last());
        assert((s1 + s2).last() == s2.last());
        lemma_stack_down_twice(sp, emulation, s1.len() as int, s2.len() - 1);
        lemma_pushed_byte_append(m0, m1, sp, emulation, s1, s2.drop_last(), b, a);
    }
}

/// Pushing one more byte extends the pushed sequence.
pub proof fn lemma_push_more<M: Mem>(
    m0: M,
    m1: M,
    m2: M,
    sp: u16,
    emulation: bool,
    bytes: Seq<u8>,
    v: u8,
    sp1: u16,
)
    requires
        pushed(m0, m1, sp, emulation, bytes),
        pushed(m1, m2, sp1, emulation, seq![v]),
        sp1 == stack_down(sp, emulation, bytes.len() as int),
    ensures
        pushed(m0, m2, sp, emulation, bytes.push(v)),
{
    lemma_stack_down_twice(sp, emulation, bytes.len() as int, 0);
    assert(bytes.push(v).drop_last() =~= bytes);
    assert(seq![v].drop_last() =~= Seq::<u8>::empty());
    assert forall|b: u8, a: u16| #[trigger]
        m2.byte(b, a) == pushed_byte(m0, sp, emulation, bytes.push(v), b, a) by {
        assert(m2.byte(b, a) == pushed_byte(m1, sp1, emulation, seq![v], b, a));
        assert(pushed_byte(m1, sp1, emulation, seq![v].drop_last(), b, a) == m1.byte(b, a));
        assert(m1.byte(b, a) == pushed_byte(m0, sp, emulation, bytes, b, a));
        assert(bytes.push(v).last() == v);
    }
}

} // verus!
