//! The ARM EHABI personality routine, as a verified decision core.
//!
//! The unwinding runtime calls the personality routine once per candidate
//! stack frame, in two passes (a search phase, then a cleanup phase). The
//! routine consults the frame's language-specific data area (LSDA) and
//! answers with a reason code; on the way it reads and writes the frame's
//! virtual register set and the exception object's barrier cache.
//!
//! Everything the routine decides is in this module and verified. The two
//! pieces of outside work — decoding the LSDA bytes and performing the
//! native one-frame unwind step — happen in the unwinding runtime; their
//! outcomes enter the routine as values ([`EhAction`] and a [`ReasonCode`]),
//! so the routine is verified for every outcome they can produce.

use vstd::prelude::*;

verus! {

/// The number of core registers in the unwinder's virtual register set.
pub const CORE_REG_COUNT: usize = 16;

/// Register carrying the exception object into a landing pad.
pub const DATA_REG_0: usize = 0;

/// Register carrying the landing pad's secondary datum (always null here).
pub const DATA_REG_1: usize = 1;

/// The scratch register (r12) where the personality routine stashes the
/// exception object's address for the LSDA decode logic, which expects to
/// find it in the context rather than in the exception object.
pub const POINTER_REG: usize = 12;

/// The stack pointer register (r13).
pub const SP_REG: usize = 13;

/// The instruction pointer register (r15).
pub const IP_REG: usize = 15;

/// Mask selecting the action field of the unwind state word.
pub const STATE_ACTION_MASK: u32 = 3;

/// Search-phase probe of this frame.
pub const STATE_VIRTUAL_UNWIND_FRAME: u32 = 0;

/// Cleanup phase, this frame owns the fault.
pub const STATE_UNWIND_FRAME_STARTING: u32 = 1;

/// A previous cleanup is resuming unwinding past this frame.
pub const STATE_UNWIND_FRAME_RESUME: u32 = 2;

/// Flag set when a forced (abnormal or foreign) unwind is in progress.
pub const STATE_FORCE_UNWIND: u32 = 8;

/// The reason codes a personality routine exchanges with the unwind driver.
#[derive(Clone, Copy, Debug, PartialEq, Eq, Structural)]
pub enum ReasonCode {
    /// The callee had nothing to report.
    NoReason,
    /// A foreign exception was caught.
    ForeignExceptionCaught,
    /// Fatal error during the cleanup phase.
    FatalPhase2Error,
    /// Fatal error during the search phase.
    FatalPhase1Error,
    /// A stop function asked for the unwind to halt.
    NormalStop,
    /// The top of the stack was reached.
    EndOfStack,
    /// The search phase found this frame's handler.
    HandlerFound,
    /// Control is to transfer to the frame's landing pad.
    InstallContext,
    /// Unwinding proceeds to the caller's frame.
    ContinueUnwind,
    /// The unwind cannot proceed.
    Failure,
}

/// What a frame's LSDA decodes to.
#[derive(Clone, Copy, Debug, PartialEq, Eq, Structural)]
pub enum EhAction {
    /// The frame has no handling for this range and does not care.
    NoAction,
    /// Run a destructor-style landing pad, then keep unwinding.
    Cleanup(u32),
    /// A handler at this landing pad wants to catch.
    Catch(u32),
    /// A conditional catch at this landing pad.
    Filter(u32),
    /// Handling is impossible; abort the search.
    Terminate,
}

/// Decoding the LSDA failed (malformed or missing table).
#[derive(Clone, Copy, Debug, PartialEq, Eq, Structural)]
pub struct LsdaError;

/// The core-register class of the frame's virtual register set.
pub struct Registers {
    /// The sixteen core registers, r0 through r15.
    pub core: [u32; 16],
}

impl Registers {
    /// The value of core register `i`.
    pub open spec fn reg(self, i: int) -> u32 {
        self.core[i]
    }

    /// Read one core register.
    pub fn get_gr(&self, i: usize) -> (r: u32)
        requires
            i < CORE_REG_COUNT,
        ensures
            r == self.reg(i as int),
    {
        self.core[i]
    }

    /// Write one core register.
    pub fn set_gr(&mut self, i: usize, v: u32)
        requires
            i < CORE_REG_COUNT,
        ensures
            final(self).reg(i as int) == v,
            forall|j: int|
                0 <= j < CORE_REG_COUNT && j != i ==> final(self).reg(j) == old(self).reg(j),
    {
        self.core[i] = v;
    }

    /// The instruction pointer with its instruction-set mode bit cleared.
    pub fn get_ip(&self) -> (r: u32)
        ensures
            r == self.reg(IP_REG as int) & !1u32,
    {
        let val = self.get_gr(IP_REG);
        val & !1u32
    }

    /// The instruction pointer, together with the flag telling whether it
    /// points before the instruction (on this target it never does: the
    /// flag is always zero, so the caller must step the address back by
    /// one byte itself to land inside the call's range).
    pub fn get_ip_info(&self) -> (r: (u32, i32))
        ensures
            r.0 == self.reg(IP_REG as int) & !1u32,
            r.1 == 0i32,
    {
        (self.get_ip(), 0i32)
    }

    /// Set the instruction pointer, propagating the current instruction-set
    /// mode bit into the new value.
    pub fn set_ip(&mut self, value: u32)
        ensures
            final(self).reg(IP_REG as int) == value | (old(self).reg(IP_REG as int) & 1),
            forall|j: int|
                0 <= j < CORE_REG_COUNT && j != IP_REG ==> final(self).reg(j) == old(self).reg(j),
    {
        let mode_bit = self.get_gr(IP_REG) & 1;
        self.set_gr(IP_REG, value | mode_bit);
    }
}

/// The exception object, as far as the personality routine touches it.
pub struct ExceptionObject {
    /// The language- and implementation-identifying class of the exception.
    pub exception_class: u64,
    /// The barrier cache's saved stack pointer: the search phase records
    /// here where the cleanup phase must stop probing and start running
    /// landing pads.
    pub barrier_cache_sp: u32,
}

/// The per-frame description handed to the LSDA decode logic.
pub struct EhContext {
    /// The probe address inside the function's range.
    pub ip: u32,
    /// The function's start address.
    pub func_start: u32,
}

/// Build the decode context for the current frame. The return address in
/// the register set points one byte past the call instruction, so the probe
/// address steps back by one byte (wrapping, because an all-ones address
/// has a reserved meaning and must survive the adjustment).
pub fn frame_eh_context(regs: &Registers, func_start: u32) -> (c: EhContext)
    ensures
        c.ip == (regs.reg(IP_REG as int) & !1u32).wrapping_sub(1),
        c.func_start == func_start,
{
    let (ip, ip_before_instr) = regs.get_ip_info();
    let probe = if ip_before_instr != 0 {
        ip
    } else {
        ip.wrapping_sub(1)
    };
    EhContext { ip: probe, func_start }
}

/// What the routine decides to do with the frame, before the native
/// one-frame unwind step is taken into account.
#[derive(Clone, Copy, Debug, PartialEq, Eq, Structural)]
pub enum Disposition {
    /// Perform one native frame-unwind step, then report its outcome.
    Step,
    /// Report that the search phase found its handler here.
    HandlerFound,
    /// Transfer control to this frame's landing pad.
    InstallContext,
    /// The unwind cannot proceed.
    Failure,
}

/// The action field of the unwind state word.
pub open spec fn action_of(state: u32) -> u32 {
    state & STATE_ACTION_MASK
}

/// Whether the state word carries the force-unwind flag.
pub open spec fn forced(state: u32) -> bool {
    state & STATE_FORCE_UNWIND != 0
}

/// Whether the routine reaches the LSDA dispatch for this state word (and
/// so stashes the exception object's address in the scratch register).
pub open spec fn reaches_dispatch(state: u32) -> bool {
    ||| (action_of(state) == STATE_VIRTUAL_UNWIND_FRAME && !forced(state))
    ||| action_of(state) == STATE_UNWIND_FRAME_STARTING
}

/// How the native one-frame unwind step's report is translated for the
/// unwind driver.
pub open spec fn step_outcome_spec(step: ReasonCode) -> ReasonCode {
    if step == ReasonCode::NoReason {
        ReasonCode::ContinueUnwind
    } else {
        ReasonCode::Failure
    }
}

/// The landing pad named by an action, where it names one.
pub open spec fn lpad_of(action: EhAction) -> u32 {
    match action {
        EhAction::Cleanup(l) => l,
        EhAction::Catch(l) => l,
        EhAction::Filter(l) => l,
        EhAction::NoAction => 0,
        EhAction::Terminate => 0,
    }
}

/// The frame-handling state machine: what the personality routine decides
/// from the unwind state word and the frame's decoded table entry.
pub open spec fn personality_decision(state: u32, decode: Result<EhAction, LsdaError>) -> Disposition {
    let a = action_of(state);
    if a == STATE_VIRTUAL_UNWIND_FRAME && forced(state) {
        // A stack-trace-only probe: step past this frame without
        // consulting the table.
        Disposition::Step
    } else if a == STATE_UNWIND_FRAME_RESUME {
        Disposition::Step
    } else if a != STATE_VIRTUAL_UNWIND_FRAME && a != STATE_UNWIND_FRAME_STARTING {
        Disposition::Failure
    } else {
        match decode {
            Err(_) => Disposition::Failure,
            Ok(act) => {
                if a == STATE_VIRTUAL_UNWIND_FRAME {
                    // Search phase.
                    match act {
                        EhAction::NoAction => Disposition::Step,
                        EhAction::Cleanup(_) => Disposition::Step,
                        EhAction::Catch(_) => Disposition::HandlerFound,
                        EhAction::Filter(_) => Disposition::HandlerFound,
                        EhAction::Terminate => Disposition::Failure,
                    }
                } else {
                    // Cleanup phase.
                    match act {
                        EhAction::NoAction => Disposition::Step,
                        EhAction::Cleanup(_) => Disposition::InstallContext,
                        EhAction::Catch(_) => Disposition::InstallContext,
                        EhAction::Filter(_) => if forced(state) {
                            // Filters are skipped during forced termination.
                            Disposition::Step
                        } else {
                            Disposition::InstallContext
                        },
                        EhAction::Terminate => Disposition::Failure,
                    }
                }
            },
        }
    }
}

/// The reason code reported for a decision, given what the native
/// one-frame unwind step reported where one was taken.
pub open spec fn reported_code(d: Disposition, step: ReasonCode) -> ReasonCode {
    match d {
        Disposition::Step => step_outcome_spec(step),
        Disposition::HandlerFound => ReasonCode::HandlerFound,
        Disposition::InstallContext => ReasonCode::InstallContext,
        Disposition::Failure => ReasonCode::Failure,
    }
}

/// The register set changed only by the scratch-register stash.
pub open spec fn only_stash_written(pre: Registers, post: Registers, exc_addr: u32) -> bool {
    &&& post.reg(POINTER_REG as int) == exc_addr
    &&& forall|j: int|
        0 <= j < CORE_REG_COUNT && j != POINTER_REG ==> post.reg(j) == pre.reg(j)
}

/// The register writes that install a landing pad: the exception object's
/// address in the first data register, null in the second, the landing pad
/// in the instruction pointer with the pre-call instruction-set mode bit
/// kept, and the stash in the scratch register.
pub open spec fn install_written(pre: Registers, post: Registers, exc_addr: u32, lpad: u32) -> bool {
    &&& post.reg(DATA_REG_0 as int) == exc_addr
    &&& post.reg(DATA_REG_1 as int) == 0
    &&& post.reg(POINTER_REG as int) == exc_addr
    &&& post.reg(IP_REG as int) == lpad | (pre.reg(IP_REG as int) & 1)
    &&& forall|j: int|
        0 <= j < CORE_REG_COUNT && j != DATA_REG_0 && j != DATA_REG_1 && j != POINTER_REG
            && j != IP_REG ==> post.reg(j) == pre.reg(j)
}

/// Law: during the search phase, a frame whose table decodes to a
/// cleanup-only landing pad is stepped past — the routine reports a
/// continuation or a step failure, never that a handler was found.
pub proof fn lemma_search_cleanup_continues(state: u32, lpad: u32, step: ReasonCode)
    requires
        action_of(state) == STATE_VIRTUAL_UNWIND_FRAME,
        !forced(state),
    ensures
        personality_decision(state, Ok(EhAction::Cleanup(lpad))) == Disposition::Step,
        reported_code(personality_decision(state, Ok(EhAction::Cleanup(lpad))), step)
            != ReasonCode::HandlerFound,
{
}

/// Law: during the cleanup phase, a frame whose table decodes to a catch
/// handler installs its landing pad, and the installed instruction pointer
/// is exactly the decoded address with the frame's original
/// instruction-set mode bit kept.
pub proof fn lemma_cleanup_catch_installs(
    state: u32,
    lpad: u32,
    pre: Registers,
    post: Registers,
    exc_addr: u32,
)
    requires
        action_of(state) == STATE_UNWIND_FRAME_STARTING,
        install_written(pre, post, exc_addr, lpad),
    ensures
        personality_decision(state, Ok(EhAction::Catch(lpad))) == Disposition::InstallContext,
        post.reg(IP_REG as int) == lpad | (pre.reg(IP_REG as int) & 1),
{
}

/// Law: during the cleanup phase of a forced unwind, a frame whose table
/// decodes to a filter is skipped — the routine continues past it rather
/// than installing the landing pad.
pub proof fn lemma_forced_filter_skipped(state: u32, lpad: u32, step: ReasonCode)
    requires
        action_of(state) == STATE_UNWIND_FRAME_STARTING,
        forced(state),
    ensures
        personality_decision(state, Ok(EhAction::Filter(lpad))) == Disposition::Step,
        reported_code(personality_decision(state, Ok(EhAction::Filter(lpad))), step)
            != ReasonCode::InstallContext,
{
}

/// Translate the native one-frame unwind step's report for the driver: a
/// clean step continues the unwind, anything else is a failure.
pub fn step_outcome(step: ReasonCode) -> (r: ReasonCode)
    ensures
        r == step_outcome_spec(step),
{
    match step {
        ReasonCode::NoReason => ReasonCode::ContinueUnwind,
        _ => ReasonCode::Failure,
    }
}

/// Whether the routine reaches the LSDA dispatch for this state word.
pub fn dispatch_reached(state: u32) -> (b: bool)
    ensures
        b == reaches_dispatch(state),
{
    let action = state & STATE_ACTION_MASK;
    (action == STATE_VIRTUAL_UNWIND_FRAME && state & STATE_FORCE_UNWIND == 0) || action
        == STATE_UNWIND_FRAME_STARTING
}

/// The frame-handling decision by itself, for callers that must perform
/// the native step between deciding and reporting.
pub fn decide(state: u32, decode: Result<EhAction, LsdaError>) -> (d: Disposition)
    ensures
        d == personality_decision(state, decode),
{
    let action = state & STATE_ACTION_MASK;
    if action == STATE_VIRTUAL_UNWIND_FRAME && state & STATE_FORCE_UNWIND != 0 {
        return Disposition::Step;
    }
    if action == STATE_UNWIND_FRAME_RESUME {
        return Disposition::Step;
    }
    if action != STATE_VIRTUAL_UNWIND_FRAME && action != STATE_UNWIND_FRAME_STARTING {
        return Disposition::Failure;
    }
    match decode {
        Err(_) => Disposition::Failure,
        Ok(act) => {
            if action == STATE_VIRTUAL_UNWIND_FRAME {
                match act {
                    EhAction::NoAction | EhAction::Cleanup(_) => Disposition::Step,
                    EhAction::Catch(_) | EhAction::Filter(_) => Disposition::HandlerFound,
                    EhAction::Terminate => Disposition::Failure,
                }
            } else {
                match act {
                    EhAction::NoAction => Disposition::Step,
                    EhAction::Filter(_) if state & STATE_FORCE_UNWIND != 0 => Disposition::Step,
                    EhAction::Cleanup(_) | EhAction::Catch(_) | EhAction::Filter(_) => {
                        Disposition::InstallContext
                    },
                    EhAction::Terminate => Disposition::Failure,
                }
            }
        },
    }
}

/// The personality routine's decision core, called once per candidate
/// frame during each unwinding pass.
///
/// `state` is the state word the unwinder passed in; `exc_addr` is the
/// exception object's address as the data registers will carry it;
/// `decode` is what the frame's LSDA decodes to; `step` is what the native
/// one-frame unwind step reports for this frame (consulted only on the
/// paths that take that step; the step's own register effects are the
/// unwinder's, applied after this routine returns).
pub fn personality(
    state: u32,
    exc_addr: u32,
    decode: Result<EhAction, LsdaError>,
    step: ReasonCode,
    exc: &mut ExceptionObject,
    regs: &mut Registers,
) -> (r: ReasonCode)
    ensures
        r == reported_code(personality_decision(state, decode), step),
        // Before the dispatch point nothing is touched.
        !reaches_dispatch(state) ==> *final(regs) == *old(regs) && *final(exc) == *old(exc),
        // From the dispatch point on, the exception object's address is
        // stashed in the scratch register.
        reaches_dispatch(state) && personality_decision(state, decode) != Disposition::InstallContext
            ==> only_stash_written(*old(regs), *final(regs), exc_addr),
        reaches_dispatch(state) && personality_decision(state, decode) == Disposition::InstallContext
            ==> install_written(*old(regs), *final(regs), exc_addr, lpad_of(decode->Ok_0)),
        // Only a search-phase handler report touches the exception object:
        // it records the frame's stack pointer in the barrier cache.
        personality_decision(state, decode) == Disposition::HandlerFound ==> (*final(exc)
            == (ExceptionObject {
            barrier_cache_sp: old(regs).reg(SP_REG as int),
            ..*old(exc)
        })),
        personality_decision(state, decode) != Disposition::HandlerFound ==> *final(exc) == *old(
            exc,
        ),
{
    let action = state & STATE_ACTION_MASK;
    let search_phase: bool;
    if action == STATE_VIRTUAL_UNWIND_FRAME {
        // Backtrace probes arrive as a search-phase state with the
        // force-unwind flag set; they step past every frame.
        if state & STATE_FORCE_UNWIND != 0 {
            return step_outcome(step);
        }
        search_phase = true;
    } else if action == STATE_UNWIND_FRAME_STARTING {
        search_phase = false;
    } else if action == STATE_UNWIND_FRAME_RESUME {
        return step_outcome(step);
    } else {
        return ReasonCode::Failure;
    }
    // The LSDA decode logic expects the exception object's address in the
    // context's scratch register, because this ABI keeps the function and
    // LSDA pointers inside the exception object.
    regs.set_gr(POINTER_REG, exc_addr);
    let eh_action = match decode {
        Ok(a) => a,
        Err(_) => {
            return ReasonCode::Failure;
        },
    };
    if search_phase {
        match eh_action {
            EhAction::NoAction | EhAction::Cleanup(_) => step_outcome(step),
            EhAction::Catch(_) | EhAction::Filter(_) => {
                // The cleanup phase stops probing at the frame whose stack
                // pointer the barrier cache records.
                exc.barrier_cache_sp = regs.get_gr(SP_REG);
                ReasonCode::HandlerFound
            },
            EhAction::Terminate => ReasonCode::Failure,
        }
    } else {
        match eh_action {
            EhAction::NoAction => step_outcome(step),
            EhAction::Filter(_) if state & STATE_FORCE_UNWIND != 0 => step_outcome(step),
            EhAction::Cleanup(lpad) | EhAction::Catch(lpad) | EhAction::Filter(lpad) => {
                regs.set_gr(DATA_REG_0, exc_addr);
                regs.set_gr(DATA_REG_1, 0);
                regs.set_ip(lpad);
                ReasonCode::InstallContext
            },
            EhAction::Terminate => ReasonCode::Failure,
        }
    }
}

} // verus!
