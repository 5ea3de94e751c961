//! The personality routine's frame decisions, register effects, and the
//! instruction-pointer accessors.

use pros::unwind::{
    decide, dispatch_reached, frame_eh_context, personality, step_outcome, Disposition, EhAction,
    ExceptionObject, LsdaError, ReasonCode, Registers, STATE_FORCE_UNWIND,
    STATE_UNWIND_FRAME_RESUME, STATE_UNWIND_FRAME_STARTING, STATE_VIRTUAL_UNWIND_FRAME,
};

fn fresh_regs() -> Registers {
    let mut r = Registers { core: [0u32; 16] };
    r.core[13] = 0x7000_0000;
    r.core[15] = 0x0000_4001; // thumb-mode return address
    r
}

fn fresh_exc() -> ExceptionObject {
    ExceptionObject { exception_class: 0x4d4f_5a00_5255_5354, barrier_cache_sp: 0 }
}

#[test]
fn search_phase_cleanup_continues() {
    let mut exc = fresh_exc();
    let mut regs = fresh_regs();
    let r = personality(
        STATE_VIRTUAL_UNWIND_FRAME,
        0x1234,
        Ok(EhAction::Cleanup(0x2000)),
        ReasonCode::NoReason,
        &mut exc,
        &mut regs,
    );
    // Never "handler found" for a cleanup-only frame in the search phase.
    assert_eq!(r, ReasonCode::ContinueUnwind);
    // The exception object's address was stashed for the decode logic.
    assert_eq!(regs.core[12], 0x1234);
    assert_eq!(exc.barrier_cache_sp, 0);
}

#[test]
fn search_phase_cleanup_fails_if_the_step_fails() {
    let mut exc = fresh_exc();
    let mut regs = fresh_regs();
    let r = personality(
        STATE_VIRTUAL_UNWIND_FRAME,
        0x1234,
        Ok(EhAction::Cleanup(0x2000)),
        ReasonCode::EndOfStack,
        &mut exc,
        &mut regs,
    );
    assert_eq!(r, ReasonCode::Failure);
}

#[test]
fn search_phase_catch_reports_handler_and_records_sp() {
    let mut exc = fresh_exc();
    let mut regs = fresh_regs();
    let r = personality(
        STATE_VIRTUAL_UNWIND_FRAME,
        0x1234,
        Ok(EhAction::Catch(0x2000)),
        ReasonCode::NoReason,
        &mut exc,
        &mut regs,
    );
    assert_eq!(r, ReasonCode::HandlerFound);
    // The barrier cache pins the frame where phase two stops probing.
    assert_eq!(exc.barrier_cache_sp, 0x7000_0000);
}

#[test]
fn cleanup_phase_catch_installs_with_mode_bit() {
    let mut exc = fresh_exc();
    let mut regs = fresh_regs();
    let r = personality(
        STATE_UNWIND_FRAME_STARTING,
        0x1234,
        Ok(EhAction::Catch(0x2000)),
        ReasonCode::NoReason,
        &mut exc,
        &mut regs,
    );
    assert_eq!(r, ReasonCode::InstallContext);
    assert_eq!(regs.core[0], 0x1234);
    assert_eq!(regs.core[1], 0);
    // Landing pad exactly, with the original thumb bit preserved.
    assert_eq!(regs.core[15], 0x2001);
    assert_eq!(exc.barrier_cache_sp, 0);
}

#[test]
fn cleanup_phase_filter_installs_when_not_forced() {
    let mut exc = fresh_exc();
    let mut regs = fresh_regs();
    let r = personality(
        STATE_UNWIND_FRAME_STARTING,
        0x1234,
        Ok(EhAction::Filter(0x3000)),
        ReasonCode::NoReason,
        &mut exc,
        &mut regs,
    );
    assert_eq!(r, ReasonCode::InstallContext);
    assert_eq!(regs.core[15], 0x3001);
}

#[test]
fn forced_unwind_skips_filters_in_cleanup_phase() {
    let mut exc = fresh_exc();
    let mut regs = fresh_regs();
    let r = personality(
        STATE_UNWIND_FRAME_STARTING | STATE_FORCE_UNWIND,
        0x1234,
        Ok(EhAction::Filter(0x3000)),
        ReasonCode::NoReason,
        &mut exc,
        &mut regs,
    );
    // Continue, not install: filters are skipped during forced unwinding.
    assert_eq!(r, ReasonCode::ContinueUnwind);
    assert_eq!(regs.core[0], 0);
    assert_eq!(regs.core[15], 0x0000_4001);
}

#[test]
fn backtrace_probe_steps_without_consulting_the_table() {
    let mut exc = fresh_exc();
    let mut regs = fresh_regs();
    let r = personality(
        STATE_VIRTUAL_UNWIND_FRAME | STATE_FORCE_UNWIND,
        0x1234,
        Ok(EhAction::Terminate),
        ReasonCode::NoReason,
        &mut exc,
        &mut regs,
    );
    assert_eq!(r, ReasonCode::ContinueUnwind);
    // No stash happened: the table was never consulted.
    assert_eq!(regs.core[12], 0);
}

#[test]
fn resume_steps_past_the_frame() {
    let mut exc = fresh_exc();
    let mut regs = fresh_regs();
    let r = personality(
        STATE_UNWIND_FRAME_RESUME,
        0x1234,
        Err(LsdaError),
        ReasonCode::NoReason,
        &mut exc,
        &mut regs,
    );
    assert_eq!(r, ReasonCode::ContinueUnwind);
    assert_eq!(regs.core[12], 0);
}

#[test]
fn undefined_state_fails() {
    let mut exc = fresh_exc();
    let mut regs = fresh_regs();
    let r = personality(3, 0x1234, Ok(EhAction::NoAction), ReasonCode::NoReason, &mut exc, &mut regs);
    assert_eq!(r, ReasonCode::Failure);
}

#[test]
fn decode_errors_are_fatal() {
    let mut exc = fresh_exc();
    let mut regs = fresh_regs();
    let r = personality(
        STATE_UNWIND_FRAME_STARTING,
        0x1234,
        Err(LsdaError),
        ReasonCode::NoReason,
        &mut exc,
        &mut regs,
    );
    assert_eq!(r, ReasonCode::Failure);
}

#[test]
fn terminate_fails_in_both_phases() {
    for state in [STATE_VIRTUAL_UNWIND_FRAME, STATE_UNWIND_FRAME_STARTING] {
        let mut exc = fresh_exc();
        let mut regs = fresh_regs();
        let r = personality(
            state,
            0x1234,
            Ok(EhAction::Terminate),
            ReasonCode::NoReason,
            &mut exc,
            &mut regs,
        );
        assert_eq!(r, ReasonCode::Failure);
    }
}

#[test]
fn search_phase_filter_also_reports_handler() {
    let mut exc = fresh_exc();
    let mut regs = fresh_regs();
    let r = personality(
        STATE_VIRTUAL_UNWIND_FRAME,
        0x1234,
        Ok(EhAction::Filter(0x2000)),
        ReasonCode::NoReason,
        &mut exc,
        &mut regs,
    );
    assert_eq!(r, ReasonCode::HandlerFound);
    assert_eq!(exc.barrier_cache_sp, 0x7000_0000);
}

#[test]
fn cleanup_phase_no_action_steps_with_only_the_stash() {
    let mut exc = fresh_exc();
    let mut regs = fresh_regs();
    let r = personality(
        STATE_UNWIND_FRAME_STARTING,
        0x1234,
        Ok(EhAction::NoAction),
        ReasonCode::NoReason,
        &mut exc,
        &mut regs,
    );
    assert_eq!(r, ReasonCode::ContinueUnwind);
    assert_eq!(regs.core[12], 0x1234);
    assert_eq!(regs.core[0], 0);
    assert_eq!(regs.core[1], 0);
    assert_eq!(regs.core[13], 0x7000_0000);
    assert_eq!(regs.core[15], 0x0000_4001);
}

#[test]
fn cleanup_phase_cleanup_installs_its_pad() {
    let mut exc = fresh_exc();
    let mut regs = fresh_regs();
    let r = personality(
        STATE_UNWIND_FRAME_STARTING,
        0x1234,
        Ok(EhAction::Cleanup(0x6000)),
        ReasonCode::NoReason,
        &mut exc,
        &mut regs,
    );
    assert_eq!(r, ReasonCode::InstallContext);
    assert_eq!(regs.core[15], 0x6001);
}

#[test]
fn decide_and_dispatch_mirror_the_routine() {
    assert!(dispatch_reached(STATE_VIRTUAL_UNWIND_FRAME));
    assert!(dispatch_reached(STATE_UNWIND_FRAME_STARTING));
    assert!(!dispatch_reached(STATE_VIRTUAL_UNWIND_FRAME | STATE_FORCE_UNWIND));
    assert!(!dispatch_reached(STATE_UNWIND_FRAME_RESUME));

    assert_eq!(
        decide(STATE_VIRTUAL_UNWIND_FRAME, Ok(EhAction::Cleanup(0x10))),
        Disposition::Step
    );
    assert_eq!(
        decide(STATE_VIRTUAL_UNWIND_FRAME, Ok(EhAction::Catch(0x10))),
        Disposition::HandlerFound
    );
    assert_eq!(
        decide(STATE_UNWIND_FRAME_STARTING, Ok(EhAction::Catch(0x10))),
        Disposition::InstallContext
    );
    assert_eq!(
        decide(STATE_UNWIND_FRAME_STARTING | STATE_FORCE_UNWIND, Ok(EhAction::Filter(0x10))),
        Disposition::Step
    );
    assert_eq!(decide(3, Ok(EhAction::NoAction)), Disposition::Failure);
    assert_eq!(decide(STATE_UNWIND_FRAME_STARTING, Err(LsdaError)), Disposition::Failure);
}

#[test]
fn step_outcome_translates_the_native_report() {
    assert_eq!(step_outcome(ReasonCode::NoReason), ReasonCode::ContinueUnwind);
    assert_eq!(step_outcome(ReasonCode::EndOfStack), ReasonCode::Failure);
    assert_eq!(step_outcome(ReasonCode::FatalPhase2Error), ReasonCode::Failure);
}

#[test]
fn ip_accessors_mask_and_propagate_the_mode_bit() {
    let mut regs = fresh_regs();
    assert_eq!(regs.get_ip(), 0x4000);
    let (ip, before) = regs.get_ip_info();
    assert_eq!(ip, 0x4000);
    assert_eq!(before, 0);
    regs.set_ip(0x2000);
    assert_eq!(regs.core[15], 0x2001);
    regs.core[15] = 0x2000;
    regs.set_ip(0x5000);
    assert_eq!(regs.core[15], 0x5000);
}

#[test]
fn frame_context_steps_back_into_the_call_range() {
    let mut regs = fresh_regs();
    regs.core[15] = 0x0000_0500;
    let ctx = frame_eh_context(&regs, 0x400);
    assert_eq!(ctx.ip, 0x4FF);
    assert_eq!(ctx.func_start, 0x400);

    // An all-ones probe address has a reserved meaning; the adjustment
    // wraps rather than underflows.
    regs.core[15] = 0;
    let ctx = frame_eh_context(&regs, 0);
    assert_eq!(ctx.ip, u32::MAX);
}
