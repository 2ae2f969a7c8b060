use probe_run::registers::{CfaRule, RegisterRule, Registers, REG_LR, REG_SP};
use probe_run::run::{halt_poll_done, rtt_attach_decision, AttachDecision, AttachEvent};
use probe_run::stacked::{apply_exception_entry, Stacked};
use probe_run::unwind::UnwindError;

#[test]
fn cache_seeds_lr_and_sp() {
    let regs = Registers::new(0x0800_0201, 0x2000_7F00);
    assert_eq!(regs.get_cached(REG_LR), Some(0x0800_0201));
    assert_eq!(regs.get_cached(REG_SP), Some(0x2000_7F00));
    assert_eq!(regs.get_cached(0), None);
}

#[test]
fn cache_insert_overwrites() {
    let mut regs = Registers::new(1, 2);
    regs.insert(7, 0xAB);
    assert_eq!(regs.get_cached(7), Some(0xAB));
    regs.insert(7, 0xCD);
    assert_eq!(regs.get_cached(7), Some(0xCD));
}

#[test]
fn cfa_update_moves_sp() {
    let mut regs = Registers::new(0x0800_0201, 0x2000_7F00);
    // New CFA is SP + 32: the frame moved.
    let changed = regs
        .update_cfa(&CfaRule::RegisterAndOffset { register: REG_SP, offset: 32 })
        .unwrap();
    assert!(changed);
    assert_eq!(regs.get_cached(REG_SP), Some(0x2000_7F20));
    // Applying a rule that yields the same CFA reports no movement.
    let changed = regs
        .update_cfa(&CfaRule::RegisterAndOffset { register: REG_SP, offset: 0 })
        .unwrap();
    assert!(!changed);
    assert_eq!(regs.get_cached(REG_SP), Some(0x2000_7F20));
}

#[test]
fn cfa_update_handles_negative_offsets() {
    let mut regs = Registers::new(0, 0x2000_0010);
    let changed = regs
        .update_cfa(&CfaRule::RegisterAndOffset { register: REG_SP, offset: -16 })
        .unwrap();
    assert!(changed);
    assert_eq!(regs.get_cached(REG_SP), Some(0x2000_0000));
}

#[test]
fn cfa_expression_rule_is_rejected() {
    let mut regs = Registers::new(1, 2);
    assert_eq!(
        regs.update_cfa(&CfaRule::Expression),
        Err(UnwindError::UnsupportedUnwindRule)
    );
    // The cache is untouched.
    assert_eq!(regs.get_cached(REG_SP), Some(2));
}

#[test]
fn restore_addr_is_cfa_plus_offset() {
    let regs = Registers::new(0, 0x2000_7F00);
    assert_eq!(regs.restore_addr(&RegisterRule::Offset(-4)), Ok(0x2000_7EFC));
    assert_eq!(regs.restore_addr(&RegisterRule::Offset(8)), Ok(0x2000_7F08));
    assert_eq!(
        regs.restore_addr(&RegisterRule::Unsupported),
        Err(UnwindError::UnsupportedUnwindRule)
    );
}

#[test]
fn exception_entry_restores_caller_state() {
    let mut regs = Registers::new(0xFFFF_FFF9, 0x2000_7F00);
    let words: Vec<u32> = vec![0, 1, 2, 3, 12, 0x0800_0301, 0x0800_0400, 0x0100_0000];
    let stacked = Stacked::from_words(&words, false);
    let new_pc = apply_exception_entry(&mut regs, &stacked, 0x2000_7F00);
    assert_eq!(new_pc, 0x0800_0400);
    assert_eq!(regs.get_cached(REG_LR), Some(0x0800_0301));
    // SP advances past the 8 stacked words.
    assert_eq!(regs.get_cached(REG_SP), Some(0x2000_7F20));
}

#[test]
fn rtt_attach_retries_until_budget_is_spent() {
    assert_eq!(rtt_attach_decision(0, AttachEvent::Attached), AttachDecision::Proceed);
    assert_eq!(rtt_attach_decision(0, AttachEvent::ControlBlockNotFound), AttachDecision::Retry);
    assert_eq!(rtt_attach_decision(9, AttachEvent::ControlBlockNotFound), AttachDecision::Retry);
    assert_eq!(
        rtt_attach_decision(10, AttachEvent::ControlBlockNotFound),
        AttachDecision::FailRetriesExceeded
    );
    assert_eq!(rtt_attach_decision(0, AttachEvent::OtherError), AttachDecision::FailOther);
}

#[test]
fn halt_poll_needs_two_consecutive_halts() {
    assert!(!halt_poll_done(false, false));
    assert!(!halt_poll_done(false, true));
    assert!(!halt_poll_done(true, false));
    assert!(halt_poll_done(true, true));
}

#[test]
fn poll_loop_drains_one_more_batch() {
    // The device first reports halted on the third poll; the loop makes one
    // more pass (draining the last log bytes) before it stops.
    let polls = [false, false, true, true, true];
    let mut was_halted = false;
    let mut stopped_at = None;
    for (i, &is_halted) in polls.iter().enumerate() {
        if halt_poll_done(was_halted, is_halted) {
            stopped_at = Some(i);
            break;
        }
        was_halted = is_halted;
    }
    assert_eq!(stopped_at, Some(3));
}
