use r8169_firmware::action::{Action, RtlFwOpCode};
use r8169_firmware::engine::{access, advance, RtlFwAccess, RtlFwState, RtlFwTarget};

fn act(opcode: RtlFwOpCode, regno: u16, data: u16) -> Action {
    Action { opcode, regno, data }
}

fn state(index: usize, predata: i32, count: i32, target: RtlFwTarget) -> RtlFwState {
    RtlFwState { index, predata, count, target }
}

fn after(a: Action, st: RtlFwState, size: usize, read: i32) -> RtlFwState {
    let mut st = st;
    advance(a, &mut st, size, read);
    st
}

#[test]
fn a_run_starts_at_the_first_action_on_the_phy() {
    assert_eq!(RtlFwState::new(), state(0, 0, 0, RtlFwTarget::Phy));
}

#[test]
fn read_asks_the_active_space_and_fills_the_accumulator() {
    let a = act(RtlFwOpCode::PhyRead, 0x1f, 0);
    let st = state(2, 5, 7, RtlFwTarget::Phy);
    assert_eq!(
        access(a, &st),
        RtlFwAccess::Read { target: RtlFwTarget::Phy, regno: 0x1f }
    );
    assert_eq!(after(a, st, 10, -3), state(3, -3, 8, RtlFwTarget::Phy));
    let st = state(2, 5, 7, RtlFwTarget::MacMcu);
    assert_eq!(
        access(a, &st),
        RtlFwAccess::Read { target: RtlFwTarget::MacMcu, regno: 0x1f }
    );
    assert_eq!(after(a, st, 10, 0x1_0000), state(3, 0x1_0000, 8, RtlFwTarget::MacMcu));
}

#[test]
fn read_counter_wraps_behind_the_largest_value() {
    let a = act(RtlFwOpCode::PhyRead, 1, 0);
    let st = state(0, 0, i32::MAX, RtlFwTarget::Phy);
    assert_eq!(after(a, st, 1, 4), state(1, 4, i32::MIN, RtlFwTarget::Phy));
    let st = state(0, 0, -1, RtlFwTarget::Phy);
    assert_eq!(after(a, st, 1, 4).count, 0);
}

#[test]
fn or_and_and_mask_the_accumulator() {
    let st = state(0, 0x0f0f_00f0, 0, RtlFwTarget::Phy);
    let or = act(RtlFwOpCode::PhyDataOr, 0xfff, 0x8001);
    assert_eq!(access(or, &st), RtlFwAccess::Idle);
    assert_eq!(after(or, st, 2, 99), state(1, 0x0f0f_80f1, 0, RtlFwTarget::Phy));
    let and = act(RtlFwOpCode::PhyDataAnd, 0xfff, 0x00ff);
    assert_eq!(access(and, &st), RtlFwAccess::Idle);
    assert_eq!(after(and, st, 2, 99), state(1, 0x0000_00f0, 0, RtlFwTarget::Phy));
    // The immediate is 16 bits wide and not sign-extended.
    let st = state(0, -1, 0, RtlFwTarget::Phy);
    let and = act(RtlFwOpCode::PhyDataAnd, 0, 0xffff);
    assert_eq!(after(and, st, 2, 0).predata, 0xffff);
}

#[test]
fn branch_back_moves_by_its_register_field() {
    let st = state(5, 1, 2, RtlFwTarget::MacMcu);
    let back = act(RtlFwOpCode::PhyBjmpn, 3, 0xffff);
    assert_eq!(access(back, &st), RtlFwAccess::Idle);
    assert_eq!(after(back, st, 6, 0), state(2, 1, 2, RtlFwTarget::MacMcu));
    let back = act(RtlFwOpCode::PhyBjmpn, 5, 0);
    assert_eq!(after(back, st, 6, 0).index, 0);
    let back = act(RtlFwOpCode::PhyBjmpn, 0, 0);
    assert_eq!(after(back, st, 6, 0).index, 5);
}

#[test]
fn mdio_change_selects_the_register_space() {
    let st = state(0, 1, 2, RtlFwTarget::Phy);
    let to_mac = act(RtlFwOpCode::PhyMdioChg, 0, 1);
    assert_eq!(access(to_mac, &st), RtlFwAccess::Idle);
    assert_eq!(after(to_mac, st, 2, 0), state(1, 1, 2, RtlFwTarget::MacMcu));
    let st = state(0, 1, 2, RtlFwTarget::MacMcu);
    assert_eq!(after(to_mac, st, 2, 0).target, RtlFwTarget::MacMcu);
    let to_phy = act(RtlFwOpCode::PhyMdioChg, 0, 0);
    assert_eq!(after(to_phy, st, 2, 0), state(1, 1, 2, RtlFwTarget::Phy));
}

#[test]
fn clear_read_count_zeroes_the_counter() {
    let st = state(3, 9, 41, RtlFwTarget::Phy);
    let a = act(RtlFwOpCode::PhyClearReadCount, 0, 0);
    assert_eq!(access(a, &st), RtlFwAccess::Idle);
    assert_eq!(after(a, st, 4, 0), state(4, 9, 0, RtlFwTarget::Phy));
}

#[test]
fn write_sends_the_immediate() {
    let st = state(0, 77, 0, RtlFwTarget::Phy);
    let a = act(RtlFwOpCode::PhyWrite, 0x10, 0xffff);
    assert_eq!(
        access(a, &st),
        RtlFwAccess::Write { target: RtlFwTarget::Phy, regno: 0x10, value: 0xffff }
    );
    assert_eq!(after(a, st, 1, 5), state(1, 77, 0, RtlFwTarget::Phy));
}

#[test]
fn write_previous_sends_the_accumulator() {
    let st = state(0, -77, 0, RtlFwTarget::MacMcu);
    let a = act(RtlFwOpCode::PhyWritePrevious, 0x10, 0x1234);
    assert_eq!(
        access(a, &st),
        RtlFwAccess::Write { target: RtlFwTarget::MacMcu, regno: 0x10, value: -77 }
    );
    assert_eq!(after(a, st, 1, 5), state(1, -77, 0, RtlFwTarget::MacMcu));
}

#[test]
fn read_count_skip_skips_one_word_on_a_match() {
    let a = act(RtlFwOpCode::PhyReadcountEqSkip, 0xfff, 3);
    let st = state(1, 0, 3, RtlFwTarget::Phy);
    assert_eq!(access(a, &st), RtlFwAccess::Idle);
    assert_eq!(after(a, st, 4, 0), state(3, 0, 3, RtlFwTarget::Phy));
    let st = state(1, 3, 2, RtlFwTarget::Phy);
    assert_eq!(after(a, st, 4, 0), state(2, 3, 2, RtlFwTarget::Phy));
}

#[test]
fn compare_equal_skips_by_its_register_field_on_a_match() {
    let a = act(RtlFwOpCode::PhyCompEqSkipn, 2, 7);
    let st = state(1, 7, 0, RtlFwTarget::Phy);
    assert_eq!(access(a, &st), RtlFwAccess::Idle);
    assert_eq!(after(a, st, 5, 0), state(4, 7, 0, RtlFwTarget::Phy));
    let st = state(1, 8, 0, RtlFwTarget::Phy);
    assert_eq!(after(a, st, 5, 0), state(2, 8, 0, RtlFwTarget::Phy));
    // A negative accumulator never equals a 16-bit immediate.
    let a = act(RtlFwOpCode::PhyCompEqSkipn, 2, 0xffff);
    let st = state(1, -1, 0, RtlFwTarget::Phy);
    assert_eq!(after(a, st, 5, 0).index, 2);
}

#[test]
fn compare_not_equal_skips_by_its_register_field_on_a_mismatch() {
    let a = act(RtlFwOpCode::PhyCompNeqSkipn, 2, 7);
    let st = state(1, 8, 0, RtlFwTarget::Phy);
    assert_eq!(access(a, &st), RtlFwAccess::Idle);
    assert_eq!(after(a, st, 5, 0), state(4, 8, 0, RtlFwTarget::Phy));
    let st = state(1, 7, 0, RtlFwTarget::Phy);
    assert_eq!(after(a, st, 5, 0), state(2, 7, 0, RtlFwTarget::Phy));
}

#[test]
fn skip_n_always_skips() {
    let a = act(RtlFwOpCode::PhySkipn, 3, 0);
    let st = state(0, 1, 2, RtlFwTarget::Phy);
    assert_eq!(access(a, &st), RtlFwAccess::Idle);
    assert_eq!(after(a, st, 5, 0), state(4, 1, 2, RtlFwTarget::Phy));
    let a = act(RtlFwOpCode::PhySkipn, 0, 0);
    assert_eq!(after(a, st, 5, 0).index, 1);
}

#[test]
fn delay_asks_for_its_immediate_in_milliseconds() {
    let a = act(RtlFwOpCode::PhyDelayMs, 0xfff, 0xffff);
    let st = state(0, 1, 2, RtlFwTarget::Phy);
    assert_eq!(access(a, &st), RtlFwAccess::DelayMs { ms: 65535 });
    assert_eq!(after(a, st, 1, 9), state(1, 1, 2, RtlFwTarget::Phy));
}
