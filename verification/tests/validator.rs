use r8169_firmware::action::{Action, RtlFwOpCode};
use r8169_firmware::container::{rtl_fw_format_ok, RtlFwPhyAction};
use r8169_firmware::validator::{check_action, rtl_fw_data_ok, ActionFault, ValidationError};

fn word(opcode: RtlFwOpCode, regno: u16, data: u16) -> u32 {
    Action { opcode, regno, data }.encode()
}

fn modern(words: &[u32]) -> Vec<u8> {
    let mut bytes = Vec::new();
    for w in words {
        bytes.extend_from_slice(&w.to_le_bytes());
    }
    bytes
}

fn validate(words: &[u32]) -> Result<(), ValidationError> {
    let data = modern(words);
    let pa = RtlFwPhyAction { start: 0, size: words.len() };
    assert!(pa.fits(data.len()));
    rtl_fw_data_ok(&data, &pa)
}

fn out_of_range(index: usize, action: u32) -> Result<(), ValidationError> {
    Err(ValidationError { index, action, fault: ActionFault::OutOfRange })
}

fn invalid(index: usize, action: u32) -> Result<(), ValidationError> {
    Err(ValidationError { index, action, fault: ActionFault::InvalidOpcode })
}

#[test]
fn empty_program_is_valid() {
    assert_eq!(validate(&[]), Ok(()));
}

#[test]
fn operations_without_a_rule_pass_anywhere() {
    let words = [
        word(RtlFwOpCode::PhyRead, 0xfff, 0xffff),
        word(RtlFwOpCode::PhyDataOr, 0xfff, 0xffff),
        word(RtlFwOpCode::PhyDataAnd, 0xfff, 0xffff),
        word(RtlFwOpCode::PhyClearReadCount, 0xfff, 0xffff),
        word(RtlFwOpCode::PhyWrite, 0xfff, 0xffff),
        word(RtlFwOpCode::PhyWritePrevious, 0xfff, 0xffff),
        word(RtlFwOpCode::PhyDelayMs, 0xfff, 0xffff),
    ];
    assert_eq!(validate(&words), Ok(()));
    for w in words {
        assert_eq!(validate(&[w]), Ok(()));
    }
}

#[test]
fn unassigned_nibbles_five_and_six_are_refused() {
    for rest in [0u32, 0x0fff_ffff, 0x0000_0001, 0x0abc_def0] {
        let w5 = 0x5000_0000 | rest;
        let w6 = 0x6000_0000 | rest;
        assert_eq!(validate(&[w5]), invalid(0, w5));
        assert_eq!(validate(&[w6]), invalid(0, w6));
        let read = word(RtlFwOpCode::PhyRead, 1, 0);
        assert_eq!(validate(&[read, read, w5, read]), invalid(2, w5));
        assert_eq!(validate(&[read, w6]), invalid(1, w6));
    }
}

#[test]
fn undefined_opcode_is_refused() {
    assert_eq!(validate(&[0xf000_0000]), invalid(0, 0xf000_0000));
    assert_eq!(validate(&[0xf123_4567]), invalid(0, 0xf123_4567));
}

#[test]
fn compare_skip_past_the_end_is_refused() {
    let skip = word(RtlFwOpCode::PhyCompEqSkipn, 5, 7);
    let read = word(RtlFwOpCode::PhyRead, 1, 0);
    assert_eq!(validate(&[skip, read, read]), out_of_range(0, skip));
}

#[test]
fn mdio_change_takes_zero_or_one() {
    assert_eq!(validate(&[word(RtlFwOpCode::PhyMdioChg, 0, 0)]), Ok(()));
    assert_eq!(validate(&[word(RtlFwOpCode::PhyMdioChg, 0xfff, 1)]), Ok(()));
    let two = word(RtlFwOpCode::PhyMdioChg, 0, 2);
    assert_eq!(validate(&[two]), out_of_range(0, two));
    let big = word(RtlFwOpCode::PhyMdioChg, 0, 0xffff);
    assert_eq!(validate(&[big]), out_of_range(0, big));
}

#[test]
fn branch_back_may_reach_the_start_but_not_pass_it() {
    let read = word(RtlFwOpCode::PhyRead, 1, 0);
    assert_eq!(validate(&[word(RtlFwOpCode::PhyBjmpn, 0, 0)]), Ok(()));
    assert_eq!(validate(&[read, read, word(RtlFwOpCode::PhyBjmpn, 2, 0)]), Ok(()));
    let far = word(RtlFwOpCode::PhyBjmpn, 3, 0);
    assert_eq!(validate(&[read, read, far]), out_of_range(2, far));
    let one = word(RtlFwOpCode::PhyBjmpn, 1, 0);
    assert_eq!(validate(&[one, read]), out_of_range(0, one));
}

#[test]
fn read_count_skip_needs_two_words_behind() {
    let skip = word(RtlFwOpCode::PhyReadcountEqSkip, 0, 3);
    let read = word(RtlFwOpCode::PhyRead, 1, 0);
    assert_eq!(validate(&[skip, read, read]), Ok(()));
    assert_eq!(validate(&[skip, read]), out_of_range(0, skip));
    assert_eq!(validate(&[skip]), out_of_range(0, skip));
    assert_eq!(validate(&[read, skip, read]), out_of_range(1, skip));
    assert_eq!(validate(&[read, skip, read, read]), Ok(()));
}

#[test]
fn skip_n_must_land_inside() {
    let read = word(RtlFwOpCode::PhyRead, 1, 0);
    for op in [
        RtlFwOpCode::PhyCompEqSkipn,
        RtlFwOpCode::PhyCompNeqSkipn,
        RtlFwOpCode::PhySkipn,
    ] {
        // index 0, three words: 0 + 1 + regno < 3 allows regno 0 and 1.
        assert_eq!(validate(&[word(op, 0, 9), read, read]), Ok(()));
        assert_eq!(validate(&[word(op, 1, 9), read, read]), Ok(()));
        let two = word(op, 2, 9);
        assert_eq!(validate(&[two, read, read]), out_of_range(0, two));
        // The last word cannot even skip by nothing.
        let zero = word(op, 0, 9);
        assert_eq!(validate(&[read, zero]), out_of_range(1, zero));
        let max = word(op, 0xfff, 9);
        assert_eq!(validate(&[max, read]), out_of_range(0, max));
    }
}

#[test]
fn the_first_refused_word_is_reported() {
    let read = word(RtlFwOpCode::PhyRead, 1, 0);
    let bad_mdio = word(RtlFwOpCode::PhyMdioChg, 0, 2);
    assert_eq!(
        validate(&[read, bad_mdio, 0x5000_0000, 0xf000_0000]),
        out_of_range(1, bad_mdio)
    );
    assert_eq!(
        validate(&[read, 0x6000_0001, bad_mdio]),
        invalid(1, 0x6000_0001)
    );
}

#[test]
fn validation_gives_the_same_verdict_twice() {
    let read = word(RtlFwOpCode::PhyRead, 1, 0);
    let good = modern(&[read, word(RtlFwOpCode::PhyWrite, 2, 3)]);
    let bad = modern(&[read, 0x5123_4567, 0x6000_0000]);
    for data in [good, bad] {
        let pa = rtl_fw_format_ok(&data, b"fw").unwrap().phy_action;
        let first = rtl_fw_data_ok(&data, &pa);
        let second = rtl_fw_data_ok(&data, &pa);
        assert_eq!(first, second);
    }
}

#[test]
fn validation_reads_the_array_where_the_layout_says() {
    // Four bytes of an unassigned opcode in front of the array are not looked at.
    let mut data = vec![0x00, 0x00, 0x00, 0x50];
    data.extend_from_slice(&modern(&[word(RtlFwOpCode::PhyRead, 1, 0)]));
    let pa = RtlFwPhyAction { start: 4, size: 1 };
    assert_eq!(rtl_fw_data_ok(&data, &pa), Ok(()));
    let pa = RtlFwPhyAction { start: 0, size: 2 };
    assert_eq!(rtl_fw_data_ok(&data, &pa), invalid(0, 0x5000_0000));
}

#[test]
fn check_action_judges_one_word_at_its_place() {
    let skip = word(RtlFwOpCode::PhySkipn, 3, 0);
    assert_eq!(check_action(skip, 0, 5), None);
    assert_eq!(check_action(skip, 1, 5), Some(ActionFault::OutOfRange));
    assert_eq!(check_action(skip, 0, usize::MAX), None);
    assert_eq!(check_action(0x5000_0000, 0, 1), Some(ActionFault::InvalidOpcode));
    let back = word(RtlFwOpCode::PhyBjmpn, 4, 0);
    assert_eq!(check_action(back, 4, 5), None);
    assert_eq!(check_action(back, 3, 5), Some(ActionFault::OutOfRange));
    assert_eq!(check_action(back, usize::MAX - 1, usize::MAX), None);
}
