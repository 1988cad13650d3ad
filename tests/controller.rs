use ferocios::pic::{
    check_bases, Controller, ControllerError, PortWrite, CMD_END_OF_INTERRUPT, PRIMARY_COMMAND,
    PRIMARY_DATA, SECONDARY_COMMAND, SECONDARY_DATA, WAIT_PORT,
};

fn eoi(port: u16) -> PortWrite {
    PortWrite { port, value: CMD_END_OF_INTERRUPT }
}

#[test]
fn acknowledge_primary_base_writes_primary_only() {
    let pics = Controller::new(32, 40);
    assert_eq!(pics.acknowledge(32), vec![eoi(0x20)]);
}

#[test]
fn acknowledge_secondary_base_writes_secondary_then_primary() {
    let pics = Controller::new(32, 40);
    assert_eq!(pics.acknowledge(40), vec![eoi(0xA0), eoi(0x20)]);
}

#[test]
fn acknowledge_covers_both_ranges() {
    let pics = Controller::new(32, 40);
    assert_eq!(pics.acknowledge(39), vec![eoi(PRIMARY_COMMAND)]);
    assert_eq!(pics.acknowledge(47), vec![eoi(SECONDARY_COMMAND), eoi(PRIMARY_COMMAND)]);
    assert_eq!(pics.acknowledge(31), vec![]);
    assert_eq!(pics.acknowledge(48), vec![]);
    assert_eq!(pics.acknowledge(0), vec![]);
}

#[test]
fn acknowledge_follows_other_bases() {
    let pics = Controller::new(240, 248);
    assert_eq!(pics.acknowledge(240), vec![eoi(0x20)]);
    assert_eq!(pics.acknowledge(255), vec![eoi(0xA0), eoi(0x20)]);
    assert!(pics.handles_interrupt(255));
    assert!(!pics.handles_interrupt(239));
}

#[test]
fn bases_not_eight_apart_are_refused() {
    assert_eq!(check_bases(32, 41), Err(ControllerError::NotAdjacent));
    assert_eq!(check_bases(32, 32), Err(ControllerError::NotAdjacent));
    assert_eq!(check_bases(248, 0), Err(ControllerError::NotAdjacent));
}

#[test]
fn bases_over_exceptions_are_refused() {
    assert_eq!(check_bases(0, 8), Err(ControllerError::OverlapsExceptions));
    assert_eq!(check_bases(31, 39), Err(ControllerError::OverlapsExceptions));
}

#[test]
fn standard_bases_are_accepted() {
    assert_eq!(check_bases(32, 40), Ok(()));
    assert_eq!(check_bases(247, 255), Ok(()));
}

#[test]
fn initialize_remaps_both_chips() {
    let pics = Controller::new(32, 40);
    let w = |port: u16, value: u8| PortWrite { port, value };
    let wait = w(WAIT_PORT, 0);
    let expected = vec![
        w(PRIMARY_DATA, 0xFF),
        w(SECONDARY_DATA, 0xFF),
        w(PRIMARY_COMMAND, 0x11),
        wait,
        w(SECONDARY_COMMAND, 0x11),
        wait,
        w(PRIMARY_DATA, 32),
        wait,
        w(SECONDARY_DATA, 40),
        wait,
        w(PRIMARY_DATA, 4),
        wait,
        w(SECONDARY_DATA, 2),
        wait,
        w(PRIMARY_DATA, 1),
        wait,
        w(SECONDARY_DATA, 1),
        wait,
        w(PRIMARY_DATA, 0xF8),
        w(SECONDARY_DATA, 0xFF),
    ];
    assert_eq!(pics.initialize(), expected);
}

#[test]
fn masking_lines_changes_one_bit() {
    let mut pics = Controller::new(32, 40);
    assert_eq!(pics.primary_mask(), 0xF8);
    assert_eq!(pics.set_line_masked(0, true), PortWrite { port: PRIMARY_DATA, value: 0xF9 });
    assert_eq!(pics.set_line_masked(3, false), PortWrite { port: PRIMARY_DATA, value: 0xF1 });
    assert_eq!(pics.set_line_masked(12, false), PortWrite { port: SECONDARY_DATA, value: 0xEF });
    assert_eq!(pics.primary_mask(), 0xF1);
    assert_eq!(pics.secondary_mask(), 0xEF);
    assert_eq!(pics.primary_base(), 32);
    assert_eq!(pics.secondary_base(), 40);
    let last = pics.initialize();
    assert_eq!(last[18], PortWrite { port: PRIMARY_DATA, value: 0xF1 });
    assert_eq!(last[19], PortWrite { port: SECONDARY_DATA, value: 0xEF });
}
