use embedded_core::edge::EdgeKind;
use embedded_core::edge::EdgeSource;
use embedded_core::state_cell::CellOp;
use embedded_core::state_cell::StateCell;
use embedded_core::state_cell::run_interleaving;

#[test]
fn cell_read_returns_last_write() {
    let mut cell = StateCell::new(2000);
    assert_eq!(cell.read(), 2000);
    cell.write(1700);
    assert_eq!(cell.read(), 1700);
    cell.write(1400);
    assert_eq!(cell.read(), 1400);
}

#[test]
fn interleaving_reads_see_completed_writes_only() {
    let ops = vec![
        CellOp::Write(7),
        CellOp::Read,
        CellOp::Write(9),
        CellOp::Read,
        CellOp::Read,
    ];
    let results = run_interleaving(5, &ops);
    assert_eq!(results, vec![None, Some(7), None, Some(9), Some(9)]);
}

#[test]
fn interleaving_read_before_any_write_sees_initial() {
    let results = run_interleaving(42, &vec![CellOp::Read, CellOp::Write(1), CellOp::Read]);
    assert_eq!(results, vec![Some(42), None, Some(1)]);
}

#[test]
fn interleaving_consecutive_writes_last_wins() {
    let ops = vec![CellOp::Write(1), CellOp::Write(2), CellOp::Write(3), CellOp::Read];
    let results = run_interleaving(0, &ops);
    assert_eq!(results, vec![None, None, None, Some(3)]);
}

#[test]
fn edge_while_idle_is_dropped() {
    let mut src = EdgeSource::new();
    assert!(src.is_idle());
    assert!(!src.on_transition(EdgeKind::Rising));
    assert!(!src.on_transition(EdgeKind::Falling));
    assert!(src.is_idle());
    assert_eq!(src.last_resolved_index(), None);
}

#[test]
fn mismatched_edge_does_not_resolve() {
    let mut src = EdgeSource::new();
    src.arm_rising();
    assert!(!src.on_transition(EdgeKind::Falling));
    assert!(!src.is_idle());
    assert!(src.on_transition(EdgeKind::Rising));
    assert!(src.is_idle());
}

#[test]
fn rearmed_wait_resolves_only_on_a_fresh_transition() {
    let mut src = EdgeSource::new();
    // A transition before any wait is outstanding is not remembered.
    assert!(!src.on_transition(EdgeKind::Falling));
    src.arm_rising();
    // The wait resolves on the next matching transition, index 1.
    assert!(src.on_transition(EdgeKind::Rising));
    assert_eq!(src.last_resolved_index(), Some(1));
    // A wait armed afterwards cannot reuse that transition: it resolves
    // only on a strictly later one.
    src.arm_falling();
    assert!(src.on_transition(EdgeKind::Falling));
    assert_eq!(src.last_resolved_index(), Some(2));
    assert!(src.last_resolved_index().unwrap() > 1);
}

#[test]
fn alternating_waits_resolve_in_stream_order() {
    let mut src = EdgeSource::new();
    let mut resolved_at = Vec::new();
    for round in 0..3 {
        if round % 2 == 0 {
            src.arm_rising();
            while !src.on_transition(EdgeKind::Rising) {}
        } else {
            src.arm_falling();
            while !src.on_transition(EdgeKind::Falling) {}
        }
        resolved_at.push(src.last_resolved_index().unwrap());
    }
    assert!(resolved_at[0] < resolved_at[1]);
    assert!(resolved_at[1] < resolved_at[2]);
}
