use wred_client::id_clock::{decode_instant, IdLayout};

fn layout(
    time_bits: u64,
    node_bits: u64,
    seq_bits: u64,
    epoch_offset_micros: u64,
    time_unit_shift: u64,
) -> IdLayout {
    IdLayout::new(time_bits, node_bits, seq_bits, epoch_offset_micros, time_unit_shift)
        .expect("layout should be well formed")
}

#[test]
fn scenario_microsecond_units() {
    // 41 timestamp bits, 10 node bits, 12 sequence bits, custom epoch,
    // microsecond units: a delta of 1000 decodes to epoch + 1000.
    let l = layout(41, 10, 12, 1_600_000_000_000_000, 0);
    let id: u64 = 1000u64 << 22;
    assert_eq!(decode_instant(id, &l), 1_600_000_000_001_000);
}

#[test]
fn low_order_fields_do_not_move_the_instant() {
    let l = layout(41, 10, 12, 1_600_000_000_000_000, 0);
    // Same delta, different node and sequence fields.
    let id_a: u64 = (1000u64 << 22) | 0x3F_FFFF;
    let id_b: u64 = 1000u64 << 22;
    assert_eq!(decode_instant(id_a, &l), decode_instant(id_b, &l));
}

#[test]
fn coarse_time_units_are_scaled() {
    // With a unit shift of 10 each delta tick is 1024 microseconds.
    let l = layout(32, 10, 12, 0, 10);
    let id: u64 = 5u64 << 22;
    assert_eq!(decode_instant(id, &l), 5 * 1024);
}

#[test]
fn decode_wraps_instead_of_faulting() {
    // A mismatched layout yields a meaningless but defined number.
    let l = layout(42, 10, 12, u64::MAX, 0);
    let id: u64 = 1u64 << 22;
    assert_eq!(decode_instant(id, &l), 0);
}

#[test]
fn decode_is_deterministic() {
    let l = layout(41, 10, 12, 1_600_000_000_000_000, 0);
    let id: u64 = 0xDEAD_BEEF_CAFE;
    assert_eq!(decode_instant(id, &l), decode_instant(id, &l));
}

#[test]
fn decode_is_monotone_in_the_identifier() {
    let l = layout(41, 10, 12, 1_600_000_000_000_000, 0);
    let ids = [0u64, 1, 1 << 22, 5 << 22, 1000 << 22, (1000 << 22) | 7, 1 << 62];
    for pair in ids.windows(2) {
        assert!(decode_instant(pair[0], &l) <= decode_instant(pair[1], &l));
    }
}

#[test]
fn layout_builder_accepts_the_generator_layout() {
    let l = layout(41, 10, 12, 1_600_000_000_000_000, 0);
    assert_eq!(l.time_bits, 41);
    assert_eq!(l.node_bits, 10);
    assert_eq!(l.seq_bits, 12);
    assert_eq!(l.epoch_offset_micros, 1_600_000_000_000_000);
    assert_eq!(l.time_unit_shift, 0);
}

#[test]
fn layout_builder_rejects_oversized_fields() {
    // Node and sequence fields may not fill the whole word.
    assert!(IdLayout::new(0, 32, 32, 0, 0).is_none());
    // The three fields must fit into 64 bits.
    assert!(IdLayout::new(43, 10, 12, 0, 0).is_none());
    // The unit shift must stay inside the word.
    assert!(IdLayout::new(41, 10, 12, 0, 64).is_none());
}
