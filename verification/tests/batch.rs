use huawei_solar::batch::{coalesce, decode_batch, split_span};
use huawei_solar::registers::{pv1_current, pv1_voltage, pv3_voltage, rated_power, Value};

#[test]
fn coalesce_three_sparse_registers() {
    // Addresses 32016 (one word), 32017 (one word), 32020 (one word):
    // exactly one read of [32016, 32021), five words, with the inputs at
    // offsets 0, 1 and 4.
    let regs = [pv1_voltage(), pv1_current(), pv3_voltage()];
    let plan = coalesce(&regs).unwrap();
    assert_eq!(plan.start, 32016);
    assert_eq!(plan.count, 5);
    assert_eq!(plan.offsets, vec![0usize, 1, 4]);
}

#[test]
fn coalesce_empty_input_needs_no_read() {
    assert!(coalesce(&[]).is_none());
}

#[test]
fn coalesce_multi_word_register_extends_span() {
    // 32016 (one word) and 30073 (two words): the span runs from 30073 to
    // one past 32016.
    let regs = [pv1_voltage(), rated_power()];
    let plan = coalesce(&regs).unwrap();
    assert_eq!(plan.start, 30073);
    assert_eq!(plan.count, 32017 - 30073);
    assert_eq!(plan.offsets, vec![(32016 - 30073) as usize, 0]);
}

#[test]
fn split_span_maps_offsets_back() {
    let regs = [pv1_voltage(), pv1_current(), pv3_voltage()];
    let words: Vec<u16> = vec![100, 200, 300, 400, 500];
    let chunks = split_span(&regs, 32016, &words);
    assert_eq!(chunks, vec![vec![100u16], vec![200u16], vec![500u16]]);
}

#[test]
fn decode_batch_pairs_values_with_registers() {
    let regs = [pv1_voltage(), pv1_current()];
    let chunks = vec![vec![0xFFFFu16], vec![0x0005u16]];
    let vals = decode_batch(&regs, &chunks).unwrap();
    assert_eq!(vals.len(), 2);
    assert_eq!(vals[0].reg.address, 32016);
    match vals[0].val {
        Value::I16(x) => assert_eq!(x, -1),
        _ => panic!("expected a 16-bit signed value"),
    }
    match vals[1].val {
        Value::I16(x) => assert_eq!(x, 5),
        _ => panic!("expected a 16-bit signed value"),
    }
}

#[test]
fn decode_batch_fails_as_a_whole() {
    // A wrong-sized slice fails the whole batch: no partial results.
    let regs = [pv1_voltage(), pv1_current()];
    let chunks = vec![vec![0xFFFFu16], vec![1u16, 2u16]];
    assert!(decode_batch(&regs, &chunks).is_err());
}

#[test]
fn coalesced_read_end_to_end() {
    // Plan, pretend the wire answered the span, slice and decode.
    let regs = [pv1_voltage(), pv1_current(), pv3_voltage()];
    let plan = coalesce(&regs).unwrap();
    assert_eq!(plan.count, 5);
    let response: Vec<u16> = vec![0xFFCD, 7, 0, 0, 42];
    let chunks = split_span(&regs, plan.start, &response);
    let vals = decode_batch(&regs, &chunks).unwrap();
    match vals[0].val {
        Value::I16(x) => assert_eq!(x, -51),
        _ => panic!("expected a 16-bit signed value"),
    }
    assert_eq!(vals[0].to_scaled().unwrap(), -510);
    match vals[2].val {
        Value::I16(x) => assert_eq!(x, 42),
        _ => panic!("expected a 16-bit signed value"),
    }
}
