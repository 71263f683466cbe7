use huawei_solar::schedule::{
    create_tables, earliest_next_read, next_aligned_timepoint, NANOS_PER_SEC,
};

const THIRTY: i64 = 30 * NANOS_PER_SEC;
const FIVE: i64 = 5 * NANOS_PER_SEC;

#[test]
fn alignment_lands_on_cadence_multiples() {
    // From arbitrary starting times, repeated alignment with a 30 s cadence
    // only ever returns multiples of 30 s.
    for start in [0i64, 1, 12_345_678_901, THIRTY - 1, THIRTY, 7 * THIRTY + 13] {
        let mut t = start;
        for _ in 0..5 {
            t = next_aligned_timepoint(t, THIRTY);
            assert_eq!(t % THIRTY, 0);
            assert!(t > start);
        }
    }
}

#[test]
fn alignment_of_aligned_time_steps_one_cadence() {
    assert_eq!(next_aligned_timepoint(0, THIRTY), THIRTY);
    assert_eq!(next_aligned_timepoint(THIRTY, THIRTY), 2 * THIRTY);
    assert_eq!(next_aligned_timepoint(6 * THIRTY, THIRTY), 7 * THIRTY);
}

#[test]
fn alignment_returns_smallest_multiple_after_now() {
    assert_eq!(next_aligned_timepoint(1, THIRTY), THIRTY);
    assert_eq!(next_aligned_timepoint(THIRTY - 1, THIRTY), THIRTY);
    assert_eq!(next_aligned_timepoint(THIRTY + 1, THIRTY), 2 * THIRTY);
}

#[test]
fn fine_cadence_nests_in_coarse() {
    // Between two due times of a 30 s group, a 5 s group comes due six
    // times, and the sixth lands exactly on the 30 s boundary.
    let start = 4 * THIRTY;
    let coarse = next_aligned_timepoint(start, THIRTY);
    let mut t = start;
    let mut fine_steps = 0;
    while t < coarse {
        t = next_aligned_timepoint(t, FIVE);
        fine_steps += 1;
        assert_eq!(t % FIVE, 0);
    }
    assert_eq!(fine_steps, 6);
    assert_eq!(t, coarse);
    assert_eq!(coarse % THIRTY, 0);
}

#[test]
fn create_tables_builds_static_and_plant_groups() {
    let now = 1_700_000_000 * NANOS_PER_SEC;
    let groups = create_tables(2, now);
    assert_eq!(groups.len(), 5);
    assert_eq!(groups[0].name, "general");
    assert_eq!(groups[0].columns.len(), 14);
    assert_eq!(groups[0].cadence_nanos, THIRTY);
    assert_eq!(groups[1].name, "monitoring");
    assert_eq!(groups[1].columns.len(), 2);
    assert_eq!(groups[2].name, "storage");
    assert_eq!(groups[2].columns.len(), 3);
    assert_eq!(groups[3].name, "plant_1");
    assert_eq!(groups[3].cadence_nanos, FIVE);
    assert_eq!(groups[3].columns[0].0, "voltage");
    assert_eq!(groups[3].columns[0].1.address, 32016);
    assert_eq!(groups[3].columns[1].0, "current");
    assert_eq!(groups[3].columns[1].1.address, 32017);
    assert_eq!(groups[4].name, "plant_2");
    assert_eq!(groups[4].columns[0].1.address, 32018);
    for g in &groups {
        assert_eq!(g.next_read, now);
    }
}

#[test]
fn create_tables_caps_plant_groups_at_four() {
    let groups = create_tables(9, 0);
    assert_eq!(groups.len(), 7);
    assert_eq!(groups[6].name, "plant_4");
    let groups = create_tables(0, 0);
    assert_eq!(groups.len(), 3);
}

#[test]
fn groups_advance_phase_locked() {
    let mut groups = create_tables(1, 0);
    let now = 17 * NANOS_PER_SEC;
    // All groups start due; after advancing at `now`, every due time is the
    // next multiple of the group's own cadence, so equal-cadence groups
    // stay phase-locked.
    for g in groups.iter_mut() {
        assert!(g.is_due(now));
        g.advance(now);
        assert!(!g.is_due(now));
        assert_eq!(g.next_read % g.cadence_nanos, 0);
        assert!(g.next_read > now);
    }
    assert_eq!(groups[0].next_read, THIRTY);
    assert_eq!(groups[1].next_read, THIRTY);
    assert_eq!(groups[2].next_read, THIRTY);
    assert_eq!(groups[3].next_read, 4 * FIVE);
    // The loop sleeps until the earliest due time.
    assert_eq!(earliest_next_read(&groups), Some(4 * FIVE));
}

#[test]
fn earliest_next_read_of_no_groups_is_none() {
    assert_eq!(earliest_next_read(&Vec::new()), None);
}

#[test]
fn due_times_strictly_increase() {
    let mut groups = create_tables(1, 0);
    let g = &mut groups[3];
    let mut now = 0i64;
    let mut last = g.next_read;
    for _ in 0..10 {
        // A group is due the moment the clock reaches its due time.
        now = g.next_read;
        assert!(g.is_due(now));
        g.advance(now);
        assert!(g.next_read > last, "per-group due times are monotonic");
        last = g.next_read;
    }
}
