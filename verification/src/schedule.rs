//! Epoch-aligned scheduling of measurement groups.
//!
//! Each group polls on its own cadence, but every due time is an exact
//! multiple of the cadence measured from the fixed epoch, never "now plus
//! cadence": groups of equal cadence stay phase-locked however the process
//! was started. Times are nanoseconds since the epoch; waiting until a due
//! time and reading the clock are the caller's outside work.

use vstd::prelude::*;

use vstd::arithmetic::div_mod::{
    lemma_fundamental_div_mod, lemma_mod_add_multiples_vanish, lemma_mod_bound, lemma_mod_mod,
    lemma_mod_multiples_basic,
};
use vstd::arithmetic::mul::lemma_mul_strictly_positive;

use crate::registers::storage;
use crate::registers::{
    acc_energy_yield, active_power, efficiency, energy_yield_day, input_power,
    internal_temperature, line_voltage_a_b, line_voltage_b_c, line_voltage_c_a, phase_current_a,
    phase_current_b, phase_current_c, phase_voltage_a, phase_voltage_b, phase_voltage_c,
    pv1_current, pv1_voltage, pv2_current, pv2_voltage, pv3_current, pv3_voltage, pv4_current,
    pv4_voltage, reactive_power, Register,
};

verus! {

/// Nanoseconds in one second.
pub const NANOS_PER_SEC: i64 = 1_000_000_000;

/// The smallest multiple of `cadence` (measured from the epoch) that lies
/// strictly after `now`.
pub open spec fn spec_next_aligned(now: int, cadence: int) -> int {
    now - now % cadence + cadence
}

/// The first cadence boundary strictly after `now`: an exact multiple of
/// the cadence from the epoch, later than `now`, and no more than one
/// cadence later.
pub fn next_aligned_timepoint(now: i64, cadence: i64) -> (r: i64)
    requires
        0 <= now,
        0 < cadence,
        now + cadence <= i64::MAX,
    ensures
        r == spec_next_aligned(now as int, cadence as int),
        r % cadence == 0,
        now < r,
        r - cadence <= now,
{
    proof {
        lemma_mod_bound(now as int, cadence as int);
        lemma_next_aligned_is_multiple(now as int, cadence as int);
    }
    now - now % cadence + cadence
}

/// The time the alignment function returns is always an exact multiple of
/// the cadence, from any starting time at or after the epoch.
pub proof fn lemma_next_aligned_is_multiple(now: int, cadence: int)
    requires
        0 <= now,
        0 < cadence,
    ensures
        spec_next_aligned(now, cadence) % cadence == 0,
{
    lemma_fundamental_div_mod(now, cadence);
    assert(now - now % cadence + cadence == cadence * (now / cadence) + cadence);
    assert(cadence * (now / cadence) + cadence == (now / cadence + 1) * cadence) by (nonlinear_arith);
    lemma_mod_multiples_basic(now / cadence + 1, cadence);
}

/// Aligning a time that is already aligned never returns it unchanged: it
/// steps exactly one cadence forward.
pub proof fn lemma_align_already_aligned(t: int, cadence: int)
    requires
        0 <= t,
        0 < cadence,
        t % cadence == 0,
    ensures
        spec_next_aligned(t, cadence) == t + cadence,
{
}

/// Iterated alignment: the due time after `m` alignment steps from `t`.
pub open spec fn iter_align(t: int, cadence: int, m: nat) -> int
    decreases m,
{
    if m == 0 {
        t
    } else {
        iter_align(spec_next_aligned(t, cadence), cadence, (m - 1) as nat)
    }
}

/// Applied repeatedly from any starting time at or after the epoch, the
/// alignment function only ever returns multiples of the cadence.
pub proof fn lemma_iter_align_stays_aligned(t: int, cadence: int, m: nat)
    requires
        0 <= t,
        0 < cadence,
        1 <= m,
    ensures
        iter_align(t, cadence, m) % cadence == 0,
    decreases m,
{
    lemma_next_aligned_is_multiple(t, cadence);
    lemma_mod_bound(t, cadence);
    if m == 1 {
        assert(iter_align(spec_next_aligned(t, cadence), cadence, 0) == spec_next_aligned(
            t,
            cadence,
        ));
    } else {
        lemma_iter_align_stays_aligned(spec_next_aligned(t, cadence), cadence, (m - 1) as nat);
    }
}

/// From an aligned start, every alignment step lands one cadence further:
/// `m` steps land exactly `m` cadences out.
pub proof fn lemma_iter_align_from_aligned(t: int, cadence: int, m: nat)
    requires
        0 <= t,
        0 < cadence,
        t % cadence == 0,
    ensures
        iter_align(t, cadence, m) == t + m * cadence,
    decreases m,
{
    if m == 0 {
        assert(m * cadence == 0) by (nonlinear_arith)
            requires
                m == 0,
        ;
    } else {
        lemma_align_already_aligned(t, cadence);
        assert(spec_next_aligned(t, cadence) == t + cadence);
        assert((t + cadence) % cadence == 0) by {
            lemma_mod_add_multiples_vanish(t, cadence);
        };
        lemma_iter_align_from_aligned(t + cadence, cadence, (m - 1) as nat);
        assert(iter_align(t + cadence, cadence, (m - 1) as nat) == t + cadence + ((m - 1) as nat)
            * cadence);
        assert(iter_align(t, cadence, m) == iter_align(t + cadence, cadence, (m - 1) as nat));
        assert(t + cadence + ((m - 1) as nat) * cadence == t + m * cadence) by (nonlinear_arith)
            requires
                m > 0,
        ;
    }
}

/// A finer cadence nested in a coarser one: from a time aligned to `m`
/// whole fine cadences, `m` steps of the fine cadence land exactly where
/// one step of the coarse cadence `m * cadence` lands. With cadences of
/// five and thirty seconds, the five-second group comes due six times for
/// every due time of the thirty-second group, and both land on multiples
/// of thirty seconds.
pub proof fn lemma_nested_cadence(t: int, cadence: int, m: nat)
    requires
        0 <= t,
        0 < cadence,
        0 < m,
        t % (m * cadence) == 0,
    ensures
        iter_align(t, cadence, m) == spec_next_aligned(t, m * cadence),
        iter_align(t, cadence, m) == t + m * cadence,
{
    lemma_mul_strictly_positive(m as int, cadence);
    assert(t % cadence == 0) by {
        lemma_mod_mod(t, cadence, m as int);
        assert(cadence * m == m * cadence) by (nonlinear_arith);
        lemma_mod_bound(t, cadence);
    };
    lemma_iter_align_from_aligned(t, cadence, m);
    lemma_align_already_aligned(t, m * cadence);
}

/// A named measurement group: the registers it polls as labelled columns,
/// the cadence it polls on, and the next time it is due.
pub struct MeasurementGroup {
    pub name: &'static str,
    pub columns: Vec<(&'static str, Register)>,
    pub cadence_nanos: i64,
    pub next_read: i64,
}

impl MeasurementGroup {
    /// A well-formed group: a positive cadence, a due time at or after the
    /// epoch, and well-formed registers throughout.
    pub open spec fn wf(self) -> bool {
        &&& 0 < self.cadence_nanos
        &&& 0 <= self.next_read
        &&& forall|i: int|
            0 <= i < self.columns@.len() ==> (#[trigger] self.columns@[i]).1.wf()
    }

    /// Whether the group is due at `now`: its next read time lies at or
    /// before `now`.
    pub fn is_due(&self, now: i64) -> (b: bool)
        ensures
            b == (self.next_read <= now),
    {
        self.next_read <= now
    }

    /// Move the group's due time to the first cadence boundary strictly
    /// after `now`. When the group was due, the due time strictly
    /// increases, keeping per-group due times monotonic.
    pub fn advance(&mut self, now: i64)
        requires
            old(self).wf(),
            0 <= now,
            now + old(self).cadence_nanos <= i64::MAX,
        ensures
            final(self).name == old(self).name,
            final(self).columns == old(self).columns,
            final(self).cadence_nanos == old(self).cadence_nanos,
            final(self).next_read == spec_next_aligned(
                now as int,
                old(self).cadence_nanos as int,
            ),
            final(self).next_read % final(self).cadence_nanos == 0,
            now < final(self).next_read,
            old(self).next_read <= now ==> old(self).next_read < final(self).next_read,
            final(self).wf(),
    {
        self.next_read = next_aligned_timepoint(now, self.cadence_nanos);
    }
}

/// The earliest due time over all groups: until when the collector loop
/// may sleep. Nothing when there are no groups, which ends the loop.
pub fn earliest_next_read(groups: &Vec<MeasurementGroup>) -> (r: Option<i64>)
    ensures
        (r is Some) == (groups@.len() > 0),
        match r {
            Some(t) => {
                &&& exists|i: int| 0 <= i < groups@.len() && (#[trigger] groups@[i]).next_read == t
                &&& forall|i: int|
                    0 <= i < groups@.len() ==> t <= (#[trigger] groups@[i]).next_read
            },
            None => true,
        },
{
    if groups.len() == 0 {
        return None;
    }
    let mut min: i64 = groups[0].next_read;
    let mut k: usize = 1;
    while k < groups.len()
        invariant
            1 <= k <= groups@.len(),
            exists|i: int| 0 <= i < k && (#[trigger] groups@[i]).next_read == min,
            forall|i: int| 0 <= i < k ==> min <= (#[trigger] groups@[i]).next_read,
        decreases groups@.len() - k,
    {
        if groups[k].next_read < min {
            min = groups[k].next_read;
        }
        k = k + 1;
    }
    Some(min)
}

/// The columns of the general group: line and phase electrics, power, and
/// energy yield, each labelled with its register's name.
pub open spec fn general_columns() -> Seq<(&'static str, Register)> {
    seq![
        (input_power().name, input_power()),
        (line_voltage_a_b().name, line_voltage_a_b()),
        (line_voltage_b_c().name, line_voltage_b_c()),
        (line_voltage_c_a().name, line_voltage_c_a()),
        (phase_current_a().name, phase_current_a()),
        (phase_current_b().name, phase_current_b()),
        (phase_current_c().name, phase_current_c()),
        (phase_voltage_a().name, phase_voltage_a()),
        (phase_voltage_b().name, phase_voltage_b()),
        (phase_voltage_c().name, phase_voltage_c()),
        (active_power().name, active_power()),
        (reactive_power().name, reactive_power()),
        (acc_energy_yield().name, acc_energy_yield()),
        (energy_yield_day().name, energy_yield_day()),
    ]
}

/// The columns of the monitoring group.
pub open spec fn monitoring_columns() -> Seq<(&'static str, Register)> {
    seq![
        (efficiency().name, efficiency()),
        (internal_temperature().name, internal_temperature()),
    ]
}

/// The columns of the storage group.
pub open spec fn storage_columns() -> Seq<(&'static str, Register)> {
    seq![
        (storage::charge_discharge_power().name, storage::charge_discharge_power()),
        (storage::charge_capacity_day().name, storage::charge_capacity_day()),
        (storage::discharge_capacity_day().name, storage::discharge_capacity_day()),
    ]
}

/// How many per-string groups are made: one per physically present PV
/// string, up to the four the register catalog covers.
pub open spec fn plant_count(strings: u16) -> int {
    if strings > 4 {
        4
    } else {
        strings as int
    }
}

/// The name of the group of PV string `i`, counting from zero.
pub open spec fn plant_name(i: int) -> Seq<char> {
    if i == 0 {
        "plant_1"@
    } else if i == 1 {
        "plant_2"@
    } else if i == 2 {
        "plant_3"@
    } else {
        "plant_4"@
    }
}

/// The columns of the group of PV string `i`, counting from zero: the
/// string's voltage and current.
pub open spec fn plant_columns(i: int) -> Seq<(&'static str, Register)> {
    if i == 0 {
        seq![("voltage", pv1_voltage()), ("current", pv1_current())]
    } else if i == 1 {
        seq![("voltage", pv2_voltage()), ("current", pv2_current())]
    } else if i == 2 {
        seq![("voltage", pv3_voltage()), ("current", pv3_current())]
    } else {
        seq![("voltage", pv4_voltage()), ("current", pv4_current())]
    }
}

/// Build the measurement groups polled by the collector: the general,
/// monitoring and storage groups on a thirty-second cadence, and one group
/// per present PV string on a five-second cadence. Every group starts due
/// at `now`.
pub fn create_tables(strings: u16, now: i64) -> (v: Vec<MeasurementGroup>)
    requires
        0 <= now,
    ensures
        v@.len() == 3 + plant_count(strings),
        forall|i: int| 0 <= i < v@.len() ==> (#[trigger] v@[i]).next_read == now,
        forall|i: int| 0 <= i < v@.len() ==> (#[trigger] v@[i]).wf(),
        v@[0].name@ == "general"@ && v@[0].cadence_nanos == 30 * NANOS_PER_SEC
            && v@[0].columns@ == general_columns(),
        v@[1].name@ == "monitoring"@ && v@[1].cadence_nanos == 30 * NANOS_PER_SEC
            && v@[1].columns@ == monitoring_columns(),
        v@[2].name@ == "storage"@ && v@[2].cadence_nanos == 30 * NANOS_PER_SEC
            && v@[2].columns@ == storage_columns(),
        forall|i: int|
            0 <= i < plant_count(strings) ==> {
                &&& (#[trigger] v@[3 + i]).name@ == plant_name(i)
                &&& v@[3 + i].cadence_nanos == 5 * NANOS_PER_SEC
                &&& v@[3 + i].columns@ == plant_columns(i)
            },
{
    let mut v: Vec<MeasurementGroup> = Vec::new();

    let general = vec![
        (input_power().name, input_power()),
        (line_voltage_a_b().name, line_voltage_a_b()),
        (line_voltage_b_c().name, line_voltage_b_c()),
        (line_voltage_c_a().name, line_voltage_c_a()),
        (phase_current_a().name, phase_current_a()),
        (phase_current_b().name, phase_current_b()),
        (phase_current_c().name, phase_current_c()),
        (phase_voltage_a().name, phase_voltage_a()),
        (phase_voltage_b().name, phase_voltage_b()),
        (phase_voltage_c().name, phase_voltage_c()),
        (active_power().name, active_power()),
        (reactive_power().name, reactive_power()),
        (acc_energy_yield().name, acc_energy_yield()),
        (energy_yield_day().name, energy_yield_day()),
    ];
    proof {
        assert(general@ =~= general_columns());
    }
    v.push(
        MeasurementGroup {
            name: "general",
            columns: general,
            cadence_nanos: 30 * NANOS_PER_SEC,
            next_read: now,
        },
    );

    let monitoring = vec![
        (efficiency().name, efficiency()),
        (internal_temperature().name, internal_temperature()),
    ];
    proof {
        assert(monitoring@ =~= monitoring_columns());
    }
    v.push(
        MeasurementGroup {
            name: "monitoring",
            columns: monitoring,
            cadence_nanos: 30 * NANOS_PER_SEC,
            next_read: now,
        },
    );

    let storage_cols = vec![
        (storage::charge_discharge_power().name, storage::charge_discharge_power()),
        (storage::charge_capacity_day().name, storage::charge_capacity_day()),
        (storage::discharge_capacity_day().name, storage::discharge_capacity_day()),
    ];
    proof {
        assert(storage_cols@ =~= storage_columns());
    }
    v.push(
        MeasurementGroup {
            name: "storage",
            columns: storage_cols,
            cadence_nanos: 30 * NANOS_PER_SEC,
            next_read: now,
        },
    );

    if strings >= 1 {
        let cols = vec![("voltage", pv1_voltage()), ("current", pv1_current())];
        proof {
            assert(cols@ =~= plant_columns(0));
        }
        v.push(
            MeasurementGroup {
                name: "plant_1",
                columns: cols,
                cadence_nanos: 5 * NANOS_PER_SEC,
                next_read: now,
            },
        );
    }
    if strings >= 2 {
        let cols = vec![("voltage", pv2_voltage()), ("current", pv2_current())];
        proof {
            assert(cols@ =~= plant_columns(1));
        }
        v.push(
            MeasurementGroup {
                name: "plant_2",
                columns: cols,
                cadence_nanos: 5 * NANOS_PER_SEC,
                next_read: now,
            },
        );
    }
    if strings >= 3 {
        let cols = vec![("voltage", pv3_voltage()), ("current", pv3_current())];
        proof {
            assert(cols@ =~= plant_columns(2));
        }
        v.push(
            MeasurementGroup {
                name: "plant_3",
                columns: cols,
                cadence_nanos: 5 * NANOS_PER_SEC,
                next_read: now,
            },
        );
    }
    if strings >= 4 {
        let cols = vec![("voltage", pv4_voltage()), ("current", pv4_current())];
        proof {
            assert(cols@ =~= plant_columns(3));
        }
        v.push(
            MeasurementGroup {
                name: "plant_4",
                columns: cols,
                cadence_nanos: 5 * NANOS_PER_SEC,
                next_read: now,
            },
        );
    }
    v
}

} // verus!
