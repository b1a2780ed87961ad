use vstd::prelude::*;

use crate::error::AppError;
use crate::models::sensor::{column_value, has_value, is_heartbeat, SensorField, SensorLog};

verus! {

/// One minute, in nanoseconds: how long a sensor value stays on the dashboard.
pub const ONE_MINUTE_NANOS: i128 = 60_000_000_000;

/// The earliest instant that a UTC date-time can hold (midnight starting January 1
/// of year -262143, that is 262144 BCE), in nanoseconds since the Unix epoch.
pub const EARLIEST_INSTANT_NANOS: i128 = -8_334_601_228_800_000_000_000;

/// Row `a` is newer than row `b`: later timestamp, or same timestamp and larger id.
pub open spec fn newer(a: SensorLog, b: SensorLog) -> bool {
    a.timestamp_slot > b.timestamp_slot || (a.timestamp_slot == b.timestamp_slot && a.id > b.id)
}

/// In newest-first order (timestamp descending, then id descending, rows that tie
/// keeping their order in `s`), position `i` comes before position `j`.
pub open spec fn comes_before(s: Seq<SensorLog>, i: int, j: int) -> bool {
    ||| newer(s[i], s[j])
    ||| (s[i].timestamp_slot == s[j].timestamp_slot && s[i].id == s[j].id && i < j)
}

/// Which rows a search considers: every row (`None`), or the rows inside the
/// window starting at `cutoff` that hold a value in the given column.
pub open spec fn selected(r: SensorLog, column: Option<SensorField>, cutoff: int) -> bool {
    match column {
        None => true,
        Some(f) => r.timestamp_slot >= cutoff && has_value(r, f),
    }
}

/// Position `i` is the first selected row of `s[0..n)` in newest-first order.
pub open spec fn is_first_within(
    s: Seq<SensorLog>,
    n: int,
    column: Option<SensorField>,
    cutoff: int,
    i: int,
) -> bool {
    &&& 0 <= i < n <= s.len()
    &&& selected(s[i], column, cutoff)
    &&& forall|j: int|
        0 <= j < n && j != i && #[trigger] selected(s[j], column, cutoff) ==> comes_before(s, i, j)
}

/// The position of the first selected row of `s` in newest-first order, if any row is selected.
pub open spec fn first_selected(s: Seq<SensorLog>, column: Option<SensorField>, cutoff: int) -> Option<int> {
    if exists|i: int| is_first_within(s, s.len() as int, column, cutoff, i) {
        Some(choose|i: int| is_first_within(s, s.len() as int, column, cutoff, i))
    } else {
        None
    }
}

/// The window's value of a column: the value in the newest row inside the
/// window that holds one.
pub open spec fn window_source(s: Seq<SensorLog>, f: SensorField, cutoff: int) -> Option<int> {
    first_selected(s, Some(f), cutoff)
}

/// Some row inside the window comes from a real (online) reading.
pub open spec fn online_within(s: Seq<SensorLog>, cutoff: int) -> bool {
    exists|j: int| 0 <= j < s.len() && s[j].timestamp_slot >= cutoff && #[trigger] s[j].is_online
}

/// What the dashboard shows for the rows `s` at instant `now`: the newest row's
/// identity and timing; for each column the newest non-`NULL` value of the last
/// minute; online when a real reading arrived in the last minute.
pub open spec fn stabilized(s: Seq<SensorLog>, now: int) -> Option<SensorLog> {
    let c = now - ONE_MINUTE_NANOS;
    match first_selected(s, None, c) {
        None => None,
        Some(i) => Some(
            SensorLog {
                id: s[i].id,
                timestamp_slot: s[i].timestamp_slot,
                lux_l: match window_source(s, SensorField::LuxL, c) {
                    Some(j) => s[j].lux_l,
                    None => None,
                },
                lux_ml: match window_source(s, SensorField::LuxMl, c) {
                    Some(j) => s[j].lux_ml,
                    None => None,
                },
                lux_mr: match window_source(s, SensorField::LuxMr, c) {
                    Some(j) => s[j].lux_mr,
                    None => None,
                },
                lux_r: match window_source(s, SensorField::LuxR, c) {
                    Some(j) => s[j].lux_r,
                    None => None,
                },
                lux_panel_left: match window_source(s, SensorField::LuxPanelLeft, c) {
                    Some(j) => s[j].lux_panel_left,
                    None => None,
                },
                lux_panel_right: match window_source(s, SensorField::LuxPanelRight, c) {
                    Some(j) => s[j].lux_panel_right,
                    None => None,
                },
                voltage: match window_source(s, SensorField::Voltage, c) {
                    Some(j) => s[j].voltage,
                    None => None,
                },
                current: match window_source(s, SensorField::Current, c) {
                    Some(j) => s[j].current,
                    None => None,
                },
                power: match window_source(s, SensorField::Power, c) {
                    Some(j) => s[j].power,
                    None => None,
                },
                is_online: online_within(s, c),
            },
        ),
    }
}

/// Two first positions of the same search are the same position.
pub proof fn lemma_first_unique(
    s: Seq<SensorLog>,
    n: int,
    column: Option<SensorField>,
    cutoff: int,
    i: int,
    k: int,
)
    requires
        is_first_within(s, n, column, cutoff, i),
        is_first_within(s, n, column, cutoff, k),
    ensures
        i == k,
{
    if i != k {
        assert(selected(s[k], column, cutoff));
        assert(selected(s[i], column, cutoff));
        assert(comes_before(s, i, k));
        assert(comes_before(s, k, i));
    }
}

proof fn lemma_first_selected_is(
    s: Seq<SensorLog>,
    column: Option<SensorField>,
    cutoff: int,
    i: int,
)
    requires
        is_first_within(s, s.len() as int, column, cutoff, i),
    ensures
        first_selected(s, column, cutoff) == Some(i),
{
    let k = choose|k: int| is_first_within(s, s.len() as int, column, cutoff, k);
    lemma_first_unique(s, s.len() as int, column, cutoff, i, k);
}

proof fn lemma_first_selected_none(s: Seq<SensorLog>, column: Option<SensorField>, cutoff: int)
    requires
        forall|j: int| 0 <= j < s.len() ==> !#[trigger] selected(s[j], column, cutoff),
    ensures
        first_selected(s, column, cutoff) is None,
{
    if exists|i: int| is_first_within(s, s.len() as int, column, cutoff, i) {
        let i = choose|i: int| is_first_within(s, s.len() as int, column, cutoff, i);
        assert(selected(s[i], column, cutoff));
    }
}

/// Whether a row is selected by a search.
fn is_selected(r: &SensorLog, column: Option<SensorField>, cutoff: i128) -> (b: bool)
    ensures
        b == selected(*r, column, cutoff as int),
{
    match column {
        None => true,
        Some(f) => r.timestamp_slot >= cutoff && r.has(f),
    }
}

/// Position of the first selected row in newest-first order (the first row that
/// sorting the rows newest first would put at the front, among selected rows).
pub fn first_selected_position(
    readings: &Vec<SensorLog>,
    column: Option<SensorField>,
    cutoff: i128,
) -> (r: Option<usize>)
    ensures
        match r {
            Some(i) => first_selected(readings@, column, cutoff as int) == Some(i as int)
                && i < readings.len(),
            None => first_selected(readings@, column, cutoff as int) is None,
        },
{
    let ghost s = readings@;
    let mut best: Option<usize> = None;
    let mut j: usize = 0;
    while j < readings.len()
        invariant
            s == readings@,
            j <= readings.len(),
            match best {
                Some(b) => is_first_within(s, j as int, column, cutoff as int, b as int),
                None => forall|k: int| 0 <= k < j ==> !#[trigger] selected(s[k], column, cutoff as int),
            },
        decreases readings.len() - j,
    {
        let r = &readings[j];
        if is_selected(r, column, cutoff) {
            match best {
                None => {
                    best = Some(j);
                    assert(is_first_within(s, j + 1, column, cutoff as int, j as int));
                },
                Some(b) => {
                    let rb = &readings[b];
                    if r.timestamp_slot > rb.timestamp_slot || (r.timestamp_slot
                        == rb.timestamp_slot && r.id > rb.id) {
                        best = Some(j);
                        assert forall|k: int|
                            0 <= k < j + 1 && k != j && #[trigger] selected(
                                s[k],
                                column,
                                cutoff as int,
                            ) implies comes_before(s, j as int, k) by {
                            if k != b {
                                assert(comes_before(s, b as int, k));
                            }
                        }
                    } else {
                        assert(comes_before(s, b as int, j as int));
                    }
                },
            }
        }
        j = j + 1;
    }
    match best {
        Some(b) => {
            proof {
                lemma_first_selected_is(s, column, cutoff as int, b as int);
            }
        },
        None => {
            proof {
                lemma_first_selected_none(s, column, cutoff as int);
            }
        },
    }
    best
}

/// Whether some row at or after `cutoff` comes from a real reading.
fn any_online_since(readings: &Vec<SensorLog>, cutoff: i128) -> (b: bool)
    ensures
        b == online_within(readings@, cutoff as int),
{
    let mut j: usize = 0;
    while j < readings.len()
        invariant
            j <= readings.len(),
            forall|k: int|
                0 <= k < j ==> !(readings@[k].timestamp_slot >= cutoff && #[trigger] readings@[k].is_online),
        decreases readings.len() - j,
    {
        if readings[j].timestamp_slot >= cutoff && readings[j].is_online {
            return true;
        }
        j = j + 1;
    }
    false
}

} // verus!

verus! {

/// The reading shown on the dashboard: the newest row (timestamp, then id)
/// gives the identity and timing; each sensor column takes its newest non-`NULL`
/// value from the rows of the last minute (`NULL` when there is none); the
/// reading is online when a real reading arrived in the last minute.
/// `None` when there are no rows.
pub fn stabilize_latest_reading(readings: Vec<SensorLog>, now: i128) -> (r: Option<SensorLog>)
    requires
        readings@.len() > 0 ==> EARLIEST_INSTANT_NANOS + ONE_MINUTE_NANOS <= now,
    ensures
        r == stabilized(readings@, now as int),
{
    if readings.len() == 0 {
        proof {
            law_reading_exists_iff_rows(readings@, now as int);
        }
        return None;
    }
    let cutoff = now - ONE_MINUTE_NANOS;
    let newest = match first_selected_position(&readings, None, cutoff) {
        Some(i) => i,
        None => return None,
    };
    let mut latest = readings[newest];
    latest.lux_l = match first_selected_position(&readings, Some(SensorField::LuxL), cutoff) {
        Some(j) => readings[j].lux_l,
        None => None,
    };
    latest.lux_ml = match first_selected_position(&readings, Some(SensorField::LuxMl), cutoff) {
        Some(j) => readings[j].lux_ml,
        None => None,
    };
    latest.lux_mr = match first_selected_position(&readings, Some(SensorField::LuxMr), cutoff) {
        Some(j) => readings[j].lux_mr,
        None => None,
    };
    latest.lux_r = match first_selected_position(&readings, Some(SensorField::LuxR), cutoff) {
        Some(j) => readings[j].lux_r,
        None => None,
    };
    latest.lux_panel_left = match first_selected_position(
        &readings,
        Some(SensorField::LuxPanelLeft),
        cutoff,
    ) {
        Some(j) => readings[j].lux_panel_left,
        None => None,
    };
    latest.lux_panel_right = match first_selected_position(
        &readings,
        Some(SensorField::LuxPanelRight),
        cutoff,
    ) {
        Some(j) => readings[j].lux_panel_right,
        None => None,
    };
    latest.voltage = match first_selected_position(&readings, Some(SensorField::Voltage), cutoff) {
        Some(j) => readings[j].voltage,
        None => None,
    };
    latest.current = match first_selected_position(&readings, Some(SensorField::Current), cutoff) {
        Some(j) => readings[j].current,
        None => None,
    };
    latest.power = match first_selected_position(&readings, Some(SensorField::Power), cutoff) {
        Some(j) => readings[j].power,
        None => None,
    };
    latest.is_online = any_online_since(&readings, cutoff);
    Some(latest)
}

} // verus!

verus! {

/// If some row of `s[0..n)` is selected, one of them comes first in newest-first order.
pub proof fn lemma_first_exists(
    s: Seq<SensorLog>,
    n: int,
    column: Option<SensorField>,
    cutoff: int,
    j: int,
)
    requires
        0 <= j < n <= s.len(),
        selected(s[j], column, cutoff),
    ensures
        exists|i: int| is_first_within(s, n, column, cutoff, i),
    decreases n,
{
    if j == n - 1 {
        if exists|k: int| 0 <= k < n - 1 && #[trigger] selected(s[k], column, cutoff) {
            let k = choose|k: int| 0 <= k < n - 1 && #[trigger] selected(s[k], column, cutoff);
            lemma_first_exists(s, n - 1, column, cutoff, k);
            let m = n - 1;
            let b = choose|i: int| is_first_within(s, m, column, cutoff, i);
            if newer(s[n - 1], s[b]) {
                assert forall|m: int|
                    0 <= m < n && m != n - 1 && #[trigger] selected(s[m], column, cutoff) implies comes_before(
                    s,
                    n - 1,
                    m,
                ) by {
                    if m != b {
                        assert(comes_before(s, b, m));
                    }
                }
                assert(is_first_within(s, n, column, cutoff, n - 1));
            } else {
                assert(comes_before(s, b, n - 1));
                assert(is_first_within(s, n, column, cutoff, b));
            }
        } else {
            assert(is_first_within(s, n, column, cutoff, n - 1));
        }
    } else {
        lemma_first_exists(s, n - 1, column, cutoff, j);
        let m = n - 1;
        let b = choose|i: int| is_first_within(s, m, column, cutoff, i);
        if selected(s[n - 1], column, cutoff) && newer(s[n - 1], s[b]) {
            assert forall|m: int|
                0 <= m < n && m != n - 1 && #[trigger] selected(s[m], column, cutoff) implies comes_before(
                s,
                n - 1,
                m,
            ) by {
                if m != b {
                    assert(comes_before(s, b, m));
                }
            }
            assert(is_first_within(s, n, column, cutoff, n - 1));
        } else {
            if selected(s[n - 1], column, cutoff) {
                assert(comes_before(s, b, n - 1));
            }
            assert(is_first_within(s, n, column, cutoff, b));
        }
    }
}

/// A search finds a row exactly when some row is selected; the row it finds is
/// selected, and no selected row is newer.
pub proof fn lemma_first_selected_spec(s: Seq<SensorLog>, column: Option<SensorField>, cutoff: int)
    ensures
        first_selected(s, column, cutoff) is Some <==> exists|j: int|
            0 <= j < s.len() && #[trigger] selected(s[j], column, cutoff),
        first_selected(s, column, cutoff) matches Some(i) ==> {
            &&& 0 <= i < s.len()
            &&& selected(s[i], column, cutoff)
            &&& forall|j: int|
                0 <= j < s.len() && #[trigger] selected(s[j], column, cutoff) ==> !newer(s[j], s[i])
        },
{
    if exists|j: int| 0 <= j < s.len() && #[trigger] selected(s[j], column, cutoff) {
        let j = choose|j: int| 0 <= j < s.len() && #[trigger] selected(s[j], column, cutoff);
        lemma_first_exists(s, s.len() as int, column, cutoff, j);
        let i = choose|i: int| is_first_within(s, s.len() as int, column, cutoff, i);
        assert forall|k: int|
            0 <= k < s.len() && #[trigger] selected(s[k], column, cutoff) implies !newer(s[k], s[i]) by {
            if k != i {
                assert(comes_before(s, i, k));
            }
        }
    }
}

/// The dashboard shows a reading exactly when there is at least one row.
pub proof fn law_reading_exists_iff_rows(s: Seq<SensorLog>, now: int)
    ensures
        stabilized(s, now) is Some <==> s.len() > 0,
{
    lemma_first_selected_spec(s, None, now - ONE_MINUTE_NANOS);
    if s.len() > 0 {
        assert(selected(s[0], None, now - ONE_MINUTE_NANOS));
    }
}

/// The reading's identity and timing are those of the newest row: no row is newer.
pub proof fn law_identity_is_newest_row(s: Seq<SensorLog>, now: int)
    requires
        s.len() > 0,
    ensures
        stabilized(s, now) matches Some(r) && exists|i: int|
            0 <= i < s.len() && s[i].id == r.id && s[i].timestamp_slot == r.timestamp_slot && (
            forall|j: int| 0 <= j < s.len() ==> !newer(#[trigger] s[j], s[i])),
{
    let c = now - ONE_MINUTE_NANOS;
    lemma_first_selected_spec(s, None, c);
    assert(selected(s[0], None, c));
    let i = first_selected(s, None, c)->0;
    assert forall|j: int| 0 <= j < s.len() implies !newer(#[trigger] s[j], s[i]) by {
        assert(selected(s[j], None, c));
    }
}

/// Each sensor column of the reading holds the newest non-`NULL` value among the
/// rows of the last minute, and is `NULL` exactly when no such row has a value.
pub proof fn law_column_is_newest_value_of_last_minute(s: Seq<SensorLog>, now: int, f: SensorField)
    requires
        s.len() > 0,
    ensures
        stabilized(s, now) matches Some(r) && {
            let c = now - ONE_MINUTE_NANOS;
            &&& (column_value(r, f) is Some <==> exists|j: int|
                0 <= j < s.len() && s[j].timestamp_slot >= c && #[trigger] has_value(s[j], f))
            &&& column_value(r, f) is Some ==> exists|j: int|
                0 <= j < s.len() && s[j].timestamp_slot >= c && #[trigger] column_value(s[j], f)
                    == column_value(r, f) && forall|k: int|
                    0 <= k < s.len() && s[k].timestamp_slot >= c && #[trigger] has_value(s[k], f)
                        ==> !newer(s[k], s[j])
        },
{
    let c = now - ONE_MINUTE_NANOS;
    law_reading_exists_iff_rows(s, now);
    lemma_first_selected_spec(s, Some(f), c);
    let r = stabilized(s, now)->0;
    assert forall|j: int| 0 <= j < s.len() implies (#[trigger] selected(s[j], Some(f), c) <==> (
    s[j].timestamp_slot >= c && has_value(s[j], f))) by {}
    match window_source(s, f, c) {
        Some(j) => {
            assert(column_value(r, f) == column_value(s[j], f));
            assert forall|k: int|
                0 <= k < s.len() && s[k].timestamp_slot >= c && #[trigger] has_value(s[k], f)
                    implies !newer(s[k], s[j]) by {
                assert(selected(s[k], Some(f), c));
            }
        },
        None => {
            assert(column_value(r, f) is None);
            assert forall|j: int|
                0 <= j < s.len() && s[j].timestamp_slot >= c implies !#[trigger] has_value(s[j], f) by {
                if has_value(s[j], f) {
                    assert(selected(s[j], Some(f), c));
                }
            }
        },
    }
}

} // verus!

verus! {

/// The reading is online exactly when a real (online) reading arrived in the last
/// minute; heartbeat rows alone never make it online.
pub proof fn law_online_iff_real_reading_in_last_minute(s: Seq<SensorLog>, now: int)
    requires
        s.len() > 0,
    ensures
        stabilized(s, now) matches Some(r) && (r.is_online <==> exists|j: int|
            0 <= j < s.len() && s[j].timestamp_slot >= now - ONE_MINUTE_NANOS
                && #[trigger] s[j].is_online),
        (forall|j: int|
            0 <= j < s.len() && s[j].timestamp_slot >= now - ONE_MINUTE_NANOS ==> is_heartbeat(
                #[trigger] s[j],
            )) ==> (stabilized(s, now) matches Some(r) && !r.is_online),
{
    law_reading_exists_iff_rows(s, now);
}

/// Once a minute has passed without any row, every sensor column is `NULL` and
/// the reading is offline.
pub proof fn law_expired_window_is_empty(s: Seq<SensorLog>, now: int)
    requires
        s.len() > 0,
        forall|j: int| 0 <= j < s.len() ==> #[trigger] s[j].timestamp_slot < now - ONE_MINUTE_NANOS,
    ensures
        stabilized(s, now) matches Some(r) && {
            &&& forall|f: SensorField| #[trigger] column_value(r, f) is None
            &&& !r.is_online
        },
{
    law_reading_exists_iff_rows(s, now);
    let r = stabilized(s, now)->0;
    assert forall|f: SensorField| #[trigger] column_value(r, f) is None by {
        law_column_is_newest_value_of_last_minute(s, now, f);
    }
}

proof fn lemma_first_selected_push_unselected(
    s: Seq<SensorLog>,
    h: SensorLog,
    column: Option<SensorField>,
    cutoff: int,
)
    requires
        !selected(h, column, cutoff),
    ensures
        first_selected(s.push(h), column, cutoff) == first_selected(s, column, cutoff),
{
    let t = s.push(h);
    assert forall|i: int| is_first_within(s, s.len() as int, column, cutoff, i)
        implies is_first_within(t, t.len() as int, column, cutoff, i) by {
        assert forall|j: int|
            0 <= j < t.len() && j != i && #[trigger] selected(t[j], column, cutoff) implies comes_before(
            t,
            i,
            j,
        ) by {
            assert(j < s.len());
            assert(selected(s[j], column, cutoff));
        }
    }
    assert forall|i: int| is_first_within(t, t.len() as int, column, cutoff, i)
        implies is_first_within(s, s.len() as int, column, cutoff, i) by {
        assert(i < s.len());
        assert forall|j: int|
            0 <= j < s.len() && j != i && #[trigger] selected(s[j], column, cutoff) implies comes_before(
            s,
            i,
            j,
        ) by {
            assert(t[j] == s[j]);
            assert(selected(t[j], column, cutoff));
        }
    }
    match first_selected(s, column, cutoff) {
        Some(i) => {
            lemma_first_selected_is(t, column, cutoff, i);
        },
        None => {
            if exists|i: int| is_first_within(t, t.len() as int, column, cutoff, i) {
                let i = choose|i: int| is_first_within(t, t.len() as int, column, cutoff, i);
                assert(is_first_within(s, s.len() as int, column, cutoff, i));
            }
        },
    }
}

/// A heartbeat row never changes the sensor values or the online state that the
/// dashboard shows; it only becomes the reading's identity when it is the newest row.
pub proof fn law_heartbeat_keeps_values(s: Seq<SensorLog>, h: SensorLog, now: int)
    requires
        s.len() > 0,
        is_heartbeat(h),
    ensures
        stabilized(s.push(h), now) matches Some(a) && stabilized(s, now) matches Some(b) && {
            &&& forall|f: SensorField| #[trigger] column_value(a, f) == column_value(b, f)
            &&& a.is_online == b.is_online
        },
{
    let c = now - ONE_MINUTE_NANOS;
    let t = s.push(h);
    law_reading_exists_iff_rows(s, now);
    law_reading_exists_iff_rows(t, now);
    assert forall|f: SensorField| #[trigger] window_source(t, f, c) == window_source(s, f, c) && (
    window_source(s, f, c) matches Some(j) ==> 0 <= j < s.len() && t[j] == s[j]) by {
        lemma_first_selected_push_unselected(s, h, Some(f), c);
        lemma_first_selected_spec(s, Some(f), c);
    }
    assert(online_within(t, c) == online_within(s, c)) by {
        if online_within(t, c) {
            let j = choose|j: int|
                0 <= j < t.len() && t[j].timestamp_slot >= c && #[trigger] t[j].is_online;
            assert(j < s.len());
            assert(s[j].is_online);
        }
        if online_within(s, c) {
            let j = choose|j: int|
                0 <= j < s.len() && s[j].timestamp_slot >= c && #[trigger] s[j].is_online;
            assert(t[j].is_online);
        }
    }
}

} // verus!

verus! {

/// No two rows share both timestamp and id (ids are the table's primary key).
pub open spec fn distinct_keys(s: Seq<SensorLog>) -> bool {
    forall|i: int, j: int|
        0 <= i < j < s.len() ==> !(#[trigger] s[i].timestamp_slot == #[trigger] s[j].timestamp_slot
            && s[i].id == s[j].id)
}

proof fn lemma_first_selected_same_rows_some(
    s: Seq<SensorLog>,
    t: Seq<SensorLog>,
    column: Option<SensorField>,
    cutoff: int,
)
    requires
        distinct_keys(s),
        distinct_keys(t),
        forall|r: SensorLog| s.contains(r) <==> t.contains(r),
        first_selected(s, column, cutoff) is Some,
    ensures
        first_selected(t, column, cutoff) matches Some(q) && s[first_selected(s, column, cutoff)->0]
            == t[q],
{
    let i = first_selected(s, column, cutoff)->0;
    lemma_first_selected_spec(s, column, cutoff);
    assert(s.contains(s[i]));
    let q = choose|q: int| 0 <= q < t.len() && t[q] == s[i];
    assert forall|j: int|
        0 <= j < t.len() && j != q && #[trigger] selected(t[j], column, cutoff) implies comes_before(
        t,
        q,
        j,
    ) by {
        assert(t.contains(t[j]));
        let k = choose|k: int| 0 <= k < s.len() && s[k] == t[j];
        assert(selected(s[k], column, cutoff));
        if k == i {
            if j < q {
                assert(t[j].timestamp_slot == t[q].timestamp_slot);
            } else {
                assert(t[q].timestamp_slot == t[j].timestamp_slot);
            }
        } else {
            assert(!newer(s[k], s[i]));
            if k < i {
                assert(s[k].timestamp_slot == s[i].timestamp_slot ==> s[k].id != s[i].id);
            } else {
                assert(s[i].timestamp_slot == s[k].timestamp_slot ==> s[i].id != s[k].id);
            }
        }
    }
    assert(is_first_within(t, t.len() as int, column, cutoff, q));
    lemma_first_selected_is(t, column, cutoff, q);
}

proof fn lemma_first_selected_same_rows(
    s: Seq<SensorLog>,
    t: Seq<SensorLog>,
    column: Option<SensorField>,
    cutoff: int,
)
    requires
        distinct_keys(s),
        distinct_keys(t),
        forall|r: SensorLog| s.contains(r) <==> t.contains(r),
    ensures
        first_selected(s, column, cutoff) is Some <==> first_selected(t, column, cutoff) is Some,
        first_selected(s, column, cutoff) is Some ==> s[first_selected(s, column, cutoff)->0]
            == t[first_selected(t, column, cutoff)->0],
        first_selected(s, column, cutoff) is Some ==> 0 <= first_selected(s, column, cutoff)->0 < s.len(),
        first_selected(t, column, cutoff) is Some ==> 0 <= first_selected(t, column, cutoff)->0 < t.len(),
{
    lemma_first_selected_spec(s, column, cutoff);
    lemma_first_selected_spec(t, column, cutoff);
    if first_selected(s, column, cutoff) is Some {
        lemma_first_selected_same_rows_some(s, t, column, cutoff);
    }
    if first_selected(t, column, cutoff) is Some {
        lemma_first_selected_same_rows_some(t, s, column, cutoff);
    }
}

/// The order in which the database returns the rows does not matter: the same
/// rows, with distinct (timestamp, id) keys, always give the same reading.
pub proof fn law_row_order_does_not_matter(s: Seq<SensorLog>, t: Seq<SensorLog>, now: int)
    requires
        distinct_keys(s),
        distinct_keys(t),
        forall|r: SensorLog| s.contains(r) <==> t.contains(r),
    ensures
        stabilized(s, now) == stabilized(t, now),
{
    let c = now - ONE_MINUTE_NANOS;
    lemma_first_selected_same_rows(s, t, None, c);
    assert forall|f: SensorField| #[trigger] window_source(s, f, c) is Some <==> window_source(
        t,
        f,
        c,
    ) is Some && (window_source(s, f, c) is Some ==> s[window_source(s, f, c)->0] == t[window_source(
        t,
        f,
        c,
    )->0]) by {
        lemma_first_selected_same_rows(s, t, Some(f), c);
    }
    assert(online_within(s, c) == online_within(t, c)) by {
        if online_within(s, c) {
            let j = choose|j: int|
                0 <= j < s.len() && s[j].timestamp_slot >= c && #[trigger] s[j].is_online;
            assert(s.contains(s[j]));
            let k = choose|k: int| 0 <= k < t.len() && t[k] == s[j];
            assert(t[k].is_online);
        }
        if online_within(t, c) {
            let j = choose|j: int|
                0 <= j < t.len() && t[j].timestamp_slot >= c && #[trigger] t[j].is_online;
            assert(t.contains(t[j]));
            let k = choose|k: int| 0 <= k < s.len() && s[k] == t[j];
            assert(s[k].is_online);
        }
    }
}

} // verus!

verus! {

/// Nanoseconds in a day.
pub const NANOS_PER_DAY: i128 = 86_400_000_000_000;

/// Day number (counted from January 1 of year 1, which is day 1) of January 1, 1970.
pub const UNIX_EPOCH_DAY: i32 = 719_163;

/// Day number of the earliest calendar date (January 1 of year -262143, that is 262144 BCE).
pub const FIRST_DAY: i32 = -95_746_129;

/// Day number of the latest calendar date (December 31, 262142).
pub const LAST_DAY: i32 = 95_745_399;

/// What `chrono::NaiveDate::parse_from_str(s, "%Y-%m-%d")` returns, as the date's
/// day number (`num_days_from_ce`); `None` when it fails.
pub uninterp spec fn parsed_day(s: Seq<char>) -> Option<int>;

/// `chrono::NaiveDate::parse_from_str(s, "%Y-%m-%d")`, as the parsed date's day
/// number. A date lies between the earliest and the latest calendar date.
#[verifier::external_body]
fn parse_day(s: &str) -> (r: Option<i32>)
    ensures
        r is Some <==> parsed_day(s@) is Some,
        r matches Some(d) ==> parsed_day(s@) == Some(d as int) && FIRST_DAY <= d <= LAST_DAY,
{
    match chrono::NaiveDate::parse_from_str(s, "%Y-%m-%d") {
        Ok(d) => Some(chrono::Datelike::num_days_from_ce(&d)),
        Err(_) => None,
    }
}

/// The UTC day of a day number, as its start and end instants (nanoseconds since
/// the Unix epoch; start included, end excluded).
pub fn day_window(day: i32) -> (w: (i128, i128))
    requires
        FIRST_DAY <= day < LAST_DAY,
    ensures
        w.0 == (day - UNIX_EPOCH_DAY) * NANOS_PER_DAY,
        w.1 == w.0 + NANOS_PER_DAY,
{
    let start = (day as i128 - UNIX_EPOCH_DAY as i128) * NANOS_PER_DAY;
    (start, start + NANOS_PER_DAY)
}

/// The message for a date that does not parse.
pub open spec fn invalid_date_message(date: Seq<char>) -> Seq<char> {
    "Invalid date format: '"@ + date + "'. Expected YYYY-MM-DD"@
}

/// The history window for `date`, given the day that `date` parsed to (`None` when
/// it did not parse): the UTC day of that date; 400 for a date that did not parse;
/// no window (`None`) for the latest calendar date, whose end cannot be represented.
pub fn history_window_of_day(date: &str, day: Option<i32>) -> (r: Option<Result<(i128, i128), AppError>>)
    requires
        day matches Some(d) ==> FIRST_DAY <= d <= LAST_DAY,
    ensures
        match day {
            None => r matches Some(Err(AppError::BadRequest(m))) && m@ == invalid_date_message(date@),
            Some(d) => if d == LAST_DAY {
                r is None
            } else {
                r matches Some(Ok(w)) && w.0 == (d - UNIX_EPOCH_DAY) * NANOS_PER_DAY && w.1 == w.0
                    + NANOS_PER_DAY
            },
        },
{
    match day {
        None => {
            let msg = String::from_str("Invalid date format: '").concat(date).concat(
                "'. Expected YYYY-MM-DD",
            );
            Some(Err(AppError::BadRequest(msg)))
        },
        Some(d) => {
            if d == LAST_DAY {
                None
            } else {
                Some(Ok(day_window(d)))
            }
        },
    }
}

/// The instants that GET /sensors/history covers for a `YYYY-MM-DD` date: the UTC
/// day of that date. A date that does not parse is refused with 400. For the latest
/// calendar date the day's end cannot be represented: there is no window (`None`).
pub fn history_window(date: &str) -> (r: Option<Result<(i128, i128), AppError>>)
    ensures
        match parsed_day(date@) {
            None => r matches Some(Err(AppError::BadRequest(m))) && m@ == invalid_date_message(date@),
            Some(d) => if d == LAST_DAY {
                r is None
            } else {
                r matches Some(Ok(w)) && w.0 == (d - UNIX_EPOCH_DAY) * NANOS_PER_DAY && w.1 == w.0
                    + NANOS_PER_DAY
            },
        },
{
    history_window_of_day(date, parse_day(date))
}

} // verus!
