//! Validation of incoming sensor readings: which fields are checked, against
//! which configured range, in which order, and which failure is reported.
//!
//! Whether one measured value lies in its range is a comparison of measured
//! quantities and is handed in as a [`RangeCheck`] per field.

use vstd::prelude::*;

verus! {

/// Number of fields checked in a reading.
pub const CHECKED_FIELD_COUNT: usize = 11;

/// The configured range a field is checked against.
#[derive(Debug, Clone, Copy, PartialEq, Eq, Structural)]
pub enum RangeKind {
    /// `angle_range_deg`.
    Angle,
    /// `elevation_range_deg`.
    Elevation,
    /// `temperature_range_c`.
    Temperature,
    /// `humidity_range_pct`.
    Humidity,
    /// From 0 to `max_wear_level`.
    Wear,
    /// From 0 to `max_error_arcmin`.
    MeshingError,
}

/// How one field fared against its range.
#[derive(Debug, Clone, Copy, PartialEq, Eq, Structural)]
pub enum RangeCheck {
    InRange,
    /// The value is NaN or infinite.
    NotFinite,
    /// The value is finite but outside the range.
    OutOfRange,
}

/// The name of the field checked at position `i`.
pub open spec fn field_name_of(i: int) -> Seq<char> {
    if i == 0 {
        "axis_azimuth_angle"@
    } else if i == 1 {
        "axis_elevation_angle"@
    } else if i == 2 {
        "axis_equatorial_angle"@
    } else if i == 3 {
        "temperature"@
    } else if i == 4 {
        "humidity"@
    } else if i == 5 {
        "gear_wear_level_1"@
    } else if i == 6 {
        "gear_wear_level_2"@
    } else if i == 7 {
        "gear_wear_level_3"@
    } else if i == 8 {
        "gear_meshing_error_1"@
    } else if i == 9 {
        "gear_meshing_error_2"@
    } else {
        "gear_meshing_error_3"@
    }
}

/// The range the field at position `i` is checked against.
pub open spec fn field_range_of(i: int) -> RangeKind {
    if i == 0 || i == 2 {
        RangeKind::Angle
    } else if i == 1 {
        RangeKind::Elevation
    } else if i == 3 {
        RangeKind::Temperature
    } else if i == 4 {
        RangeKind::Humidity
    } else if 5 <= i <= 7 {
        RangeKind::Wear
    } else {
        RangeKind::MeshingError
    }
}

/// The name of the field checked at position `i`, in checking order:
/// the three axis angles, temperature, humidity, the three gear wear levels
/// and the three gear meshing errors.
pub fn checked_field_name(i: usize) -> (r: &'static str)
    requires
        i < CHECKED_FIELD_COUNT,
    ensures
        r@ == field_name_of(i as int),
{
    if i == 0 {
        "axis_azimuth_angle"
    } else if i == 1 {
        "axis_elevation_angle"
    } else if i == 2 {
        "axis_equatorial_angle"
    } else if i == 3 {
        "temperature"
    } else if i == 4 {
        "humidity"
    } else if i == 5 {
        "gear_wear_level_1"
    } else if i == 6 {
        "gear_wear_level_2"
    } else if i == 7 {
        "gear_wear_level_3"
    } else if i == 8 {
        "gear_meshing_error_1"
    } else if i == 9 {
        "gear_meshing_error_2"
    } else {
        "gear_meshing_error_3"
    }
}

/// The range the field at position `i` is checked against.
pub fn checked_field_range(i: usize) -> (r: RangeKind)
    requires
        i < CHECKED_FIELD_COUNT,
    ensures
        r == field_range_of(i as int),
{
    if i == 0 || i == 2 {
        RangeKind::Angle
    } else if i == 1 {
        RangeKind::Elevation
    } else if i == 3 {
        RangeKind::Temperature
    } else if i == 4 {
        RangeKind::Humidity
    } else if 5 <= i && i <= 7 {
        RangeKind::Wear
    } else {
        RangeKind::MeshingError
    }
}

/// A reading's validation failure: the position of the field and how it failed.
#[derive(Debug, Clone, Copy, PartialEq, Eq, Structural)]
pub struct ValidationFailure {
    pub field: usize,
    pub check: RangeCheck,
}

/// The failure a reading with per-field outcomes `checks` is refused for:
/// the first field, in checking order, that is not in range.
pub fn first_failure(checks: &[RangeCheck; 11]) -> (r: Option<ValidationFailure>)
    ensures
        match r {
            Some(f) => {
                &&& f.field < CHECKED_FIELD_COUNT
                &&& f.check == checks@[f.field as int]
                &&& f.check != RangeCheck::InRange
                &&& forall|j: int| 0 <= j < f.field ==> checks@[j] == RangeCheck::InRange
            },
            None => forall|j: int| 0 <= j < 11 ==> checks@[j] == RangeCheck::InRange,
        },
{
    let mut i: usize = 0;
    while i < 11
        invariant
            i <= 11,
            forall|j: int| 0 <= j < i ==> checks@[j] == RangeCheck::InRange,
        decreases 11 - i,
    {
        if checks[i] != RangeCheck::InRange {
            return Some(ValidationFailure { field: i, check: checks[i] });
        }
        i = i + 1;
    }
    None
}

/// `s` begins with `p`.
pub open spec fn starts_with(s: Seq<char>, p: Seq<char>) -> bool {
    p.len() <= s.len() && s.take(p.len() as int) == p
}

/// Every checked field is held to the range its name calls for: the
/// `gear_wear_level_*` fields, and only they, to the wear range; the
/// `gear_meshing_error_*` fields, and only they, to the meshing-error range;
/// `axis_elevation_angle` to the elevation range; the other two axis angles to
/// the angle range; `temperature` and `humidity` to their own ranges.
pub proof fn law_fields_use_the_range_their_name_calls_for(i: int)
    requires
        0 <= i < CHECKED_FIELD_COUNT,
    ensures
        (field_range_of(i) == RangeKind::Wear) == starts_with(field_name_of(i), "gear_wear_level_"@),
        (field_range_of(i) == RangeKind::MeshingError) == starts_with(
            field_name_of(i),
            "gear_meshing_error_"@,
        ),
        (field_range_of(i) == RangeKind::Elevation) == (field_name_of(i) == "axis_elevation_angle"@),
        (field_range_of(i) == RangeKind::Angle) == (field_name_of(i) == "axis_azimuth_angle"@
            || field_name_of(i) == "axis_equatorial_angle"@),
        (field_range_of(i) == RangeKind::Temperature) == (field_name_of(i) == "temperature"@),
        (field_range_of(i) == RangeKind::Humidity) == (field_name_of(i) == "humidity"@),
{
    reveal_strlit("gear_wear_level_");
    reveal_strlit("gear_meshing_error_");
    reveal_strlit("axis_azimuth_angle");
    reveal_strlit("axis_elevation_angle");
    reveal_strlit("axis_equatorial_angle");
    reveal_strlit("temperature");
    reveal_strlit("humidity");
    reveal_strlit("gear_wear_level_1");
    reveal_strlit("gear_wear_level_2");
    reveal_strlit("gear_wear_level_3");
    reveal_strlit("gear_meshing_error_1");
    reveal_strlit("gear_meshing_error_2");
    reveal_strlit("gear_meshing_error_3");
    let n = field_name_of(i);
    let w = "gear_wear_level_"@;
    let m = "gear_meshing_error_"@;
    let e = "axis_elevation_angle"@;
    assert(e.len() == 20);
    assert("temperature"@.len() == 11);
    assert("humidity"@.len() == 8);
    assert("axis_azimuth_angle"@.len() == 18);
    assert("axis_equatorial_angle"@.len() == 21);
    if i == 0 {
        assert(n.len() == 18);
    } else if i == 1 {
        assert(n.len() == 20);
    } else if i == 2 {
        assert(n.len() == 21);
    } else if i == 3 {
        assert(n.len() == 11);
    } else if i == 4 {
        assert(n.len() == 8);
    } else if 5 <= i <= 7 {
        assert(n.len() == 17);
    } else {
        assert(n.len() == 20);
        assert(n[0] != e[0]);
    }
    if 5 <= i <= 7 {
        assert(n.take(16) =~= w);
        assert(!starts_with(n, m)) by {
            assert(n[5] != m[5]);
        }
    } else if 8 <= i <= 10 {
        assert(n.take(19) =~= m);
        assert(!starts_with(n, w)) by {
            assert(n[5] != w[5]);
        }
    } else {
        assert(!starts_with(n, w)) by {
            if w.len() <= n.len() {
                assert(n.take(16)[0] != w[0] || n.take(16)[1] != w[1]);
            }
        }
        assert(!starts_with(n, m)) by {
            if m.len() <= n.len() {
                assert(n.take(19)[0] != m[0] || n.take(19)[1] != m[1]);
            }
        }
    }
}

} // verus!
