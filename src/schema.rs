//! The trip record schema: the ordered list of field names and their kinds.
use vstd::prelude::*;

verus! {

/// Number of positional fields in one trip record.
pub const FIELD_COUNT: usize = 51;

/// The declared kind of a field, which decides how its text is read.
#[derive(Clone, Copy, Debug, PartialEq, Eq, Structural)]
pub enum FieldKind {
    /// Text kept verbatim.
    Text,
    /// A UTC instant written `YYYY-MM-DD HH:MM:SS`.
    Timestamp,
    /// A required 64-bit float.
    Float,
    /// A 64-bit float that an empty field leaves absent.
    OptionalFloat,
    /// A required 64-bit signed integer.
    Int64,
    /// A required 32-bit signed integer.
    Int32,
    /// A 32-bit signed integer that an empty field leaves absent.
    OptionalInt32,
}

/// The kind of the field at position `i`.
pub open spec fn spec_kind(i: int) -> FieldKind {
    if i == 0 {
        FieldKind::Text
    } else if i == 1 {
        FieldKind::Text
    } else if i == 2 {
        FieldKind::Timestamp
    } else if i == 3 {
        FieldKind::Timestamp
    } else if i == 4 {
        FieldKind::Text
    } else if i == 5 {
        FieldKind::Text
    } else if i == 6 {
        FieldKind::OptionalFloat
    } else if i == 7 {
        FieldKind::OptionalFloat
    } else if i == 8 {
        FieldKind::OptionalFloat
    } else if i == 9 {
        FieldKind::OptionalFloat
    } else if i == 10 {
        FieldKind::Int64
    } else if i == 11 {
        FieldKind::Float
    } else if i == 12 {
        FieldKind::Float
    } else if i == 13 {
        FieldKind::Float
    } else if i == 14 {
        FieldKind::Float
    } else if i == 15 {
        FieldKind::Float
    } else if i == 16 {
        FieldKind::Float
    } else if i == 17 {
        FieldKind::OptionalFloat
    } else if i == 18 {
        FieldKind::OptionalFloat
    } else if i == 19 {
        FieldKind::Float
    } else if i == 20 {
        FieldKind::Int32
    } else if i == 21 {
        FieldKind::OptionalInt32
    } else if i == 22 {
        FieldKind::Text
    } else if i == 23 {
        FieldKind::Text
    } else if i == 24 {
        FieldKind::Text
    } else if i == 25 {
        FieldKind::Float
    } else if i == 26 {
        FieldKind::Float
    } else if i == 27 {
        FieldKind::Float
    } else if i == 28 {
        FieldKind::Float
    } else if i == 29 {
        FieldKind::Float
    } else if i == 30 {
        FieldKind::Float
    } else if i == 31 {
        FieldKind::Text
    } else if i == 32 {
        FieldKind::Text
    } else if i == 33 {
        FieldKind::Text
    } else if i == 34 {
        FieldKind::Text
    } else if i == 35 {
        FieldKind::Text
    } else if i == 36 {
        FieldKind::Text
    } else if i == 37 {
        FieldKind::Text
    } else if i == 38 {
        FieldKind::Text
    } else if i == 39 {
        FieldKind::Text
    } else if i == 40 {
        FieldKind::Text
    } else if i == 41 {
        FieldKind::Text
    } else if i == 42 {
        FieldKind::Text
    } else if i == 43 {
        FieldKind::Text
    } else if i == 44 {
        FieldKind::Text
    } else if i == 45 {
        FieldKind::Text
    } else if i == 46 {
        FieldKind::Text
    } else if i == 47 {
        FieldKind::Text
    } else if i == 48 {
        FieldKind::Text
    } else if i == 49 {
        FieldKind::Text
    } else {
        FieldKind::Text
    }
}

/// The name of the field at position `i`.
pub open spec fn spec_name(i: int) -> Seq<char> {
    if i == 0 {
        "id"@
    } else if i == 1 {
        "vendor_id"@
    } else if i == 2 {
        "pickup_datetime"@
    } else if i == 3 {
        "dropoff_datetime"@
    } else if i == 4 {
        "store_and_fwd_flag"@
    } else if i == 5 {
        "rate_code_id"@
    } else if i == 6 {
        "pickup_longitude"@
    } else if i == 7 {
        "pickup_latitude"@
    } else if i == 8 {
        "dropoff_longitude"@
    } else if i == 9 {
        "dropoff_latitude"@
    } else if i == 10 {
        "passenger_count"@
    } else if i == 11 {
        "trip_distance"@
    } else if i == 12 {
        "fare_amount"@
    } else if i == 13 {
        "extra"@
    } else if i == 14 {
        "mta_tax"@
    } else if i == 15 {
        "tip_amount"@
    } else if i == 16 {
        "tolls_amount"@
    } else if i == 17 {
        "ehail_fee"@
    } else if i == 18 {
        "improvement_surcharge"@
    } else if i == 19 {
        "total_amount"@
    } else if i == 20 {
        "payment_type"@
    } else if i == 21 {
        "trip_type"@
    } else if i == 22 {
        "pickup_location_id"@
    } else if i == 23 {
        "dropoff_location_id"@
    } else if i == 24 {
        "cab_type"@
    } else if i == 25 {
        "precipitation"@
    } else if i == 26 {
        "snow_depth"@
    } else if i == 27 {
        "snowfall"@
    } else if i == 28 {
        "max_temp"@
    } else if i == 29 {
        "min_temp"@
    } else if i == 30 {
        "wind"@
    } else if i == 31 {
        "pickup_nyct2010_gid"@
    } else if i == 32 {
        "pickup_ctlabel"@
    } else if i == 33 {
        "pickup_borocode"@
    } else if i == 34 {
        "pickup_boroname"@
    } else if i == 35 {
        "pickup_ct2010"@
    } else if i == 36 {
        "pickup_boroct2010"@
    } else if i == 37 {
        "pickup_cdeligibil"@
    } else if i == 38 {
        "pickup_ntacode"@
    } else if i == 39 {
        "pickup_ntaname"@
    } else if i == 40 {
        "pickup_puma"@
    } else if i == 41 {
        "dropoff_nyct2010_gid"@
    } else if i == 42 {
        "dropoff_ctlabel"@
    } else if i == 43 {
        "dropoff_borocode"@
    } else if i == 44 {
        "dropoff_boroname"@
    } else if i == 45 {
        "dropoff_ct2010"@
    } else if i == 46 {
        "dropoff_boroct2010"@
    } else if i == 47 {
        "dropoff_cdeligibil"@
    } else if i == 48 {
        "dropoff_ntacode"@
    } else if i == 49 {
        "dropoff_ntaname"@
    } else {
        "dropoff_puma"@
    }
}

/// The kind of the field at position `i`.
pub fn field_kind(i: usize) -> (r: FieldKind)
    requires
        i < FIELD_COUNT,
    ensures
        r == spec_kind(i as int),
{
    match i {
        0 => FieldKind::Text,
        1 => FieldKind::Text,
        2 => FieldKind::Timestamp,
        3 => FieldKind::Timestamp,
        4 => FieldKind::Text,
        5 => FieldKind::Text,
        6 => FieldKind::OptionalFloat,
        7 => FieldKind::OptionalFloat,
        8 => FieldKind::OptionalFloat,
        9 => FieldKind::OptionalFloat,
        10 => FieldKind::Int64,
        11 => FieldKind::Float,
        12 => FieldKind::Float,
        13 => FieldKind::Float,
        14 => FieldKind::Float,
        15 => FieldKind::Float,
        16 => FieldKind::Float,
        17 => FieldKind::OptionalFloat,
        18 => FieldKind::OptionalFloat,
        19 => FieldKind::Float,
        20 => FieldKind::Int32,
        21 => FieldKind::OptionalInt32,
        22 => FieldKind::Text,
        23 => FieldKind::Text,
        24 => FieldKind::Text,
        25 => FieldKind::Float,
        26 => FieldKind::Float,
        27 => FieldKind::Float,
        28 => FieldKind::Float,
        29 => FieldKind::Float,
        30 => FieldKind::Float,
        31 => FieldKind::Text,
        32 => FieldKind::Text,
        33 => FieldKind::Text,
        34 => FieldKind::Text,
        35 => FieldKind::Text,
        36 => FieldKind::Text,
        37 => FieldKind::Text,
        38 => FieldKind::Text,
        39 => FieldKind::Text,
        40 => FieldKind::Text,
        41 => FieldKind::Text,
        42 => FieldKind::Text,
        43 => FieldKind::Text,
        44 => FieldKind::Text,
        45 => FieldKind::Text,
        46 => FieldKind::Text,
        47 => FieldKind::Text,
        48 => FieldKind::Text,
        49 => FieldKind::Text,
        _ => FieldKind::Text,
    }
}

/// The name of the field at position `i`.
pub fn field_name(i: usize) -> (r: &'static str)
    requires
        i < FIELD_COUNT,
    ensures
        r@ == spec_name(i as int),
{
    match i {
        0 => "id",
        1 => "vendor_id",
        2 => "pickup_datetime",
        3 => "dropoff_datetime",
        4 => "store_and_fwd_flag",
        5 => "rate_code_id",
        6 => "pickup_longitude",
        7 => "pickup_latitude",
        8 => "dropoff_longitude",
        9 => "dropoff_latitude",
        10 => "passenger_count",
        11 => "trip_distance",
        12 => "fare_amount",
        13 => "extra",
        14 => "mta_tax",
        15 => "tip_amount",
        16 => "tolls_amount",
        17 => "ehail_fee",
        18 => "improvement_surcharge",
        19 => "total_amount",
        20 => "payment_type",
        21 => "trip_type",
        22 => "pickup_location_id",
        23 => "dropoff_location_id",
        24 => "cab_type",
        25 => "precipitation",
        26 => "snow_depth",
        27 => "snowfall",
        28 => "max_temp",
        29 => "min_temp",
        30 => "wind",
        31 => "pickup_nyct2010_gid",
        32 => "pickup_ctlabel",
        33 => "pickup_borocode",
        34 => "pickup_boroname",
        35 => "pickup_ct2010",
        36 => "pickup_boroct2010",
        37 => "pickup_cdeligibil",
        38 => "pickup_ntacode",
        39 => "pickup_ntaname",
        40 => "pickup_puma",
        41 => "dropoff_nyct2010_gid",
        42 => "dropoff_ctlabel",
        43 => "dropoff_borocode",
        44 => "dropoff_boroname",
        45 => "dropoff_ct2010",
        46 => "dropoff_boroct2010",
        47 => "dropoff_cdeligibil",
        48 => "dropoff_ntacode",
        49 => "dropoff_ntaname",
        _ => "dropoff_puma",
    }
}

} // verus!
