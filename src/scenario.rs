//! The decisions behind the scenario data form: when it may be edited, which
//! rows it shows, and when a change of sensor geometry resets the array origin.
use vstd::prelude::*;

verus! {

/// Where a scenario stands in its lifecycle.
#[derive(Debug, Clone, Copy, PartialEq, Eq, Structural)]
pub enum Status {
    Planning,
    Done,
    Running(usize),
    Aborted,
    Scheduled,
    Simulating,
}

/// The spatial layout of the sensor array.
#[derive(Debug, Clone, Copy, PartialEq, Eq, Structural)]
pub enum SensorArrayGeometry {
    Cube,
    SparseCube,
    Cylinder,
}

/// Whether the sensor array stays put or moves along a grid.
#[derive(Debug, Clone, Copy, PartialEq, Eq, Structural)]
pub enum SensorArrayMotion {
    Static,
    Grid,
}

/// Which default sensor array origin a geometry uses.
#[derive(Debug, Clone, Copy, PartialEq, Eq, Structural)]
pub enum OriginDefault {
    Cube,
    Cylinder,
}

/// A row of the sensor settings table.
#[derive(Debug, Clone, Copy, PartialEq, Eq, Structural)]
pub enum SensorRow {
    Geometry,
    Motion,
    ThreeDSensors,
    Origin,
    SensorsPerAxis,
    ArraySize,
    ArrayRadius,
    NumberOfSensors,
    MotionRange,
    MotionSteps,
}

/// A row of the general heart settings table.
#[derive(Debug, Clone, Copy, PartialEq, Eq, Structural)]
pub enum HeartRow {
    VoxelSize,
    HeartOffset,
    HeartSize,
}

/// The data form can be edited only while the scenario is being planned.
pub fn data_editable(status: Status) -> (r: bool)
    ensures
        r == (status == Status::Planning),
{
    match status {
        Status::Planning => true,
        _ => false,
    }
}

/// The default origin of a geometry: the cube one for both cube layouts.
pub open spec fn origin_default_of(g: SensorArrayGeometry) -> OriginDefault {
    match g {
        SensorArrayGeometry::Cylinder => OriginDefault::Cylinder,
        _ => OriginDefault::Cube,
    }
}

/// The origin default to write after the geometry changed from `before` to
/// `after`; `None` when it did not change. Any change resets the origin, also
/// one between the two cube layouts.
pub fn origin_reset(before: SensorArrayGeometry, after: SensorArrayGeometry) -> (r: Option<
    OriginDefault,
>)
    ensures
        r == if before == after {
            None
        } else {
            Some(origin_default_of(after))
        },
{
    if before == after {
        None
    } else {
        match after {
            SensorArrayGeometry::Cylinder => Some(OriginDefault::Cylinder),
            _ => Some(OriginDefault::Cube),
        }
    }
}

/// The rows of the sensor settings table, in order: the four rows every
/// layout has; sensors per axis and array size for the cube layouts, else the
/// radius; the number of sensors unless the layout is a full cube; and the
/// motion range and steps when the array moves along a grid.
pub open spec fn sensor_rows_spec(g: SensorArrayGeometry, m: SensorArrayMotion) -> Seq<SensorRow> {
    let always = seq![
        SensorRow::Geometry,
        SensorRow::Motion,
        SensorRow::ThreeDSensors,
        SensorRow::Origin,
    ];
    let shape = if g == SensorArrayGeometry::Cylinder {
        seq![SensorRow::ArrayRadius]
    } else {
        seq![SensorRow::SensorsPerAxis, SensorRow::ArraySize]
    };
    let count = if g == SensorArrayGeometry::Cube {
        Seq::empty()
    } else {
        seq![SensorRow::NumberOfSensors]
    };
    let motion = if m == SensorArrayMotion::Grid {
        seq![SensorRow::MotionRange, SensorRow::MotionSteps]
    } else {
        Seq::empty()
    };
    always + shape + count + motion
}

/// The rows of the sensor settings table for geometry `g` and motion `m`.
pub fn sensor_rows(g: SensorArrayGeometry, m: SensorArrayMotion) -> (r: Vec<SensorRow>)
    ensures
        r@ == sensor_rows_spec(g, m),
{
    let mut r: Vec<SensorRow> = Vec::new();
    r.push(SensorRow::Geometry);
    r.push(SensorRow::Motion);
    r.push(SensorRow::ThreeDSensors);
    r.push(SensorRow::Origin);
    match g {
        SensorArrayGeometry::Cylinder => {
            r.push(SensorRow::ArrayRadius);
        },
        _ => {
            r.push(SensorRow::SensorsPerAxis);
            r.push(SensorRow::ArraySize);
        },
    }
    match g {
        SensorArrayGeometry::Cube => {},
        _ => {
            r.push(SensorRow::NumberOfSensors);
        },
    }
    match m {
        SensorArrayMotion::Grid => {
            r.push(SensorRow::MotionRange);
            r.push(SensorRow::MotionSteps);
        },
        SensorArrayMotion::Static => {},
    }
    assert(r@ =~= sensor_rows_spec(g, m));
    r
}

/// The rows of the general heart settings table, in order: voxel size and heart
/// offset always, heart size exactly when the model is handcrafted.
pub open spec fn heart_rows_spec(handcrafted: bool) -> Seq<HeartRow> {
    if handcrafted {
        seq![HeartRow::VoxelSize, HeartRow::HeartOffset, HeartRow::HeartSize]
    } else {
        seq![HeartRow::VoxelSize, HeartRow::HeartOffset]
    }
}

/// The rows of the general heart settings table.
pub fn heart_rows(handcrafted: bool) -> (r: Vec<HeartRow>)
    ensures
        r@ == heart_rows_spec(handcrafted),
{
    let mut r: Vec<HeartRow> = Vec::new();
    r.push(HeartRow::VoxelSize);
    r.push(HeartRow::HeartOffset);
    if handcrafted {
        r.push(HeartRow::HeartSize);
    }
    assert(r@ =~= heart_rows_spec(handcrafted));
    r
}

} // verus!
