use cardiotrust::scenario::SensorArrayGeometry::{Cube, Cylinder, SparseCube};
use cardiotrust::scenario::{
    data_editable, heart_rows, origin_reset, sensor_rows, HeartRow, OriginDefault,
    SensorArrayGeometry, SensorArrayMotion, SensorRow, Status,
};

#[test]
fn editable_only_while_planning() {
    assert!(data_editable(Status::Planning));
    assert!(!data_editable(Status::Done));
    assert!(!data_editable(Status::Running(3)));
    assert!(!data_editable(Status::Aborted));
    assert!(!data_editable(Status::Scheduled));
    assert!(!data_editable(Status::Simulating));
}

#[test]
fn origin_reset_on_geometry_change() {
    assert_eq!(origin_reset(Cube, Cube), None);
    assert_eq!(origin_reset(Cylinder, Cylinder), None);
    assert_eq!(origin_reset(Cylinder, Cube), Some(OriginDefault::Cube));
    assert_eq!(origin_reset(Cylinder, SparseCube), Some(OriginDefault::Cube));
    assert_eq!(origin_reset(Cube, Cylinder), Some(OriginDefault::Cylinder));
    // switching between the two cube layouts resets too
    assert_eq!(origin_reset(Cube, SparseCube), Some(OriginDefault::Cube));
    assert_eq!(origin_reset(SparseCube, Cube), Some(OriginDefault::Cube));
}

#[test]
fn sensor_rows_cube_static() {
    assert_eq!(
        sensor_rows(SensorArrayGeometry::Cube, SensorArrayMotion::Static),
        vec![
            SensorRow::Geometry,
            SensorRow::Motion,
            SensorRow::ThreeDSensors,
            SensorRow::Origin,
            SensorRow::SensorsPerAxis,
            SensorRow::ArraySize,
        ]
    );
}

#[test]
fn sensor_rows_sparse_cube_grid() {
    assert_eq!(
        sensor_rows(SensorArrayGeometry::SparseCube, SensorArrayMotion::Grid),
        vec![
            SensorRow::Geometry,
            SensorRow::Motion,
            SensorRow::ThreeDSensors,
            SensorRow::Origin,
            SensorRow::SensorsPerAxis,
            SensorRow::ArraySize,
            SensorRow::NumberOfSensors,
            SensorRow::MotionRange,
            SensorRow::MotionSteps,
        ]
    );
}

#[test]
fn sensor_rows_cylinder() {
    assert_eq!(
        sensor_rows(SensorArrayGeometry::Cylinder, SensorArrayMotion::Static),
        vec![
            SensorRow::Geometry,
            SensorRow::Motion,
            SensorRow::ThreeDSensors,
            SensorRow::Origin,
            SensorRow::ArrayRadius,
            SensorRow::NumberOfSensors,
        ]
    );
    assert_eq!(
        sensor_rows(SensorArrayGeometry::Cylinder, SensorArrayMotion::Grid).len(),
        8
    );
}

#[test]
fn heart_size_row_only_for_handcrafted() {
    assert_eq!(
        heart_rows(true),
        vec![HeartRow::VoxelSize, HeartRow::HeartOffset, HeartRow::HeartSize]
    );
    assert_eq!(heart_rows(false), vec![HeartRow::VoxelSize, HeartRow::HeartOffset]);
}
