use sat_tracker::errors::TrackError;
use sat_tracker::grid::lat_long_to_ascii_coords;

#[test]
fn boundary_clamping_south_west() {
    let p = lat_long_to_ascii_coords(-90_000, -180_000, 100, 50).unwrap();
    assert_eq!(p.x, 0);
    assert_eq!(p.y, 49);
}

#[test]
fn boundary_clamping_north_east() {
    let p = lat_long_to_ascii_coords(90_000, 180_000, 100, 50).unwrap();
    assert_eq!(p.x, 99);
    assert_eq!(p.y, 0);
}

#[test]
fn center_mapping() {
    let p = lat_long_to_ascii_coords(0, 0, 100, 50).unwrap();
    assert_eq!(p.x, 50);
    assert_eq!(p.y, 25);
}

#[test]
fn in_domain_points_stay_in_bounds() {
    let samples: Vec<(i64, i64)> = vec![
        (40_000, -74_000),
        (41_000, -73_000),
        (-33_868, 151_209),
        (89_999, -179_999),
        (-89_999, 179_999),
        (1, -1),
    ];
    for (lat, lon) in samples {
        let p = lat_long_to_ascii_coords(lat, lon, 100, 50).unwrap();
        assert!(p.x < 100);
        assert!(p.y < 50);
        let q = lat_long_to_ascii_coords(lat, lon, 7, 3).unwrap();
        assert!(q.x < 7);
        assert!(q.y < 3);
    }
}

#[test]
fn out_of_domain_is_rejected() {
    assert_eq!(
        lat_long_to_ascii_coords(90_001, 0, 100, 50),
        Err(TrackError::InvalidCoordinate)
    );
    assert_eq!(
        lat_long_to_ascii_coords(-90_001, 0, 100, 50),
        Err(TrackError::InvalidCoordinate)
    );
    assert_eq!(
        lat_long_to_ascii_coords(0, 180_001, 100, 50),
        Err(TrackError::InvalidCoordinate)
    );
    assert_eq!(
        lat_long_to_ascii_coords(0, -180_001, 100, 50),
        Err(TrackError::InvalidCoordinate)
    );
}
