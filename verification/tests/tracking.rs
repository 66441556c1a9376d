use sat_tracker::catalog::{first_position, Satellite, SearchResponse};
use sat_tracker::errors::TrackError;
use sat_tracker::grid::GridPoint;
use sat_tracker::track::TrackingSession;
use sat_tracker::trail::TrailBuffer;

const MARKER: char = '\u{2206}';

fn point(x: u32, y: u32) -> GridPoint {
    GridPoint { x, y }
}

#[test]
fn trail_bulk_eviction_once() {
    // Recording 2 * width + 1 points triggers exactly one eviction that
    // drops the width / 2 oldest entries in one batch.
    let width: u32 = 4;
    let mut trail = TrailBuffer::new(width);
    let total = 2 * width + 1;
    for i in 0..total {
        trail.record(point(i % width, i / width));
        if i < total - 1 {
            // No eviction before the bound is exceeded.
            assert_eq!(trail.len(), (i + 1) as usize);
        }
    }
    assert_eq!(trail.len(), (2 * width + 1 - width / 2) as usize);
    // The survivors are the newest entries, order preserved.
    let snap = trail.snapshot();
    for (j, p) in snap.iter().enumerate() {
        let i = j as u32 + width / 2;
        assert_eq!(*p, point(i % width, i / width));
    }
}

#[test]
fn trail_eviction_at_raster_width() {
    let width: u32 = 100;
    let mut trail = TrailBuffer::new(width);
    for _ in 0..(2 * width + 1) {
        trail.record(point(3, 7));
    }
    assert_eq!(trail.len(), (2 * 100 + 1 - 50) as usize);
}

#[test]
fn session_end_to_end_two_cells() {
    // Start at lat 40.0, lon -74.0 on a 100 x 50 raster; one refresh
    // arrives at lat 41.0, lon -73.0.
    let brightness: Vec<u8> = vec![200; 100 * 50];
    let (mut session, first_frame) =
        TrackingSession::start(100, 50, 3, 40_000, -74_000, &brightness).unwrap();
    assert!(session.is_active());
    assert!(first_frame.contains(MARKER));

    let frame = session.refresh(41_000, -73_000, &brightness).unwrap();

    // Two distinct cells recorded, in chronological order.
    let recorded = session.trail_points().clone();
    assert_eq!(recorded.len(), 2);
    assert_ne!(recorded[0], recorded[1]);
    assert_eq!(recorded[0], point(29, 14));
    assert_eq!(recorded[1], point(30, 14));

    // The frame marks both cells: the older as trail, the newer as the
    // current position.
    assert!(frame.contains(MARKER));
    assert!(frame.contains('o'));
    // When the terminal styling is not disabled by the environment, each
    // marker carries its own foreground color: magenta for the current
    // position, cyan for the trail.
    if frame.contains('\u{1b}') {
        assert!(frame.contains(&format!("\u{1b}[38;5;13m{}", MARKER)));
        assert!(frame.contains("\u{1b}[38;5;14mo"));
    }
}

#[test]
fn session_rejects_bad_fix_and_keeps_going() {
    let brightness: Vec<u8> = vec![200; 100 * 50];
    let (mut session, _) =
        TrackingSession::start(100, 50, 3, 40_000, -74_000, &brightness).unwrap();
    let r = session.refresh(95_000, 0, &brightness);
    assert_eq!(r, Err(TrackError::InvalidCoordinate));
    assert!(session.is_active());
    assert_eq!(session.trail_points().len(), 1);
}

#[test]
fn session_halts_on_broken_raster_source() {
    let brightness: Vec<u8> = vec![200; 100 * 50];
    let (mut session, _) =
        TrackingSession::start(100, 50, 3, 40_000, -74_000, &brightness).unwrap();
    let broken: Vec<u8> = vec![200; 10];
    let r = session.refresh(41_000, -73_000, &broken);
    assert_eq!(r, Err(TrackError::ImageLoadError));
    assert!(!session.is_active());
    assert!(session.is_halted());
}

#[test]
fn session_start_rejects_out_of_domain() {
    let brightness: Vec<u8> = vec![200; 100 * 50];
    let r = TrackingSession::start(100, 50, 3, 120_000, 0, &brightness);
    assert!(matches!(r, Err(TrackError::InvalidCoordinate)));
}

#[test]
fn cancellation_is_terminal() {
    // Once the watcher signals cancellation at a cycle boundary, the session
    // schedules nothing further: it reports inactive and its state is kept.
    let brightness: Vec<u8> = vec![200; 100 * 50];
    let (mut session, _) =
        TrackingSession::start(100, 50, 3, 40_000, -74_000, &brightness).unwrap();
    session.cancel();
    assert!(!session.is_active());
    assert!(!session.is_halted());
    assert_eq!(session.trail_points().len(), 1);
}

#[test]
fn provider_failures_respect_retry_budget() {
    let brightness: Vec<u8> = vec![200; 100 * 50];
    let (mut session, _) =
        TrackingSession::start(100, 50, 2, 40_000, -74_000, &brightness).unwrap();
    assert_eq!(session.retries_left(), 2);
    assert!(session.provider_failed());
    assert_eq!(session.retries_left(), 1);
    assert!(session.provider_failed());
    assert_eq!(session.retries_left(), 0);
    assert!(!session.provider_failed());
    assert!(session.is_halted());
}

#[test]
fn first_position_surfaces_empty_batches() {
    let empty: Vec<(i64, i64)> = Vec::new();
    assert_eq!(first_position(&empty), Err(TrackError::ProviderError));
    let batch = vec![(40_000, -74_000), (41_000, -73_000)];
    assert_eq!(first_position(&batch), Ok((40_000, -74_000)));
}

#[test]
fn page_count_rounds_up_to_twenty() {
    let cases = [(0, 0), (1, 1), (19, 1), (20, 1), (21, 2), (45, 3), (200, 10)];
    for (total, pages) in cases {
        let resp = SearchResponse::new(total, Vec::new());
        assert_eq!(resp.page_count(), pages);
    }
}

#[test]
fn search_response_keeps_members() {
    let sat = Satellite {
        id: 25544,
        name: String::from("ISS (ZARYA)"),
        line_one: String::from("1 25544U 98067A   ..."),
        line_two: String::from("2 25544  51.6400 ..."),
    };
    let resp = SearchResponse::new(1, vec![sat.clone()]);
    let members = resp.members_vec();
    assert_eq!(members.len(), 1);
    assert_eq!(members[0].id, 25544);
    assert_eq!(members[0].name, "ISS (ZARYA)");
}
