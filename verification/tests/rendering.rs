use sat_tracker::annotate::{annotate, mark_orbit_trail, mark_position};
use sat_tracker::errors::TrackError;
use sat_tracker::grid::GridPoint;
use sat_tracker::raster::render_raster;
use sat_tracker::style::colorize_map;

const MARKER: char = '\u{2206}';

#[test]
fn raster_glyphs_and_layout() {
    // Two rows of three pixels, one brightness sample per quantization bucket.
    let brightness: Vec<u8> = vec![0, 64, 128, 192, 255, 63];
    let raster = render_raster(&brightness, 3, 2).unwrap();
    assert_eq!(raster, vec!['@', '%', '.', '\n', ' ', ' ', '@']);
}

#[test]
fn raster_bucket_boundaries() {
    let brightness: Vec<u8> = vec![63, 64, 127, 128, 191, 192];
    let raster = render_raster(&brightness, 6, 1).unwrap();
    assert_eq!(raster, vec!['@', '%', '%', '.', '.', ' ']);
}

#[test]
fn raster_length_counts_line_separators() {
    let brightness: Vec<u8> = vec![200; 100 * 50];
    let raster = render_raster(&brightness, 100, 50).unwrap();
    assert_eq!(raster.len(), 100 * 50 + 49);
    for c in &raster {
        assert!(*c == '@' || *c == '%' || *c == '.' || *c == ' ' || *c == '\n');
    }
    // A separator stands exactly at the end of every row but the last.
    for (i, c) in raster.iter().enumerate() {
        if i % 101 == 100 {
            assert_eq!(*c, '\n');
        } else {
            assert_ne!(*c, '\n');
        }
    }
}

#[test]
fn raster_rejects_bad_source() {
    let brightness: Vec<u8> = vec![0; 5];
    assert_eq!(render_raster(&brightness, 3, 2), Err(TrackError::ImageLoadError));
    assert_eq!(render_raster(&brightness, 0, 5), Err(TrackError::ImageLoadError));
    assert_eq!(render_raster(&brightness, 5, 0), Err(TrackError::ImageLoadError));
}

#[test]
fn position_marker_lands_on_its_cell() {
    let brightness: Vec<u8> = vec![255; 6];
    let mut raster = render_raster(&brightness, 3, 2).unwrap();
    mark_position(&mut raster, 1, 1, 3);
    // Row 1 starts after three glyphs and one separator.
    assert_eq!(raster, vec![' ', ' ', ' ', '\n', ' ', MARKER, ' ']);
}

#[test]
fn trail_markers_land_on_their_cells() {
    let brightness: Vec<u8> = vec![255; 6];
    let mut raster = render_raster(&brightness, 3, 2).unwrap();
    let trail = vec![GridPoint { x: 0, y: 0 }, GridPoint { x: 2, y: 1 }];
    mark_orbit_trail(&mut raster, &trail, 3);
    assert_eq!(raster, vec!['o', ' ', ' ', '\n', ' ', ' ', 'o']);
}

#[test]
fn current_marker_wins_collision_with_trail() {
    let brightness: Vec<u8> = vec![255; 6];
    let mut raster = render_raster(&brightness, 3, 2).unwrap();
    let current = GridPoint { x: 2, y: 0 };
    let trail = vec![GridPoint { x: 0, y: 0 }, current];
    annotate(&mut raster, current, &trail, 3);
    // The shared cell shows the position marker, never the trail marker.
    assert_eq!(raster[2], MARKER);
    assert_eq!(raster[0], 'o');
}

#[test]
fn colorized_frame_keeps_glyph_order() {
    let glyphs = vec![MARKER, 'o', '@', ' '];
    let frame = colorize_map(&glyphs);
    // Every glyph survives styling, in order: the frame's glyph subsequence
    // restricted to the inputs matches the input.
    let mut remaining = glyphs.iter().peekable();
    for c in frame.chars() {
        if let Some(&&next) = remaining.peek() {
            if c == next {
                remaining.next();
            }
        }
    }
    assert!(remaining.peek().is_none());
    assert!(frame.contains(MARKER));
    assert!(frame.contains('o'));
}
