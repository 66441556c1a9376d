use vstd::prelude::*;

use crate::errors::TrackError;

verus! {

/// A discretized cell on the output raster: `x` is the column, `y` the row
/// (row 0 is the northernmost row). A point produced by the mapper for a
/// raster of a given size always satisfies `x < width` and `y < height`.
#[derive(Clone, Copy, Debug, PartialEq, Eq, Structural)]
pub struct GridPoint {
    pub x: u32,
    pub y: u32,
}

/// Latitude in thousandths of a degree; the globe spans [-90deg, 90deg].
pub open spec fn lat_in_domain(lat_milli: int) -> bool {
    -90000 <= lat_milli && lat_milli <= 90000
}

/// Longitude in thousandths of a degree; the globe spans [-180deg, 180deg].
pub open spec fn lon_in_domain(lon_milli: int) -> bool {
    -180000 <= lon_milli && lon_milli <= 180000
}

/// The column a longitude maps to: normalize to [0, 1], scale by the width,
/// round to the nearest integer, and clamp into [0, width).
pub open spec fn grid_col(lon_milli: int, width: int) -> int {
    let scaled = ((lon_milli + 180000) * width + 180000) / 360000;
    if scaled >= width {
        width - 1
    } else {
        scaled
    }
}

/// The row a latitude maps to. The latitude axis is inverted: north (+90deg)
/// maps to row 0 at the top of the raster.
pub open spec fn grid_row(lat_milli: int, height: int) -> int {
    let scaled = ((90000 - lat_milli) * height + 90000) / 180000;
    if scaled >= height {
        height - 1
    } else {
        scaled
    }
}

/// For every latitude and longitude inside the domain, the mapped cell lies
/// strictly within `[0, width) x [0, height)`.
pub proof fn lemma_map_to_grid_bounds(lat_milli: int, lon_milli: int, width: int, height: int)
    requires
        lat_in_domain(lat_milli),
        lon_in_domain(lon_milli),
        width > 0,
        height > 0,
    ensures
        0 <= grid_col(lon_milli, width) < width,
        0 <= grid_row(lat_milli, height) < height,
{
    vstd::arithmetic::mul::lemma_mul_nonnegative(lon_milli + 180000, width);
    vstd::arithmetic::div_mod::lemma_div_pos_is_pos((lon_milli + 180000) * width + 180000, 360000);
    vstd::arithmetic::mul::lemma_mul_nonnegative(90000 - lat_milli, height);
    vstd::arithmetic::div_mod::lemma_div_pos_is_pos((90000 - lat_milli) * height + 90000, 180000);
}

/// Maps a position in thousandths of a degree onto a raster of the given
/// dimensions. Rejects out-of-domain input instead of rendering from it.
pub fn lat_long_to_ascii_coords(
    lat_milli: i64,
    lon_milli: i64,
    ascii_width: u32,
    ascii_height: u32,
) -> (r: Result<GridPoint, TrackError>)
    requires
        ascii_width > 0,
        ascii_height > 0,
    ensures
        r is Ok <==> lat_in_domain(lat_milli as int) && lon_in_domain(lon_milli as int),
        r matches Ok(p) ==> {
            &&& p.x == grid_col(lon_milli as int, ascii_width as int)
            &&& p.y == grid_row(lat_milli as int, ascii_height as int)
            &&& p.x < ascii_width
            &&& p.y < ascii_height
        },
        r matches Err(e) ==> e == TrackError::InvalidCoordinate,
{
    if lat_milli < -90000 || lat_milli > 90000 || lon_milli < -180000 || lon_milli > 180000 {
        return Err(TrackError::InvalidCoordinate);
    }
    let norm_lon: u64 = (lon_milli + 180000) as u64;
    let norm_lat: u64 = (90000 - lat_milli) as u64;
    proof {
        vstd::arithmetic::mul::lemma_mul_upper_bound(
            norm_lon as int,
            360000,
            ascii_width as int,
            u32::MAX as int,
        );
        vstd::arithmetic::mul::lemma_mul_upper_bound(
            norm_lat as int,
            180000,
            ascii_height as int,
            u32::MAX as int,
        );
    }
    let scaled_x: u64 = (norm_lon * (ascii_width as u64) + 180000) / 360000;
    let scaled_y: u64 = (norm_lat * (ascii_height as u64) + 90000) / 180000;
    let x: u32 = if scaled_x >= ascii_width as u64 {
        ascii_width - 1
    } else {
        scaled_x as u32
    };
    let y: u32 = if scaled_y >= ascii_height as u64 {
        ascii_height - 1
    } else {
        scaled_y as u32
    };
    Ok(GridPoint { x, y })
}

} // verus!
