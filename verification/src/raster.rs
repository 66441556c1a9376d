use vstd::prelude::*;

use crate::errors::TrackError;

verus! {

/// The glyph a brightness value quantizes to: four buckets of 64 values each,
/// from the densest glyph for the darkest pixels down to blank for the
/// brightest.
pub open spec fn glyph_of(b: u8) -> char {
    if b <= 63 {
        '@'
    } else if b <= 127 {
        '%'
    } else if b <= 191 {
        '.'
    } else {
        ' '
    }
}

/// The four terrain glyphs a rendered raster may contain.
pub open spec fn is_raster_glyph(c: char) -> bool {
    c == '@' || c == '%' || c == '.' || c == ' '
}

/// Length of a materialized raster: `width * height` glyphs plus one line
/// separator between consecutive rows.
pub open spec fn raster_len(width: int, height: int) -> int {
    height * (width + 1) - 1
}

/// The character at position `i` of a materialized raster: rows of `width`
/// glyphs in row-major scan order, separated by single line breaks.
pub open spec fn raster_char(b: Seq<u8>, width: int, i: int) -> char {
    if i % (width + 1) == width {
        '\n'
    } else {
        glyph_of(b[(i / (width + 1)) * width + i % (width + 1)])
    }
}

/// The whole materialized raster for the given brightness data.
pub open spec fn raster_spec(b: Seq<u8>, width: int, height: int) -> Seq<char> {
    Seq::new(raster_len(width, height) as nat, |i: int| raster_char(b, width, i))
}

/// The shape law of the renderer: a rendered raster has length
/// `width * height + (height - 1)`, carries a line separator exactly at the
/// end of every row but the last, and elsewhere only the four defined glyphs.
pub proof fn lemma_raster_shape(b: Seq<u8>, width: int, height: int)
    requires
        width > 0,
        height > 0,
        b.len() == width * height,
    ensures
        raster_spec(b, width, height).len() == width * height + (height - 1),
        forall|i: int|
            0 <= i < raster_len(width, height) ==> (((#[trigger] raster_spec(b, width, height)[i])
                == '\n') <==> i % (width + 1) == width),
        forall|i: int|
            0 <= i < raster_len(width, height) && i % (width + 1) != width ==> is_raster_glyph(
                #[trigger] raster_spec(b, width, height)[i],
            ),
{
    assert(height * (width + 1) - 1 == width * height + (height - 1)) by (nonlinear_arith);
    assert forall|i: int|
        0 <= i < raster_len(width, height) && i % (width + 1) != width implies is_raster_glyph(
        #[trigger] raster_spec(b, width, height)[i],
    ) by {
        let pix = (i / (width + 1)) * width + i % (width + 1);
        assert(is_raster_glyph(glyph_of(b[pix])));
    }
}

/// Quantizes one brightness value into its glyph.
pub fn brightness_to_glyph(b: u8) -> (r: char)
    ensures
        r == glyph_of(b),
{
    if b <= 63 {
        '@'
    } else if b <= 127 {
        '%'
    } else if b <= 191 {
        '.'
    } else {
        ' '
    }
}

/// Renders single-channel brightness data into a textual raster: each pixel
/// becomes one of four glyphs, rows appear in row-major scan order, and a
/// line separator stands before the first glyph of every row except row 0.
/// Fails exactly when the data cannot back a raster of the requested
/// dimensions (or its materialized form would not fit in memory): a bad
/// source must surface, never silently render blank.
pub fn render_raster(brightness: &Vec<u8>, width: u32, height: u32) -> (r: Result<
    Vec<char>,
    TrackError,
>)
    ensures
        r is Ok <==> {
            &&& width > 0
            &&& height > 0
            &&& brightness@.len() == width * height
            &&& raster_len(width as int, height as int) <= usize::MAX
        },
        r matches Ok(v) ==> v@ == raster_spec(brightness@, width as int, height as int),
        r matches Err(e) ==> e == TrackError::ImageLoadError,
{
    if width == 0 || height == 0 {
        return Err(TrackError::ImageLoadError);
    }
    proof {
        assert((width as int) * (height as int) <= u64::MAX) by (nonlinear_arith)
            requires
                width <= u32::MAX,
                height <= u32::MAX,
        ;
    }
    let expected: u64 = (width as u64) * (height as u64);
    if brightness.len() as u64 != expected {
        return Err(TrackError::ImageLoadError);
    }
    let total: usize = match brightness.len().checked_add((height - 1) as usize) {
        Some(t) => t,
        None => {
            proof {
                assert(raster_len(width as int, height as int) == brightness@.len() + (height - 1))
                    by (nonlinear_arith)
                    requires
                        brightness@.len() == width * height,
                        height >= 1,
                ;
            }
            return Err(TrackError::ImageLoadError);
        },
    };
    proof {
        assert(total == raster_len(width as int, height as int)) by (nonlinear_arith)
            requires
                total == brightness@.len() + (height - 1),
                brightness@.len() == width * height,
                width >= 1,
                height >= 1,
        ;
    }
    let w1: u64 = width as u64 + 1;
    let mut out: Vec<char> = Vec::new();
    let mut i: usize = 0;
    while i < total
        invariant
            i <= total,
            out@.len() == i,
            width >= 1,
            height >= 1,
            w1 == width + 1,
            brightness@.len() == width * height,
            brightness@.len() <= usize::MAX,
            total == raster_len(width as int, height as int),
            forall|j: int|
                0 <= j < i ==> #[trigger] out@[j] == raster_char(
                    brightness@,
                    width as int,
                    j,
                ),
        decreases total - i,
    {
        let iu: u64 = i as u64;
        let m: u64 = iu % w1;
        if m == width as u64 {
            out.push('\n');
        } else {
            let ghost q: int = i as int / (w1 as int);
            proof {
                assert(m < w1);
                assert(i < height * (width + 1)) by (nonlinear_arith)
                    requires
                        i < total,
                        total == height * (width + 1) - 1,
                ;
                assert(height * (width + 1) == (w1 as int) * (height as int)) by (nonlinear_arith)
                    requires
                        w1 == width + 1,
                ;
                vstd::arithmetic::div_mod::lemma_multiply_divide_lt(
                    i as int,
                    w1 as int,
                    height as int,
                );
                assert(q < height);
                assert(m <= width);
                assert(q * width + m < height * width) by (nonlinear_arith)
                    requires
                        0 <= q < height as int,
                        0 <= m < width as int,
                ;
                assert(height * width == width * height) by (nonlinear_arith);
                assert(q * width + m < brightness@.len());
            }
            let pix: u64 = (iu / w1) * (width as u64) + m;
            let g = brightness_to_glyph(brightness[pix as usize]);
            out.push(g);
        }
        i = i + 1;
    }
    proof {
        assert(out@ =~= raster_spec(brightness@, width as int, height as int));
    }
    Ok(out)
}

} // verus!
