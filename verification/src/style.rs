use vstd::prelude::*;

use crossterm::style::Stylize;

verus! {

/// Whether `piece` is some styled rendering of the glyph `c`: the glyph
/// itself, wrapped in a (possibly empty) prefix and suffix. The terminal
/// escape codes crossterm emits around a glyph depend on the process
/// environment, so no contract in this crate says more about them.
pub open spec fn is_styling_of(piece: Seq<char>, c: char) -> bool {
    exists|pre: Seq<char>, post: Seq<char>| piece == pre + seq![c] + post
}

/// A colorized frame: one styled piece per glyph of the geometry raster, in
/// order, concatenated.
pub open spec fn is_colorized_frame(frame: Seq<char>, glyphs: Seq<char>) -> bool {
    exists|pieces: Seq<Seq<char>>|
        {
            &&& pieces.len() == glyphs.len()
            &&& frame == #[trigger] pieces.flatten()
            &&& forall|i: int| 0 <= i < pieces.len() ==> is_styling_of(#[trigger] pieces[i], glyphs[i])
        }
}

/// Relies on crossterm's `Stylize::with` and the `Display` of
/// `StyledContent`: the output holds exactly the glyph, wrapped in a color
/// prefix and a reset suffix that are empty when colors are disabled by the
/// environment. Highlight color for the current-position marker.
#[verifier::external_body]
fn style_current(c: char) -> (r: String)
    ensures
        is_styling_of(r@, c),
{
    c.to_string().with(crossterm::style::Color::Magenta).to_string()
}

/// Relies on crossterm's `Stylize::with` and the `Display` of
/// `StyledContent`, as `style_current` does. Distinct color for the orbit
/// trail markers.
#[verifier::external_body]
fn style_trail(c: char) -> (r: String)
    ensures
        is_styling_of(r@, c),
{
    c.to_string().with(crossterm::style::Color::Cyan).to_string()
}

/// Relies on crossterm's `Stylize::with` and the `Display` of
/// `StyledContent`, as `style_current` does. Muted color for terrain glyphs
/// and line separators.
#[verifier::external_body]
fn style_base(c: char) -> (r: String)
    ensures
        is_styling_of(r@, c),
{
    c.to_string().with(crossterm::style::Color::DarkGrey).to_string()
}

/// The color pass of the annotator: maps every glyph of the annotated raster
/// to a styled piece — by final glyph identity alone — and concatenates the
/// pieces into the frame to emit. The glyph order of the input is preserved
/// exactly; the styling around each glyph is the terminal's business.
pub fn colorize_map(image_ascii: &Vec<char>) -> (r: String)
    ensures
        is_colorized_frame(r@, image_ascii@),
{
    let n = image_ascii.len();
    let mut out = String::new();
    let ghost mut pieces: Seq<Seq<char>> = Seq::empty();
    let mut i: usize = 0;
    while i < n
        invariant
            i <= n,
            n == image_ascii@.len(),
            pieces.len() == i,
            out@ == pieces.flatten(),
            forall|j: int| 0 <= j < i ==> is_styling_of(#[trigger] pieces[j], image_ascii@[j]),
        decreases n - i,
    {
        let c = image_ascii[i];
        let piece: String = if c == '\u{2206}' {
            style_current(c)
        } else if c == 'o' {
            style_trail(c)
        } else {
            style_base(c)
        };
        out.append(piece.as_str());
        proof {
            pieces.lemma_flatten_push(piece@);
            pieces = pieces.push(piece@);
        }
        i = i + 1;
    }
    out
}

} // verus!
