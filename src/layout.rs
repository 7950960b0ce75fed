use vstd::prelude::*;

verus! {

/// Text shown under the logo while a fetch is outstanding, before the dots.
pub open spec fn caption_stem() -> Seq<char> {
    "Fetching your IP"@
}

/// The loading caption followed by `n` dots.
pub open spec fn caption_with_dots(n: nat) -> Seq<char> {
    caption_stem() + Seq::new(n, |i: int| '.')
}

/// How many dots follow the caption at a frame: one more every eight frames,
/// cycling through zero to three.
pub open spec fn dots_at(frame: u64) -> nat {
    ((frame / 8) % 4) as nat
}

/// How many columns of the logo are drawn at a frame: two more per frame, up to
/// the whole width.
pub fn reveal_count(frame: u64, width: usize) -> (r: usize)
    ensures
        r == (if 2 * frame < width { 2 * frame } else { width as int }),
{
    let twice: u128 = (frame as u128) * 2;
    if twice < width as u128 {
        twice as usize
    } else {
        width
    }
}

/// How many dots follow the loading caption at a frame.
pub fn dot_count(frame: u64) -> (r: usize)
    ensures
        r == dots_at(frame),
{
    ((frame / 8) % 4) as usize
}

/// The loading caption at a frame, with its dots.
pub fn loading_caption(frame: u64) -> (r: &'static str)
    ensures
        r@ == caption_with_dots(dots_at(frame)),
{
    proof {
        reveal_strlit("Fetching your IP");
        reveal_strlit("Fetching your IP.");
        reveal_strlit("Fetching your IP..");
        reveal_strlit("Fetching your IP...");
    }
    let n = dot_count(frame);
    if n == 0 {
        assert(caption_with_dots(0) =~= "Fetching your IP"@);
        "Fetching your IP"
    } else if n == 1 {
        assert(caption_with_dots(1) =~= "Fetching your IP."@);
        "Fetching your IP."
    } else if n == 2 {
        assert(caption_with_dots(2) =~= "Fetching your IP.."@);
        "Fetching your IP.."
    } else {
        assert(caption_with_dots(3) =~= "Fetching your IP..."@);
        "Fetching your IP..."
    }
}

/// The first row of a block of `content` rows centred in `available` rows; zero
/// when the block does not fit.
pub fn centred_top(available: u16, content: u16) -> (r: u16)
    ensures
        r == (if available > content { available - content } else { 0 }) / 2,
{
    available.saturating_sub(content) / 2
}

/// A share of 255 in proportion `part / whole` is at most 255.
proof fn lemma_share_of_255(part: int, whole: int)
    requires
        0 <= part <= whole,
        0 < whole,
    ensures
        255 * part / whole <= 255,
{
    assert(255 * part <= 255 * whole) by (nonlinear_arith)
        requires
            0 <= part <= whole,
    ;
    assert(255 * part / whole <= 255 * whole / whole) by (nonlinear_arith)
        requires
            255 * part <= 255 * whole,
            0 < whole,
    ;
    assert(255 * whole / whole == 255) by (nonlinear_arith)
        requires
            0 < whole,
    ;
}

/// The colour of column `i` of `width` on a gradient from cyan to magenta, as red,
/// green and blue: red grows and green falls in proportion to the column.
pub fn gradient_cyan_magenta(i: usize, width: usize) -> (r: (u8, u8, u8))
    requires
        i <= width,
        0 < width,
    ensures
        r.0 == 255 * (i as int) / (width as int),
        r.1 == 255 * (width - i) / (width as int),
        r.2 == 255,
{
    let w = width as u128;
    let up = 255 * (i as u128);
    let down = 255 * (w - i as u128);
    proof {
        lemma_share_of_255(i as int, width as int);
        lemma_share_of_255((width - i) as int, width as int);
    }
    ((up / w) as u8, (down / w) as u8, 255)
}

} // verus!
