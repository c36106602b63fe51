use vstd::prelude::*;

verus! {

/// The ASCII digits of `n` in base ten, most significant first, without
/// leading zeros.
pub open spec fn decimal(n: nat) -> Seq<u8>
    decreases n,
{
    if n < 10 {
        seq![(48 + n) as u8]
    } else {
        decimal(n / 10).push((48 + n % 10) as u8)
    }
}

/// One pixel as text: the three channels in decimal, separated by spaces.
pub open spec fn pixel_text(p: (usize, usize, usize)) -> Seq<u8> {
    decimal(p.0 as nat) + seq![32u8] + decimal(p.1 as nat) + seq![32u8] + decimal(p.2 as nat)
}

/// The pixels as text, one per line, with a newline between two lines and
/// none after the last.
pub open spec fn pixels_text(px: Seq<(usize, usize, usize)>) -> Seq<u8>
    decreases px.len(),
{
    if px.len() == 0 {
        Seq::empty()
    } else if px.len() == 1 {
        pixel_text(px[0])
    } else {
        pixels_text(px.drop_last()).push(10u8) + pixel_text(px.last())
    }
}

/// The plain PPM header: the magic `P3`, the width and height, and the
/// largest channel value 255, each followed by a newline.
pub open spec fn header_text(width: nat, height: nat) -> Seq<u8> {
    seq![80u8, 51u8, 10u8] + decimal(width) + seq![32u8] + decimal(height) + seq![
        10u8,
        50u8,
        53u8,
        53u8,
        10u8,
    ]
}

/// A whole plain PPM file: the header, then the pixels.
pub open spec fn ppm_text(width: nat, height: nat, px: Seq<(usize, usize, usize)>) -> Seq<u8> {
    header_text(width, height) + pixels_text(px)
}

/// Appends the decimal digits of `n` to `out`.
fn push_decimal(out: &mut Vec<u8>, n: usize)
    ensures
        final(out)@ == old(out)@ + decimal(n as nat),
    decreases n,
{
    if n >= 10 {
        push_decimal(out, n / 10);
    }
    out.push((48 + n % 10) as u8);
    proof {
        assert(final(out)@ =~= old(out)@ + decimal(n as nat));
    }
}

/// Appends the text of one pixel to `out`.
fn push_pixel(out: &mut Vec<u8>, p: (usize, usize, usize))
    ensures
        final(out)@ == old(out)@ + pixel_text(p),
{
    push_decimal(out, p.0);
    out.push(32u8);
    push_decimal(out, p.1);
    out.push(32u8);
    push_decimal(out, p.2);
    proof {
        assert(final(out)@ =~= old(out)@ + pixel_text(p));
    }
}

/// Encodes an image of `width` by `height` pixels as a plain (ASCII) PPM
/// file. The pixels are written in the order given, one per line; their
/// channels are written as they are.
pub fn encode_ppm(width: usize, height: usize, pixels: &Vec<(usize, usize, usize)>) -> (r: Vec<u8>)
    ensures
        r@ == ppm_text(width as nat, height as nat, pixels@),
{
    let mut out: Vec<u8> = Vec::new();
    out.push(80u8);
    out.push(51u8);
    out.push(10u8);
    push_decimal(&mut out, width);
    out.push(32u8);
    push_decimal(&mut out, height);
    out.push(10u8);
    out.push(50u8);
    out.push(53u8);
    out.push(53u8);
    out.push(10u8);
    let ghost head = out@;
    assert(head =~= header_text(width as nat, height as nat));
    let mut i: usize = 0;
    while i < pixels.len()
        invariant
            i <= pixels@.len(),
            out@ == head + pixels_text(pixels@.subrange(0, i as int)),
        decreases pixels@.len() - i,
    {
        if i > 0 {
            out.push(10u8);
        }
        push_pixel(&mut out, pixels[i]);
        proof {
            let done = pixels@.subrange(0, i as int + 1);
            assert(done.drop_last() =~= pixels@.subrange(0, i as int));
            assert(done.last() == pixels@[i as int]);
            if i == 0 {
                assert(pixels@.subrange(0, 0) =~= Seq::<(usize, usize, usize)>::empty());
                assert(out@ =~= head + pixels_text(done));
            } else {
                assert(out@ =~= head + pixels_text(done));
            }
        }
        i = i + 1;
    }
    assert(pixels@.subrange(0, pixels@.len() as int) =~= pixels@);
    out
}

} // verus!
