use vstd::prelude::*;
use vstd::string::StringExecFns;

use crate::text::{append_decimal, decimal};

verus! {

/// The text of one pixel: its red, green and blue bytes in decimal, separated by spaces.
pub open spec fn pixel_text(p: (u8, u8, u8)) -> Seq<char> {
    decimal(p.0 as nat) + seq![' '] + decimal(p.1 as nat) + seq![' '] + decimal(p.2 as nat)
}

/// The first line of a PPM file, its size and its largest channel value.
pub open spec fn ppm_header(width: nat, height: nat) -> Seq<char> {
    seq!['P', '3', '\n'] + decimal(width) + seq![' '] + decimal(height) + seq!['\n', '2', '5', '5', '\n']
}

/// The text of the first `k` pixels, row by row: each pixel followed by a space, or by a
/// line break where it ends its row.
pub open spec fn ppm_body(pixels: Seq<(u8, u8, u8)>, width: nat, k: int) -> Seq<char>
    decreases k,
{
    if k <= 0 {
        Seq::empty()
    } else {
        ppm_body(pixels, width, k - 1) + pixel_text(pixels[k - 1]) + seq![
            if (k - 1) % (width as int) == width - 1 { '\n' } else { ' ' },
        ]
    }
}

/// The text of a plain PPM image of `width` by `height` pixels, given row by row as bytes.
pub fn ppm_content(width: usize, height: usize, pixels: &Vec<(u8, u8, u8)>) -> (r: String)
    requires
        pixels@.len() == width * height,
    ensures
        r@ == ppm_header(width as nat, height as nat) + ppm_body(pixels@, width as nat, pixels@.len() as int),
{
    proof {
        reveal_strlit("P3\n");
        reveal_strlit(" ");
        reveal_strlit("\n");
        reveal_strlit("\n255\n");
    }
    let mut out = String::from_str("P3\n");
    append_decimal(&mut out, width);
    out.append(" ");
    append_decimal(&mut out, height);
    out.append("\n255\n");
    assert(out@ =~= ppm_header(width as nat, height as nat));
    let ghost header = out@;
    let mut k: usize = 0;
    while k < pixels.len()
        invariant
            0 <= k <= pixels@.len(),
            pixels@.len() == width * height,
            header == ppm_header(width as nat, height as nat),
            out@ == header + ppm_body(pixels@, width as nat, k as int),
        decreases pixels.len() - k,
    {
        assert(width > 0) by (nonlinear_arith)
            requires
                k < pixels@.len(),
                pixels@.len() == width * height,
        ;
        proof {
            reveal_strlit(" ");
            reveal_strlit("\n");
        }
        let ghost before = out@;
        let pixel = pixels[k];
        let red = pixel.0;
        let green = pixel.1;
        let blue = pixel.2;
        assert(pixel == pixels@[k as int]);
        append_decimal(&mut out, red as usize);
        out.append(" ");
        append_decimal(&mut out, green as usize);
        out.append(" ");
        append_decimal(&mut out, blue as usize);
        let ghost text = out@;
        assert(text =~= before + pixel_text(pixel));
        if k % width == width - 1 {
            out.append("\n");
            assert(out@ =~= text + seq!['\n']);
        } else {
            out.append(" ");
            assert(out@ =~= text + seq![' ']);
        }
        assert(out@ =~= before + pixel_text(pixels@[k as int]) + seq![
            if (k as int) % (width as int) == width - 1 { '\n' } else { ' ' },
        ]);
        assert(out@ =~= header + ppm_body(pixels@, width as nat, k + 1));
        k += 1;
    }
    out
}

} // verus!
