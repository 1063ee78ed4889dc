use vstd::prelude::*;
use crate::image::Image;

verus! {

/// An 8-bit RGB color, one byte per channel.
pub type Rgb = [u8; 3];

/// The largest channel value written to the PPM header.
pub const MAX_CHANNEL: usize = 255;

/// The ASCII decimal digits of `n`, most significant first, without leading zeros.
pub open spec fn decimal(n: nat) -> Seq<u8>
    decreases n,
{
    if n < 10 {
        seq![(48 + n) as u8]
    } else {
        decimal(n / 10).push((48 + n % 10) as u8)
    }
}

/// The header line of a plain PPM file: `P3`, the size, then the largest channel value.
pub open spec fn ppm_header(width: nat, height: nat) -> Seq<u8> {
    seq![80u8, 51u8, 10u8] + decimal(width) + seq![32u8] + decimal(height) + seq![10u8] + decimal(
        MAX_CHANNEL as nat,
    ) + seq![10u8]
}

/// One pixel of the body: its three channels in decimal, space separated, on a line of their own.
pub open spec fn ppm_pixel(c: Rgb) -> Seq<u8> {
    decimal(c[0] as nat) + seq![32u8] + decimal(c[1] as nat) + seq![32u8] + decimal(c[2] as nat)
        + seq![10u8]
}

/// The text of a run of pixels, in order.
pub open spec fn ppm_pixels(s: Seq<Rgb>) -> Seq<u8>
    decreases s.len(),
{
    if s.len() == 0 {
        Seq::empty()
    } else {
        ppm_pixels(s.drop_last()) + ppm_pixel(s.last())
    }
}

/// The text of a run of rows, in order, each row left to right.
pub open spec fn ppm_rows(rows: Seq<Vec<Rgb>>) -> Seq<u8>
    decreases rows.len(),
{
    if rows.len() == 0 {
        Seq::empty()
    } else {
        ppm_rows(rows.drop_last()) + ppm_pixels(rows.last()@)
    }
}

/// The whole plain PPM file of an image: the header, then every pixel in row-major order.
pub open spec fn ppm_file(img: Image<Rgb>) -> Seq<u8> {
    ppm_header(img.width as nat, img.height as nat) + ppm_rows(img.data@)
}

/// Appends the decimal digits of `n` to `out`.
pub fn push_decimal(out: &mut Vec<u8>, n: usize)
    ensures
        final(out)@ == old(out)@ + decimal(n as nat),
    decreases n,
{
    if n >= 10 {
        push_decimal(out, n / 10);
    }
    let d: u8 = (n % 10) as u8;
    out.push(48u8 + d);
    proof {
        assert(out@ =~= old(out)@ + decimal(n as nat));
    }
}

/// Appends the text of one pixel to `out`.
fn push_pixel(out: &mut Vec<u8>, c: Rgb)
    ensures
        final(out)@ == old(out)@ + ppm_pixel(c),
{
    push_decimal(out, c[0] as usize);
    out.push(32u8);
    push_decimal(out, c[1] as usize);
    out.push(32u8);
    push_decimal(out, c[2] as usize);
    out.push(10u8);
    proof {
        assert(out@ =~= old(out)@ + ppm_pixel(c));
    }
}

impl Image<Rgb> {
    /// The image as a plain PPM file: a header line with the format tag, the
    /// size and the largest channel value, then one decimal RGB triple per
    /// line for every pixel, row by row.
    pub fn to_ppm(&self) -> (r: Vec<u8>)
        requires
            self.wf(),
        ensures
            r@ == ppm_file(*self),
    {
        let mut out: Vec<u8> = Vec::new();
        out.push(80u8);
        out.push(51u8);
        out.push(10u8);
        push_decimal(&mut out, self.width);
        out.push(32u8);
        push_decimal(&mut out, self.height);
        out.push(10u8);
        push_decimal(&mut out, MAX_CHANNEL);
        out.push(10u8);
        let ghost header = out@;
        assert(header =~= ppm_header(self.width as nat, self.height as nat));
        let mut y: usize = 0;
        while y < self.height
            invariant
                self.wf(),
                y <= self.height,
                out@ == header + ppm_rows(self.data@.take(y as int)),
            decreases self.height - y,
        {
            let ghost start = out@;
            let mut x: usize = 0;
            while x < self.width
                invariant
                    self.wf(),
                    y < self.height,
                    x <= self.width,
                    out@ == start + ppm_pixels(self.data@[y as int]@.take(x as int)),
                decreases self.width - x,
            {
                push_pixel(&mut out, self.get(x, y));
                proof {
                    let row = self.data@[y as int]@;
                    assert(row.take(x + 1).drop_last() =~= row.take(x as int));
                    assert(row.take(x + 1).last() == row[x as int]);
                }
                x = x + 1;
            }
            proof {
                let row = self.data@[y as int]@;
                assert(row.take(x as int) =~= row);
                assert(self.data@.take(y + 1).drop_last() =~= self.data@.take(y as int));
                assert(self.data@.take(y + 1).last() == self.data@[y as int]);
            }
            y = y + 1;
        }
        assert(self.data@.take(y as int) =~= self.data@);
        out
    }
}

} // verus!
