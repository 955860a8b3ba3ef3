//! Framebuffer export helpers (BMP + ARGB→RGBA).

use vstd::prelude::*;

verus! {

/// Byte `k` of the RGBA image of ARGB pixels `fb`: each pixel becomes R, G,
/// B, A.
pub open spec fn rgba_byte(fb: Seq<u32>, k: int) -> u8 {
    let p = fb[k / 4];
    let c = k % 4;
    if c == 0 {
        (p >> 16) as u8
    } else if c == 1 {
        (p >> 8) as u8
    } else if c == 2 {
        p as u8
    } else {
        (p >> 24) as u8
    }
}

/// Convert an ARGB8888 framebuffer to RGBA8888 bytes (for Canvas ImageData).
pub fn argb_to_rgba(fb: &[u32], out: &mut [u8])
    requires
        old(out)@.len() == fb@.len() * 4,
    ensures
        final(out)@ == Seq::new(fb@.len() * 4, |k: int| rgba_byte(fb@, k)),
{
    let n = fb.len();
    let mut i: usize = 0;
    while i < n
        invariant
            i <= n,
            n == fb@.len(),
            out@.len() == n * 4,
            out.len() == n * 4,
            forall|k: int| 0 <= k < i * 4 ==> #[trigger] out@[k] == rgba_byte(fb@, k),
        decreases n - i,
    {
        let p = fb[i];
        let a = (p >> 24) as u8;
        let r = (p >> 16) as u8;
        let g = (p >> 8) as u8;
        let b = p as u8;
        out[i * 4 + 0] = r;
        out[i * 4 + 1] = g;
        out[i * 4 + 2] = b;
        out[i * 4 + 3] = a;
        assert forall|k: int| i * 4 <= k < i * 4 + 4 implies #[trigger] out@[k] == rgba_byte(fb@, k) by {
            assert(k / 4 == i);
        }
        i += 1;
    }
    assert(out@ =~= Seq::new(fb@.len() * 4, |k: int| rgba_byte(fb@, k)));
}

/// The four little-endian bytes of `v`.
pub open spec fn le_bytes(v: u32) -> Seq<u8> {
    seq![v as u8, (v >> 8) as u8, (v >> 16) as u8, (v >> 24) as u8]
}

/// The two little-endian bytes of `v`.
pub open spec fn le16_bytes(v: u16) -> Seq<u8> {
    seq![v as u8, (v >> 8) as u8]
}

/// Bytes per BMP pixel row: three per pixel, padded to a multiple of four.
pub open spec fn bmp_row_bytes(width: u32) -> int {
    ((width * 3 + 3) / 4) * 4
}

/// The 54-byte header of a 24-bit BMP of the given size: the file header
/// ("BM", file size, reserved, pixel offset 54) and the 40-byte info header
/// (size, one plane, 24 bits, no compression, 2835 pixels per metre).
pub open spec fn bmp_header(width: u32, height: u32) -> Seq<u8> {
    let pixel_bytes = (bmp_row_bytes(width) * height) as u32;
    let file_size = (54 + pixel_bytes) as u32;
    seq![0x42u8, 0x4Du8] + le_bytes(file_size) + le16_bytes(0) + le16_bytes(0) + le_bytes(54)
        + le_bytes(40) + le_bytes(width) + le_bytes(height) + le16_bytes(1) + le16_bytes(24)
        + le_bytes(0) + le_bytes(pixel_bytes) + le_bytes(2835) + le_bytes(2835) + le_bytes(0)
        + le_bytes(0)
}

/// BMP row `y` of the framebuffer: each pixel as B, G, R, then zero padding.
pub open spec fn bmp_row(fb: Seq<u32>, width: u32, y: int) -> Seq<u8> {
    Seq::new(bmp_row_bytes(width) as nat, |j: int| {
        if j < width * 3 {
            let p = fb[y * width + j / 3];
            let c = j % 3;
            if c == 0 { p as u8 } else if c == 1 { (p >> 8) as u8 } else { (p >> 16) as u8 }
        } else {
            0u8
        }
    })
}

/// The first `k` rows of BMP pixel data, bottom row first.
pub open spec fn bmp_rows(fb: Seq<u32>, width: u32, height: u32, k: nat) -> Seq<u8>
    decreases k,
{
    if k == 0 {
        Seq::empty()
    } else {
        bmp_rows(fb, width, height, (k - 1) as nat) + bmp_row(fb, width, height - k)
    }
}

/// `k` rows of BMP pixel data take `k` times the row size.
proof fn lemma_bmp_rows_len(fb: Seq<u32>, width: u32, height: u32, k: nat)
    requires
        width * 3 <= bmp_row_bytes(width),
    ensures
        bmp_rows(fb, width, height, k).len() == k * bmp_row_bytes(width),
    decreases k,
{
    if k > 0 {
        lemma_bmp_rows_len(fb, width, height, (k - 1) as nat);
        assert(bmp_row_bytes(width) >= 0);
        assert(bmp_row(fb, width, height - k).len() == bmp_row_bytes(width));
        assert(bmp_rows(fb, width, height, k) == bmp_rows(fb, width, height, (k - 1) as nat) + bmp_row(fb, width, height - k));
        let r = bmp_row_bytes(width);
        let kk = k as int;
        assert((kk - 1) * r + r == kk * r) by (nonlinear_arith);
    } else {
        let r = bmp_row_bytes(width);
        let kk = k as int;
        assert(kk == 0 ==> kk * r == 0) by (nonlinear_arith);
    }
}

/// Encode an ARGB8888 framebuffer to a 24-bit BMP file.
pub fn framebuffer_to_bmp(fb: &[u32], width: u32, height: u32) -> (r: Vec<u8>)
    requires
        width * 3 + 3 <= u32::MAX,
        54 + bmp_row_bytes(width) * height <= u32::MAX,
        fb@.len() >= width * height,
    ensures
        r@ == bmp_header(width, height) + bmp_rows(fb@, width, height, height as nat),
        r@.len() == 54 + bmp_row_bytes(width) * height,
{
    proof {
        assert(0 <= bmp_row_bytes(width) * height) by (nonlinear_arith)
            requires bmp_row_bytes(width) >= 0;
        assert(width * 3 <= bmp_row_bytes(width));
        assert(width * height <= bmp_row_bytes(width) * height) by (nonlinear_arith)
            requires width * 3 <= bmp_row_bytes(width), 0 <= width;
    }
    let row_bytes = ((width * 3 + 3) / 4) * 4;
    let pixel_bytes = row_bytes * height;
    let file_size = 54 + pixel_bytes;
    let mut out: Vec<u8> = Vec::with_capacity(file_size as usize);
    // BITMAPFILEHEADER
    out.push(0x42);
    out.push(0x4D);
    push_le(&mut out, file_size);
    push_le16(&mut out, 0);
    push_le16(&mut out, 0);
    push_le(&mut out, 54);
    // BITMAPINFOHEADER (40 bytes)
    push_le(&mut out, 40);
    push_le(&mut out, width);
    push_le(&mut out, height);
    push_le16(&mut out, 1);
    push_le16(&mut out, 24);
    push_le(&mut out, 0);
    push_le(&mut out, pixel_bytes);
    push_le(&mut out, 2835);
    push_le(&mut out, 2835);
    push_le(&mut out, 0);
    push_le(&mut out, 0);
    let ghost header = out@;
    assert(header =~= bmp_header(width, height));
    // Pixel data (BMP is bottom-up)
    let mut y = height;
    while y > 0
        invariant
            y <= height,
            row_bytes == bmp_row_bytes(width),
            width * 3 <= row_bytes,
            fb@.len() >= width * height,
            fb.len() >= width * height,
            width * height <= u32::MAX,
            out@ == header + bmp_rows(fb@, width, height, (height - y) as nat),
            header.len() == 54,
            54 + row_bytes * height <= u32::MAX,
        decreases y,
    {
        y -= 1;
        proof {
            assert(y * width + width <= width * height) by (nonlinear_arith)
                requires y < height;
        }
        let row_start = (y * width) as usize;
        let ghost before = out@;
        let mut x: usize = 0;
        while x < width as usize
            invariant
                x <= width,
                y < height,
                row_start == y * width,
                row_start + width <= fb.len(),
                out@.len() == before.len() + 3 * x,
                forall|k: int| 0 <= k < before.len() ==> #[trigger] out@[k] == before[k],
                forall|j: int| 0 <= j < 3 * x ==> #[trigger] out@[before.len() + j] == bmp_row(fb@, width, y as int)[j],
                row_bytes == bmp_row_bytes(width),
                width * 3 <= row_bytes,
            decreases width - x,
        {
            let p = fb[row_start + x];
            out.push(p as u8); // B
            out.push((p >> 8) as u8); // G
            out.push((p >> 16) as u8); // R
            assert forall|j: int| 3 * x <= j < 3 * x + 3 implies #[trigger] out@[before.len() + j]
                == bmp_row(fb@, width, y as int)[j] by {
                assert(j / 3 == x);
            }
            x += 1;
        }
        let padding = row_bytes - width * 3;
        let mut k: u32 = 0;
        while k < padding
            invariant
                k <= padding,
                padding == row_bytes - width * 3,
                out@.len() == before.len() + 3 * width + k,
                forall|q: int| 0 <= q < before.len() ==> #[trigger] out@[q] == before[q],
                forall|j: int| 0 <= j < 3 * width + k ==> #[trigger] out@[before.len() + j] == bmp_row(fb@, width, y as int)[j],
                row_bytes == bmp_row_bytes(width),
            decreases padding - k,
        {
            out.push(0);
            k += 1;
        }
        assert forall|i: int| 0 <= i < out@.len() implies #[trigger] out@[i] == (before + bmp_row(fb@, width, y as int))[i] by {
            if i >= before.len() {
                let j = i - before.len();
                assert(out@[before.len() + j] == bmp_row(fb@, width, y as int)[j]);
            }
        }
        assert(out@ =~= before + bmp_row(fb@, width, y as int));
        assert(height - y == (height - (y + 1)) + 1);
    }
    proof {
        lemma_bmp_rows_len(fb@, width, height, height as nat);
        assert(height as nat * bmp_row_bytes(width) == bmp_row_bytes(width) * height) by (nonlinear_arith);
    }
    out
}

/// Append the four little-endian bytes of `v`.
fn push_le(out: &mut Vec<u8>, v: u32)
    ensures
        final(out)@ == old(out)@ + le_bytes(v),
{
    out.push(v as u8);
    out.push((v >> 8) as u8);
    out.push((v >> 16) as u8);
    out.push((v >> 24) as u8);
    assert(final(out)@ =~= old(out)@ + le_bytes(v));
}

/// Append the two little-endian bytes of `v`.
fn push_le16(out: &mut Vec<u8>, v: u16)
    ensures
        final(out)@ == old(out)@ + le16_bytes(v),
{
    out.push(v as u8);
    out.push((v >> 8) as u8);
    assert(final(out)@ =~= old(out)@ + le16_bytes(v));
}

} // verus!
