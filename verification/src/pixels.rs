use vstd::prelude::*;

verus! {

/// A frame as plain values: delay (hundredths of a second), width, height,
/// local color table (RGB triples) and palette indices (one per pixel, row by
/// row).
pub type FrameParts = (u16, u16, u16, Option<Seq<u8>>, Seq<u8>);

/// One decoded GIF frame: its size, its delay and its pixels as indices into a
/// color table (its own, or else the global one).
pub struct IndexedFrame {
    /// Delay in hundredths of a second.
    pub delay: u16,
    pub width: u16,
    pub height: u16,
    /// The frame's local color table, as RGB triples.
    pub palette: Option<Vec<u8>>,
    /// One palette index per pixel, row by row.
    pub buffer: Vec<u8>,
}

impl View for IndexedFrame {
    type V = FrameParts;

    open spec fn view(&self) -> FrameParts {
        (
            self.delay,
            self.width,
            self.height,
            match self.palette {
                Some(table) => Some(table@),
                None => None,
            },
            self.buffer@,
        )
    }
}

/// Number of pixels of an image of the given size.
pub open spec fn pixel_count(width: u16, height: u16) -> int {
    width * height
}

/// The color table that a frame's indices refer to, given the global one.
pub open spec fn frame_palette(frame: FrameParts, global: Seq<u8>) -> Seq<u8> {
    match frame.3 {
        Some(local) => local,
        None => global,
    }
}

/// Whether pixel `p` of the index buffer names an RGB triple present in `palette`.
pub open spec fn has_color(buffer: Seq<u8>, palette: Seq<u8>, p: int) -> bool {
    0 <= p < buffer.len() && 3 * buffer[p] + 2 < palette.len()
}

/// Blue, green, red and alpha of pixel `p`: the palette color when the pixel's
/// index names one, opaque black otherwise (also past the end of the buffer).
pub open spec fn pixel_bgra(buffer: Seq<u8>, palette: Seq<u8>, p: int) -> (u8, u8, u8, u8) {
    if has_color(buffer, palette, p) {
        let base = 3 * buffer[p];
        (palette[base + 2], palette[base + 1], palette[base], 255u8)
    } else {
        (0u8, 0u8, 0u8, 255u8)
    }
}

/// `out` is the BGRA image of `frame` in a buffer of `pixels` pixels: four
/// bytes per pixel, pixel `p` of the buffer showing the frame's pixel `p`.
pub open spec fn is_frame_image(out: Seq<u8>, frame: FrameParts, global: Seq<u8>, pixels: int) -> bool {
    &&& out.len() == 4 * pixels
    &&& forall|p: int|
        0 <= p < pixels ==> {
            let c = #[trigger] pixel_bgra(frame.4, frame_palette(frame, global), p);
            &&& out[4 * p] == c.0
            &&& out[4 * p + 1] == c.1
            &&& out[4 * p + 2] == c.2
            &&& out[4 * p + 3] == c.3
        }
}

impl IndexedFrame {
    /// Converts the frame to a BGRA buffer of `width * height` pixels (the
    /// logical screen), four bytes per pixel. Buffer pixel `p` takes the RGB
    /// triple at `3 * buffer[p]` of the frame's color table (its own, or else
    /// `global_palette`) when that triple is present, and is opaque black
    /// otherwise, as are pixels past the end of the frame's buffer; indices
    /// past the end of the image are ignored.
    pub fn to_bgra(&self, width: u16, height: u16, global_palette: &[u8]) -> (out: Vec<u8>)
        requires
            4 * pixel_count(width, height) <= usize::MAX,
        ensures
            is_frame_image(out@, self@, global_palette@, pixel_count(width, height)),
            out@.len() == 4 * (width * height),
            forall|p: int|
                #![trigger self.buffer@[p]]
                0 <= p < width * height && p < self.buffer@.len() ==> {
                    let table = match self.palette {
                        Some(local) => local@,
                        None => global_palette@,
                    };
                    let i = self.buffer@[p] as int;
                    3 * i + 2 < table.len() ==> {
                        &&& out@[4 * p] == table[3 * i + 2]
                        &&& out@[4 * p + 1] == table[3 * i + 1]
                        &&& out@[4 * p + 2] == table[3 * i]
                        &&& out@[4 * p + 3] == 255
                    }
                },
    {
        let palette: &[u8] = match &self.palette {
            Some(local) => local.as_slice(),
            None => global_palette,
        };
        let buffer = self.buffer.as_slice();
        let pixels = width as usize * height as usize;
        let mut out: Vec<u8> = Vec::with_capacity(4 * pixels);
        let mut p: usize = 0;
        while p < pixels
            invariant
                p <= pixels,
                4 * pixels <= usize::MAX,
                pixels == pixel_count(width, height),
                buffer@ == self@.4,
                palette@ == frame_palette(self@, global_palette@),
                out@.len() == 4 * p,
                forall|q: int|
                    0 <= q < p ==> {
                        let c = #[trigger] pixel_bgra(buffer@, palette@, q);
                        &&& out@[4 * q] == c.0
                        &&& out@[4 * q + 1] == c.1
                        &&& out@[4 * q + 2] == c.2
                        &&& out@[4 * q + 3] == c.3
                    },
            decreases pixels - p,
        {
            let mut blue: u8 = 0;
            let mut green: u8 = 0;
            let mut red: u8 = 0;
            if p < buffer.len() {
                let index = buffer[p] as usize;
                if 3 * index + 2 < palette.len() {
                    red = palette[3 * index];
                    green = palette[3 * index + 1];
                    blue = palette[3 * index + 2];
                }
            }
            out.push(blue);
            out.push(green);
            out.push(red);
            out.push(255u8);
            p = p + 1;
        }
        proof {
            assert forall|q: int|
                #![trigger self.buffer@[q]]
                0 <= q < width * height && q < self.buffer@.len() implies {
                    let table = match self.palette {
                        Some(local) => local@,
                        None => global_palette@,
                    };
                    let i = self.buffer@[q] as int;
                    3 * i + 2 < table.len() ==> {
                        &&& out@[4 * q] == table[3 * i + 2]
                        &&& out@[4 * q + 1] == table[3 * i + 1]
                        &&& out@[4 * q + 2] == table[3 * i]
                        &&& out@[4 * q + 3] == 255
                    }
                } by {
                lemma_palette_colour(out@, self@, global_palette@, pixel_count(width, height), q);
            }
        }
        out
    }
}

/// In a frame's image every pixel whose index names a color of the frame's
/// table (its own, or else the global one) shows that color: blue, green and
/// red of the triple at `3 * index`, fully opaque. This holds for every index
/// value from 0 to 255.
pub proof fn lemma_palette_colour(out: Seq<u8>, frame: FrameParts, global: Seq<u8>, pixels: int, p: int)
    requires
        is_frame_image(out, frame, global, pixels),
        0 <= p < pixels,
        p < frame.4.len(),
    ensures
        ({
            let table = match frame.3 {
                Some(local) => local,
                None => global,
            };
            let i = frame.4[p] as int;
            3 * i + 2 < table.len() ==> {
                &&& out[4 * p] == table[3 * i + 2]
                &&& out[4 * p + 1] == table[3 * i + 1]
                &&& out[4 * p + 2] == table[3 * i]
                &&& out[4 * p + 3] == 255
            }
        }),
{
    let _ = pixel_bgra(frame.4, frame_palette(frame, global), p);
}

/// In a frame's image a pixel is opaque black when it lies past the frame's
/// indices, or when its index names no color of the frame's table.
pub proof fn lemma_no_colour_is_black(out: Seq<u8>, frame: FrameParts, global: Seq<u8>, pixels: int, p: int)
    requires
        is_frame_image(out, frame, global, pixels),
        0 <= p < pixels,
        p >= frame.4.len() || 3 * frame.4[p] + 2 >= (match frame.3 {
            Some(local) => local,
            None => global,
        }).len(),
    ensures
        out[4 * p] == 0 && out[4 * p + 1] == 0 && out[4 * p + 2] == 0 && out[4 * p + 3] == 255,
{
    let _ = pixel_bgra(frame.4, frame_palette(frame, global), p);
}

/// Every pixel of a frame's image is fully opaque.
pub proof fn lemma_image_opaque(out: Seq<u8>, frame: FrameParts, global: Seq<u8>, pixels: int)
    requires
        is_frame_image(out, frame, global, pixels),
    ensures
        forall|p: int| 0 <= p < pixels ==> #[trigger] out[4 * p + 3] == 255,
{
    assert forall|p: int| 0 <= p < pixels implies #[trigger] out[4 * p + 3] == 255 by {
        let _ = pixel_bgra(frame.4, frame_palette(frame, global), p);
    }
}

/// A frame's image is determined by the frame, the global color table and the
/// image size: two images of the same input are equal.
pub proof fn lemma_image_unique(a: Seq<u8>, b: Seq<u8>, frame: FrameParts, global: Seq<u8>, pixels: int)
    requires
        is_frame_image(a, frame, global, pixels),
        is_frame_image(b, frame, global, pixels),
    ensures
        a == b,
{
    assert forall|k: int| 0 <= k < a.len() implies a[k] == b[k] by {
        let p = k / 4;
        let c = k % 4;
        assert(k == 4 * p + c && 0 <= c < 4 && 0 <= p < pixels) by (nonlinear_arith)
            requires
                p == k / 4,
                c == k % 4,
                0 <= k < 4 * pixels,
        ;
        let _ = pixel_bgra(frame.4, frame_palette(frame, global), p);
    }
    assert(a =~= b);
}

} // verus!
