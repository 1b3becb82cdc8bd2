//! The pixel model: RGBA images with 8-bit, non-premultiplied channels,
//! stored row by row.
use vstd::prelude::*;

verus! {

/// One pixel: red, green, blue and alpha, 8 bits each.
#[derive(Clone, Copy, Debug, PartialEq, Eq, Structural)]
pub struct Rgba {
    pub r: u8,
    pub g: u8,
    pub b: u8,
    pub a: u8,
}

/// The fully transparent black pixel that a fresh image is filled with.
pub open spec fn transparent() -> Rgba {
    Rgba { r: 0, g: 0, b: 0, a: 0 }
}

/// Channel `c` (0 = red, 1 = green, 2 = blue, 3 = alpha) of a pixel.
pub open spec fn channel(p: Rgba, c: int) -> u8 {
    if c == 0 {
        p.r
    } else if c == 1 {
        p.g
    } else if c == 2 {
        p.b
    } else {
        p.a
    }
}

/// The raw byte layout of a pixel sequence: four bytes per pixel, R, G, B, A.
pub open spec fn raw_bytes(pixels: Seq<Rgba>) -> Seq<u8> {
    Seq::new(4 * pixels.len(), |i: int| channel(pixels[i / 4], i % 4))
}

/// The raw RGB bytes of a pixel sequence: three bytes per pixel, alpha dropped.
pub open spec fn rgb_bytes(pixels: Seq<Rgba>) -> Seq<u8> {
    Seq::new(3 * pixels.len(), |i: int| channel(pixels[i / 3], i % 3))
}

/// Index of pixel (x, y) in the row-major pixel sequence of an image `width` wide.
pub open spec fn pixel_index(width: int, x: int, y: int) -> int {
    y * width + x
}

/// Whether (x, y) lies in the rectangle whose top-left corner is (left, top).
pub open spec fn in_rect(left: int, top: int, width: int, height: int, x: int, y: int) -> bool {
    left <= x < left + width && top <= y < top + height
}

/// Distinct in-bounds coordinates have distinct pixel indices, all inside the image.
pub proof fn lemma_pixel_index(width: int, height: int, x: int, y: int)
    requires
        0 <= x < width,
        0 <= y < height,
    ensures
        0 <= pixel_index(width, x, y) < width * height,
        forall|x2: int, y2: int|
            0 <= x2 < width && 0 <= y2 < height && pixel_index(width, x2, y2) == pixel_index(
                width,
                x,
                y,
            ) ==> x2 == x && y2 == y,
{
    assert(0 <= y * width + x < width * height) by (nonlinear_arith)
        requires
            0 <= x < width,
            0 <= y < height,
    ;
    assert forall|x2: int, y2: int|
        0 <= x2 < width && 0 <= y2 < height && pixel_index(width, x2, y2) == pixel_index(
            width,
            x,
            y,
        ) implies x2 == x && y2 == y by {
        assert(y2 * width + x2 == y * width + x ==> y2 == y) by (nonlinear_arith)
            requires
                0 <= x < width,
                0 <= x2 < width,
                0 <= y,
                0 <= y2,
        ;
    }
}

/// An RGBA image: `width * height` pixels in row-major order.
pub struct RgbaImage {
    width: u32,
    height: u32,
    pixels: Vec<Rgba>,
}

impl RgbaImage {
    #[verifier::type_invariant]
    spec fn inv(self) -> bool {
        &&& self.pixels@.len() == self.width * self.height
        &&& self.width * self.height * 4 <= usize::MAX
    }

    /// Width in pixels.
    pub closed spec fn spec_width(&self) -> nat {
        self.width as nat
    }

    /// Height in pixels.
    pub closed spec fn spec_height(&self) -> nat {
        self.height as nat
    }

    /// The pixels, row by row.
    pub closed spec fn spec_pixels(&self) -> Seq<Rgba> {
        self.pixels@
    }

    /// What every image satisfies: the pixel count is width times height, both fit
    /// in 32 bits, and the image's RGBA bytes fit the address space.
    pub open spec fn well_formed(&self) -> bool {
        &&& self.spec_pixels().len() == self.spec_width() * self.spec_height()
        &&& self.spec_width() <= u32::MAX
        &&& self.spec_height() <= u32::MAX
        &&& self.spec_width() * self.spec_height() * 4 <= usize::MAX
    }

    /// Whether (x, y) lies inside the image.
    pub open spec fn contains(&self, x: int, y: int) -> bool {
        0 <= x < self.spec_width() && 0 <= y < self.spec_height()
    }

    /// The pixel at (x, y).
    pub open spec fn spec_pixel(&self, x: int, y: int) -> Rgba {
        self.spec_pixels()[pixel_index(self.spec_width() as int, x, y)]
    }

    /// Whether two images have the same width and height.
    pub open spec fn same_size(&self, other: &RgbaImage) -> bool {
        self.spec_width() == other.spec_width() && self.spec_height() == other.spec_height()
    }

    /// A `width` x `height` image filled with transparent black.
    pub fn new(width: u32, height: u32) -> (img: RgbaImage)
        requires
            width * height * 4 <= usize::MAX,
        ensures
            img.well_formed(),
            img.spec_width() == width,
            img.spec_height() == height,
            forall|x: int, y: int| img.contains(x, y) ==> #[trigger] img.spec_pixel(x, y) == transparent(),
    {
        let n: usize = width as usize * height as usize;
        let mut pixels: Vec<Rgba> = Vec::with_capacity(n);
        let mut i: usize = 0;
        while i < n
            invariant
                i <= n,
                pixels@.len() == i,
                forall|k: int| 0 <= k < i ==> pixels@[k] == transparent(),
            decreases n - i,
        {
            pixels.push(Rgba { r: 0, g: 0, b: 0, a: 0 });
            i = i + 1;
        }
        let img = RgbaImage { width, height, pixels };
        assert forall|x: int, y: int| img.contains(x, y) implies #[trigger] img.spec_pixel(
            x,
            y,
        ) == transparent() by {
            lemma_pixel_index(width as int, height as int, x, y);
        }
        img
    }

    /// The image whose raw RGBA bytes are the first `width * height * 4` bytes of
    /// `raw`, or `None` when `raw` is shorter than that.
    pub fn from_raw(width: u32, height: u32, raw: &[u8]) -> (res: Option<RgbaImage>)
        ensures
            match res {
                Some(img) => {
                    &&& width * height * 4 <= raw@.len()
                    &&& img.well_formed()
                    &&& img.spec_width() == width
                    &&& img.spec_height() == height
                    &&& raw_bytes(img.spec_pixels()) == raw@.subrange(0, width * height * 4)
                },
                None => raw@.len() < width * height * 4,
            },
    {
        assert(width * height <= 0xffff_ffff_ffff_ffff) by (nonlinear_arith)
            requires
                width <= 0xffff_ffff,
                height <= 0xffff_ffff,
        ;
        let n64: u64 = width as u64 * height as u64;
        if n64 > (raw.len() / 4) as u64 {
            return None;
        }
        let n: usize = n64 as usize;
        let rl = raw.len();
        let mut pixels: Vec<Rgba> = Vec::with_capacity(n);
        let mut i: usize = 0;
        while i < n
            invariant
                i <= n,
                n == width * height,
                4 * n <= raw@.len(),
                rl == raw@.len(),
                pixels@.len() == i,
                forall|k: int|
                    0 <= k < i ==> #[trigger] pixels@[k] == (Rgba {
                        r: raw@[4 * k],
                        g: raw@[4 * k + 1],
                        b: raw@[4 * k + 2],
                        a: raw@[4 * k + 3],
                    }),
            decreases n - i,
        {
            let o = 4 * i;
            pixels.push(Rgba { r: raw[o], g: raw[o + 1], b: raw[o + 2], a: raw[o + 3] });
            i = i + 1;
        }
        let img = RgbaImage { width, height, pixels };
        assert(raw_bytes(img.spec_pixels()) =~= raw@.subrange(0, width * height * 4)) by {
            assert forall|j: int| 0 <= j < 4 * n implies raw_bytes(img.spec_pixels())[j]
                == raw@[j] by {
                let k = j / 4;
                assert(4 * k <= j < 4 * k + 4);
                assert(pixels@[k] == (Rgba {
                    r: raw@[4 * k],
                    g: raw@[4 * k + 1],
                    b: raw@[4 * k + 2],
                    a: raw@[4 * k + 3],
                }));
            }
        }
        Some(img)
    }

    /// The image made of `pixels`, row by row.
    pub fn from_pixels(width: u32, height: u32, pixels: Vec<Rgba>) -> (img: RgbaImage)
        requires
            pixels@.len() == width * height,
            width * height * 4 <= usize::MAX,
        ensures
            img.well_formed(),
            img.spec_width() == width,
            img.spec_height() == height,
            img.spec_pixels() == pixels@,
    {
        RgbaImage { width, height, pixels }
    }

    /// Width in pixels.
    pub fn width(&self) -> (w: u32)
        ensures
            w == self.spec_width(),
            self.well_formed(),
    {
        proof {
            use_type_invariant(self);
        }
        self.width
    }

    /// Height in pixels.
    pub fn height(&self) -> (h: u32)
        ensures
            h == self.spec_height(),
            self.well_formed(),
    {
        proof {
            use_type_invariant(self);
        }
        self.height
    }

    /// Width and height.
    pub fn dimensions(&self) -> (d: (u32, u32))
        ensures
            d.0 == self.spec_width(),
            d.1 == self.spec_height(),
            self.well_formed(),
    {
        proof {
            use_type_invariant(self);
        }
        (self.width, self.height)
    }

    /// The pixel at (x, y).
    pub fn get_pixel(&self, x: u32, y: u32) -> (p: Rgba)
        requires
            self.contains(x as int, y as int),
        ensures
            p == self.spec_pixel(x as int, y as int),
    {
        proof {
            use_type_invariant(self);
            lemma_pixel_index(self.width as int, self.height as int, x as int, y as int);
        }
        let len = self.pixels.len();
        assert(y * self.width <= y * self.width + x < len);
        let i = y as usize * self.width as usize + x as usize;
        self.pixels[i]
    }

    /// Sets the pixel at (x, y); every other pixel keeps its value.
    pub fn put_pixel(&mut self, x: u32, y: u32, p: Rgba)
        requires
            old(self).contains(x as int, y as int),
        ensures
            final(self).well_formed(),
            final(self).same_size(old(self)),
            final(self).spec_pixel(x as int, y as int) == p,
            forall|x2: int, y2: int|
                #![trigger final(self).spec_pixel(x2, y2)]
                final(self).contains(x2, y2) && !(x2 == x && y2 == y) ==> final(self).spec_pixel(x2, y2)
                    == old(self).spec_pixel(x2, y2),
    {
        proof {
            use_type_invariant(&*self);
            lemma_pixel_index(self.width as int, self.height as int, x as int, y as int);
        }
        let len = self.pixels.len();
        assert(y * self.width <= y * self.width + x < len);
        let i = y as usize * self.width as usize + x as usize;
        let mut img = RgbaImage { width: 0, height: 0, pixels: Vec::new() };
        std::mem::swap(&mut img, self);
        let RgbaImage { width, height, mut pixels } = img;
        pixels.set(i, p);
        *self = RgbaImage { width, height, pixels };
        proof {
            assert forall|x2: int, y2: int|
                #![trigger self.spec_pixel(x2, y2)]
                self.contains(x2, y2) && !(x2 == x && y2 == y) implies self.spec_pixel(x2, y2)
                    == old(self).spec_pixel(x2, y2) by {
                lemma_pixel_index(width as int, height as int, x2, y2);
            }
        }
    }

    /// The raw bytes of the image: four per pixel, R, G, B, A, row by row.
    pub fn to_raw(&self) -> (raw: Vec<u8>)
        ensures
            raw@ == raw_bytes(self.spec_pixels()),
    {
        proof {
            use_type_invariant(self);
        }
        let n = self.pixels.len();
        let mut raw: Vec<u8> = Vec::new();
        let mut i: usize = 0;
        while i < n
            invariant
                i <= n,
                n == self.pixels@.len(),
                raw@ =~= raw_bytes(self.pixels@.subrange(0, i as int)),
            decreases n - i,
        {
            let p = self.pixels[i];
            proof {
                assert(self.pixels@.subrange(0, i + 1) =~= self.pixels@.subrange(0, i as int).push(
                    p,
                ));
            }
            raw.push(p.r);
            raw.push(p.g);
            raw.push(p.b);
            raw.push(p.a);
            proof {
                let s = self.pixels@.subrange(0, i + 1);
                assert forall|j: int| 0 <= j < 4 * (i + 1) implies raw@[j] == raw_bytes(s)[j] by {
                    if j < 4 * i {
                        assert(s[j / 4] == self.pixels@.subrange(0, i as int)[j / 4]);
                    }
                }
                assert(raw@ =~= raw_bytes(s));
            }
            i = i + 1;
        }
        proof {
            assert(self.pixels@.subrange(0, n as int) =~= self.pixels@);
        }
        raw
    }

    /// The image as RGB bytes: three per pixel, R, G, B, row by row, alpha dropped.
    pub fn to_rgb_raw(&self) -> (raw: Vec<u8>)
        ensures
            raw@ == rgb_bytes(self.spec_pixels()),
    {
        proof {
            use_type_invariant(self);
        }
        let n = self.pixels.len();
        let mut raw: Vec<u8> = Vec::new();
        let mut i: usize = 0;
        while i < n
            invariant
                i <= n,
                n == self.pixels@.len(),
                raw@ =~= rgb_bytes(self.pixels@.subrange(0, i as int)),
            decreases n - i,
        {
            let p = self.pixels[i];
            raw.push(p.r);
            raw.push(p.g);
            raw.push(p.b);
            proof {
                let s = self.pixels@.subrange(0, i + 1);
                assert forall|j: int| 0 <= j < 3 * (i + 1) implies raw@[j] == rgb_bytes(s)[j] by {
                    if j < 3 * i {
                        assert(s[j / 3] == self.pixels@.subrange(0, i as int)[j / 3]);
                    }
                }
                assert(raw@ =~= rgb_bytes(s));
            }
            i = i + 1;
        }
        proof {
            assert(self.pixels@.subrange(0, n as int) =~= self.pixels@);
        }
        raw
    }

    /// An independent copy of the image.
    pub fn duplicate(&self) -> (copy: RgbaImage)
        ensures
            copy.well_formed(),
            copy.same_size(self),
            copy.spec_pixels() == self.spec_pixels(),
    {
        proof {
            use_type_invariant(self);
        }
        let pixels = self.pixels.clone();
        proof {
            assert(pixels@ =~= self.pixels@);
        }
        RgbaImage { width: self.width, height: self.height, pixels }
    }
}


/// Whether (x, y) is among the rectangle pixels that a row-by-row walk has reached
/// once it has finished `row` full rows and `col` pixels of the next one.
pub open spec fn walked(left: int, top: int, width: int, row: int, col: int, x: int, y: int) -> bool {
    ||| top <= y < top + row && left <= x < left + width
    ||| y == top + row && left <= x < left + col
}

/// How a source pixel `s` lands on a destination pixel `d` giving `out`: copied as it
/// is, or combined by `over`.
pub open spec fn painted<F: Fn(Rgba, Rgba) -> Rgba>(over: &F, use_over: bool, s: Rgba, d: Rgba, out: Rgba) -> bool {
    if use_over {
        over.ensures((s, d), out)
    } else {
        out == s
    }
}

impl RgbaImage {
    /// Lays `src` onto this image with its top-left corner at (left, top), clipped to
    /// this image: each covered pixel becomes the source pixel (`use_over` false) or
    /// what `over` makes of the source and the old pixel (`use_over` true). Pixels
    /// outside the rectangle keep their value.
    pub fn paint<F: Fn(Rgba, Rgba) -> Rgba>(&mut self, src: &RgbaImage, left: u32, top: u32, over: &F, use_over: bool)
        requires
            forall|s: Rgba, d: Rgba| #[trigger] over.requires((s, d)),
        ensures
            final(self).well_formed(),
            final(self).same_size(old(self)),
            forall|x: int, y: int|
                #![trigger final(self).spec_pixel(x, y)]
                final(self).contains(x, y) ==> if in_rect(
                    left as int,
                    top as int,
                    src.spec_width() as int,
                    src.spec_height() as int,
                    x,
                    y,
                ) {
                    painted(
                        over,
                        use_over,
                        src.spec_pixel(x - left, y - top),
                        old(self).spec_pixel(x, y),
                        final(self).spec_pixel(x, y),
                    )
                } else {
                    final(self).spec_pixel(x, y) == old(self).spec_pixel(x, y)
                },
    {
        let (cw, ch) = self.dimensions();
        let (sw, sh) = src.dimensions();
        let ghost start = *self;
        let mut sy: u32 = 0;
        while sy < sh
            invariant
                0 <= sy <= sh,
                cw == start.spec_width() && ch == start.spec_height(),
                sw == src.spec_width() && sh == src.spec_height(),
                src.well_formed(),
                self.well_formed(),
                self.same_size(&start),
                forall|s: Rgba, d: Rgba| #[trigger] over.requires((s, d)),
                forall|x: int, y: int|
                    #![trigger self.spec_pixel(x, y)]
                    self.contains(x, y) ==> if walked(left as int, top as int, sw as int, sy as int, 0, x, y) {
                        painted(
                            over,
                            use_over,
                            src.spec_pixel(x - left, y - top),
                            start.spec_pixel(x, y),
                            self.spec_pixel(x, y),
                        )
                    } else {
                        self.spec_pixel(x, y) == start.spec_pixel(x, y)
                    },
            decreases sh - sy,
        {
            let mut sx: u32 = 0;
            while sx < sw
                invariant
                    0 <= sx <= sw,
                    0 <= sy < sh,
                    cw == start.spec_width() && ch == start.spec_height(),
                    sw == src.spec_width() && sh == src.spec_height(),
                    src.well_formed(),
                    self.well_formed(),
                    self.same_size(&start),
                    forall|s: Rgba, d: Rgba| #[trigger] over.requires((s, d)),
                    forall|x: int, y: int|
                        #![trigger self.spec_pixel(x, y)]
                        self.contains(x, y) ==> if walked(left as int, top as int, sw as int, sy as int, sx as int, x, y) {
                            painted(
                                over,
                                use_over,
                                src.spec_pixel(x - left, y - top),
                                start.spec_pixel(x, y),
                                self.spec_pixel(x, y),
                            )
                        } else {
                            self.spec_pixel(x, y) == start.spec_pixel(x, y)
                        },
                decreases sw - sx,
            {
                let dx: u64 = left as u64 + sx as u64;
                let dy: u64 = top as u64 + sy as u64;
                if dx < cw as u64 && dy < ch as u64 {
                    let s = src.get_pixel(sx, sy);
                    let d = self.get_pixel(dx as u32, dy as u32);
                    let out = if use_over {
                        over(s, d)
                    } else {
                        s
                    };
                    self.put_pixel(dx as u32, dy as u32, out);
                }
                sx = sx + 1;
            }
            sy = sy + 1;
        }
    }

    /// Sets every pixel of the `width` x `height` rectangle at (left, top), clipped to
    /// this image, to transparent black; the other pixels keep their value.
    pub fn clear_rect(&mut self, left: u32, top: u32, width: u32, height: u32)
        ensures
            final(self).well_formed(),
            final(self).same_size(old(self)),
            forall|x: int, y: int|
                #![trigger final(self).spec_pixel(x, y)]
                final(self).contains(x, y) ==> final(self).spec_pixel(x, y) == if in_rect(
                    left as int,
                    top as int,
                    width as int,
                    height as int,
                    x,
                    y,
                ) {
                    transparent()
                } else {
                    old(self).spec_pixel(x, y)
                },
    {
        let (cw, ch) = self.dimensions();
        let ghost start = *self;
        let mut sy: u32 = 0;
        while sy < height
            invariant
                0 <= sy <= height,
                cw == start.spec_width() && ch == start.spec_height(),
                self.well_formed(),
                self.same_size(&start),
                forall|x: int, y: int|
                    #![trigger self.spec_pixel(x, y)]
                    self.contains(x, y) ==> self.spec_pixel(x, y) == if walked(left as int, top as int, width as int, sy as int, 0, x, y) {
                        transparent()
                    } else {
                        start.spec_pixel(x, y)
                    },
            decreases height - sy,
        {
            let mut sx: u32 = 0;
            while sx < width
                invariant
                    0 <= sx <= width,
                    0 <= sy < height,
                    cw == start.spec_width() && ch == start.spec_height(),
                    self.well_formed(),
                    self.same_size(&start),
                    forall|x: int, y: int|
                        #![trigger self.spec_pixel(x, y)]
                        self.contains(x, y) ==> self.spec_pixel(x, y) == if walked(left as int, top as int, width as int, sy as int, sx as int, x, y) {
                            transparent()
                        } else {
                            start.spec_pixel(x, y)
                        },
                decreases width - sx,
            {
                let dx: u64 = left as u64 + sx as u64;
                let dy: u64 = top as u64 + sy as u64;
                if dx < cw as u64 && dy < ch as u64 {
                    self.put_pixel(dx as u32, dy as u32, Rgba { r: 0, g: 0, b: 0, a: 0 });
                }
                sx = sx + 1;
            }
            sy = sy + 1;
        }
    }
}

/// Raw bytes determine the pixels: two pixel sequences with the same raw bytes are
/// equal, so turning an image into bytes (`to_raw`) and back (`from_raw`) gives the
/// same image.
pub proof fn lemma_raw_bytes_determine_pixels(a: Seq<Rgba>, b: Seq<Rgba>)
    requires
        raw_bytes(a) == raw_bytes(b),
    ensures
        a == b,
{
    assert(raw_bytes(a).len() == 4 * a.len());
    assert(raw_bytes(b).len() == 4 * b.len());
    assert(a.len() == b.len());
    assert forall|k: int| 0 <= k < a.len() implies a[k] == b[k] by {
        assert((4 * k) / 4 == k && (4 * k) % 4 == 0);
        assert((4 * k + 1) / 4 == k && (4 * k + 1) % 4 == 1);
        assert((4 * k + 2) / 4 == k && (4 * k + 2) % 4 == 2);
        assert((4 * k + 3) / 4 == k && (4 * k + 3) % 4 == 3);
        assert(raw_bytes(a)[4 * k] == raw_bytes(b)[4 * k]);
        assert(raw_bytes(a)[4 * k + 1] == raw_bytes(b)[4 * k + 1]);
        assert(raw_bytes(a)[4 * k + 2] == raw_bytes(b)[4 * k + 2]);
        assert(raw_bytes(a)[4 * k + 3] == raw_bytes(b)[4 * k + 3]);
        assert(raw_bytes(a)[4 * k] == channel(a[k], 0));
        assert(raw_bytes(b)[4 * k] == channel(b[k], 0));
        assert(raw_bytes(a)[4 * k + 1] == channel(a[k], 1));
        assert(raw_bytes(b)[4 * k + 1] == channel(b[k], 1));
        assert(raw_bytes(a)[4 * k + 2] == channel(a[k], 2));
        assert(raw_bytes(b)[4 * k + 2] == channel(b[k], 2));
        assert(raw_bytes(a)[4 * k + 3] == channel(a[k], 3));
        assert(raw_bytes(b)[4 * k + 3] == channel(b[k], 3));
        assert(a[k].r == b[k].r);
        assert(a[k].g == b[k].g);
        assert(a[k].b == b[k].b);
        assert(a[k].a == b[k].a);
    }
    assert(a =~= b);
}

} // verus!
