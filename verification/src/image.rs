//! The shared image buffer and the two per-frame population paths.
//!
//! The buffer holds four bytes per pixel (R, G, B, A), row-major. In the
//! steady state the backend's packed RGB pixmap is copied over the colour
//! channels in place, leaving every alpha byte as it was; after a size change
//! the buffer is reallocated and repopulated wholesale from the backend's
//! RGBA pixmap.

use vstd::prelude::*;

verus! {

/// The mathematical view of an image buffer: its size in pixels and the raw
/// RGBA bytes, four per pixel, row-major.
pub ghost struct ImageView {
    pub width: u32,
    pub height: u32,
    pub data: Seq<u8>,
}

impl ImageView {
    /// The number of pixels the dimensions describe.
    pub open spec fn pixel_count(self) -> int {
        (self.width as int) * (self.height as int)
    }

    /// The buffer holds exactly four bytes for every pixel.
    pub open spec fn wf(self) -> bool {
        self.data.len() == 4 * self.pixel_count()
    }
}

/// Every pixel's alpha byte (channel 3 of 4) is fully opaque.
pub open spec fn alpha_opaque_bytes(data: Seq<u8>) -> bool {
    forall|j: int| 0 <= j < data.len() && j % 4 == 3 ==> data[j] == 255
}

/// The buffer the fast path produces from `dst`: for each of the first `n`
/// pixels the three colour channels come from the packed 3-byte RGB source
/// and the alpha byte keeps its previous value; all bytes past `4 * n` are
/// untouched.
pub open spec fn fast_path_bytes(dst: Seq<u8>, src: Seq<u8>, n: int) -> Seq<u8> {
    Seq::new(
        dst.len(),
        |j: int|
            if j < 4 * n && j % 4 < 3 {
                src[3 * (j / 4) + j % 4]
            } else {
                dst[j]
            },
    )
}

/// The packed RGB pixmap and the RGBA pixmap describe the same `n`-pixel
/// picture: for every pixel the colour channels agree byte for byte and the
/// RGBA pixmap's alpha byte is fully opaque.
pub open spec fn consistent_pixmaps(rgb: Seq<u8>, rgba: Seq<u8>, n: int) -> bool {
    &&& rgb.len() == 3 * n
    &&& rgba.len() == 4 * n
    &&& forall|j: int|
        0 <= j < rgba.len() ==> rgba[j] == (
        if j % 4 < 3 {
            rgb[3 * (j / 4) + j % 4]
        } else {
            255u8
        })
}

/// Fast-path correctness: on a destination of exactly `4 * n` bytes, every
/// pixel's three colour channels come from the corresponding packed RGB
/// source pixel, and every alpha byte keeps its previous value.
pub proof fn lemma_fast_path_correct(dst: Seq<u8>, src: Seq<u8>, n: int)
    requires
        0 <= n,
        dst.len() == 4 * n,
        src.len() == 3 * n,
    ensures
        fast_path_bytes(dst, src, n).len() == dst.len(),
        forall|j: int|
            0 <= j < dst.len() && j % 4 < 3 ==> fast_path_bytes(dst, src, n)[j] == src[3 * (j / 4)
                + j % 4],
        forall|j: int|
            0 <= j < dst.len() && j % 4 == 3 ==> fast_path_bytes(dst, src, n)[j] == dst[j],
{
}

/// Idempotence of the stable state: running the fast-path conversion twice
/// with the same source yields the same buffer as running it once.
pub proof fn lemma_fast_path_idempotent(dst: Seq<u8>, src: Seq<u8>, n: int)
    ensures
        fast_path_bytes(fast_path_bytes(dst, src, n), src, n) == fast_path_bytes(dst, src, n),
{
    assert(fast_path_bytes(fast_path_bytes(dst, src, n), src, n) =~= fast_path_bytes(
        dst,
        src,
        n,
    ));
}

/// The fast path preserves the alpha invariant: a buffer whose alpha bytes
/// are all opaque keeps them so, whatever RGB source is copied over it.
pub proof fn lemma_fast_path_alpha_preserved(dst: Seq<u8>, src: Seq<u8>, n: int)
    requires
        alpha_opaque_bytes(dst),
    ensures
        alpha_opaque_bytes(fast_path_bytes(dst, src, n)),
{
}

/// A buffer already equal to the picture the backend holds is a fixed point
/// of the fast path: when the two pixmaps describe the same picture, copying
/// the RGB one over the RGBA one changes nothing.
pub proof fn lemma_stable_fixed_point(rgb: Seq<u8>, rgba: Seq<u8>, n: int)
    requires
        0 <= n,
        consistent_pixmaps(rgb, rgba, n),
    ensures
        fast_path_bytes(rgba, rgb, n) == rgba,
{
    assert(fast_path_bytes(rgba, rgb, n) =~= rgba);
}

/// The displayed image: an RGBA byte buffer together with its pixel
/// dimensions. It is created once at setup, then mutated in place every
/// frame, and reallocated only when the backend's pixmap size changes.
pub struct TermImage {
    width: u32,
    height: u32,
    data: Vec<u8>,
}

impl View for TermImage {
    type V = ImageView;

    closed spec fn view(&self) -> ImageView {
        ImageView { width: self.width, height: self.height, data: self.data@ }
    }
}

impl TermImage {
    /// Build an image of the given size from a full RGBA byte buffer.
    pub fn new(width: u32, height: u32, data: Vec<u8>) -> (img: TermImage)
        requires
            data@.len() == 4 * ((width as int) * (height as int)),
        ensures
            img@ == (ImageView { width, height, data: data@ }),
            img@.wf(),
    {
        TermImage { width, height, data }
    }

    /// The per-frame fast path: with the backend's pixmap size unchanged,
    /// copy the three colour channels of every pixel from the packed RGB
    /// pixmap into the buffer in place, and leave every alpha byte as it was.
    pub fn fast_path_copy(&mut self, rgb: &Vec<u8>)
        requires
            old(self)@.wf(),
            rgb@.len() == 3 * old(self)@.pixel_count(),
        ensures
            final(self)@.width == old(self)@.width,
            final(self)@.height == old(self)@.height,
            final(self)@.data == fast_path_bytes(old(self)@.data, rgb@, old(self)@.pixel_count()),
            final(self)@.wf(),
    {
        let ghost pre = self@;
        let rgb_len: usize = rgb.len();
        let n: usize = self.data.len() / 4;
        proof {
            assert(4 * pre.pixel_count() / 4 == pre.pixel_count()) by (nonlinear_arith);
            assert(n == pre.pixel_count());
        }
        let mut i: usize = 0;
        while i < n
            invariant
                i <= n,
                self.width == old(self).width,
                self.height == old(self).height,
                self@.data.len() == pre.data.len(),
                pre == old(self)@,
                pre.data.len() == 4 * n,
                pre.data.len() <= usize::MAX,
                rgb@.len() == 3 * n,
                rgb@.len() <= usize::MAX,
                forall|j: int|
                    0 <= j < self@.data.len() ==> self@.data[j] == (
                    if j < 4 * i && j % 4 < 3 {
                        rgb@[3 * (j / 4) + j % 4]
                    } else {
                        pre.data[j]
                    }),
            decreases n - i,
        {
            let r = rgb[3 * i];
            let g = rgb[3 * i + 1];
            let b = rgb[3 * i + 2];
            self.data.set(4 * i, r);
            self.data.set(4 * i + 1, g);
            self.data.set(4 * i + 2, b);
            proof {
                assert forall|j: int| 0 <= j < self@.data.len() implies self@.data[j] == (
                    if j < 4 * (i + 1) && j % 4 < 3 {
                        rgb@[3 * (j / 4) + j % 4]
                    } else {
                        pre.data[j]
                    }) by {
                    if 4 * i <= j < 4 * (i + 1) {
                        assert(j / 4 == i && j % 4 == j - 4 * i) by (nonlinear_arith)
                            requires
                                4 * i <= j < 4 * (i + 1),
                        ;
                    }
                }
            }
            i = i + 1;
        }
        proof {
            assert(self@.data =~= fast_path_bytes(pre.data, rgb@, pre.pixel_count()));
        }
    }

    /// The resize path: reallocate the buffer to the backend's new pixmap
    /// size and repopulate it wholesale from the backend's RGBA pixmap,
    /// alpha bytes included.
    pub fn resize_repopulate(&mut self, width: u32, height: u32, rgba: Vec<u8>)
        requires
            rgba@.len() == 4 * ((width as int) * (height as int)),
        ensures
            final(self)@ == (ImageView { width, height, data: rgba@ }),
            final(self)@.wf(),
    {
        self.width = width;
        self.height = height;
        self.data = rgba;
    }

    /// The image's width in pixels.
    pub fn width(&self) -> (w: u32)
        ensures
            w == self@.width,
    {
        self.width
    }

    /// The image's height in pixels.
    pub fn height(&self) -> (h: u32)
        ensures
            h == self@.height,
    {
        self.height
    }

    /// The raw RGBA bytes of the image.
    pub fn bytes(&self) -> (b: &Vec<u8>)
        ensures
            b@ == self@.data,
    {
        &self.data
    }

    /// Consume the image, handing its RGBA byte buffer back to the owner of
    /// the backing storage.
    pub fn into_bytes(self) -> (b: Vec<u8>)
        ensures
            b@ == self@.data,
    {
        self.data
    }
}

} // verus!
