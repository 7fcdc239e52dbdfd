//! The display sink's image storage, setup, and the per-frame sync step.
//!
//! The core never owns the displayed image directly: it registers the image
//! once at setup and afterwards reaches it only through a stable handle into
//! the sink's store. A handle that fails to resolve is a broken lifecycle
//! invariant and surfaces as a fatal-class error, never as a retry.

use vstd::prelude::*;
use crate::image::{ImageView, TermImage, alpha_opaque_bytes, consistent_pixmaps, fast_path_bytes,
    lemma_fast_path_alpha_preserved, lemma_fast_path_idempotent, lemma_stable_fixed_point};

verus! {

/// Why setup or a per-frame operation failed. Both variants are defects of
/// the surrounding lifecycle, not expected runtime variation: the caller
/// treats them as fatal rather than retrying.
#[derive(Clone, Copy, Debug, PartialEq, Eq, Structural)]
pub enum RenderError {
    /// At setup, the backend reported pixel data that does not cover its
    /// reported dimensions.
    InvalidBackendData,
    /// A registered image handle no longer resolves to an image.
    ImageNotFound,
}

/// A stable reference to one image in the display sink's store; handed out
/// at registration and valid for the store's whole life, since images are
/// never removed.
#[derive(Clone, Copy, Debug, PartialEq, Eq, Structural)]
pub struct ImageHandle {
    pub id: usize,
}

/// The display sink's storage: images keyed by the position at which they
/// were registered.
pub struct ImageStore {
    images: Vec<TermImage>,
}

impl View for ImageStore {
    type V = Seq<ImageView>;

    closed spec fn view(&self) -> Seq<ImageView> {
        self.images@.map_values(|img: TermImage| img@)
    }
}

impl ImageStore {
    /// Every stored image's buffer covers its dimensions.
    pub open spec fn wf(self) -> bool {
        forall|k: int| 0 <= k < self@.len() ==> (#[trigger] self@[k]).wf()
    }

    /// A handle resolves exactly when an image was registered under it.
    pub open spec fn resolves(self, handle: ImageHandle) -> bool {
        handle.id < self@.len()
    }

    /// An empty store.
    pub fn new() -> (store: ImageStore)
        ensures
            store@.len() == 0,
            store.wf(),
    {
        ImageStore { images: Vec::new() }
    }

    /// Register an image; the returned handle locates it from then on.
    pub fn add(&mut self, img: TermImage) -> (handle: ImageHandle)
        ensures
            final(self)@ == old(self)@.push(img@),
            handle.id == old(self)@.len(),
            old(self).wf() && img@.wf() ==> final(self).wf(),
    {
        let id = self.images.len();
        self.images.push(img);
        proof {
            assert(self@ =~= old(self)@.push(img@));
        }
        ImageHandle { id }
    }

    /// How many images the store holds.
    pub fn len(&self) -> (n: usize)
        ensures
            n == self@.len(),
    {
        self.images.len()
    }

    /// The image a handle resolves to, if any.
    pub fn get(&self, handle: &ImageHandle) -> (img: Option<&TermImage>)
        ensures
            self.resolves(*handle) ==> img is Some && img->Some_0@ == self@[handle.id as int],
            !self.resolves(*handle) ==> img is None,
    {
        if handle.id < self.images.len() {
            Some(&self.images[handle.id])
        } else {
            None
        }
    }
}

/// The image that one per-frame sync step leaves under the handle: with the
/// backend's pixmap size unchanged the fast path rewrites the colour
/// channels in place from the packed RGB pixmap; with a changed size the
/// buffer takes the backend's dimensions and its whole RGBA pixmap.
pub open spec fn sync_step(
    img: ImageView,
    backend_width: u32,
    backend_height: u32,
    rgb: Seq<u8>,
    rgba: Seq<u8>,
) -> ImageView {
    if img.width == backend_width && img.height == backend_height {
        ImageView {
            width: img.width,
            height: img.height,
            data: fast_path_bytes(img.data, rgb, img.pixel_count()),
        }
    } else {
        ImageView { width: backend_width, height: backend_height, data: rgba }
    }
}

/// Set up the terminal render target: validate the backend's initial report,
/// build an image of exactly its pixmap size from its RGBA data, register it,
/// and hand back the stable handle under which every later frame finds it.
/// When the data does not cover the reported dimensions the backend's report
/// is invalid, the store is left untouched and setup fails fatally.
pub fn terminal_render_setup(
    store: &mut ImageStore,
    width: u32,
    height: u32,
    rgba: Vec<u8>,
) -> (res: Result<ImageHandle, RenderError>)
    requires
        old(store).wf(),
    ensures
        final(store).wf(),
        res is Ok <==> rgba@.len() == 4 * ((width as int) * (height as int)),
        res is Ok ==> final(store)@ == old(store)@.push(
            ImageView { width, height, data: rgba@ },
        ) && res->Ok_0.id == old(store)@.len() && final(store).resolves(res->Ok_0),
        res is Err ==> *final(store) == *old(store) && res->Err_0
            == RenderError::InvalidBackendData,
        res is Ok && alpha_opaque_bytes(rgba@) ==> alpha_opaque_bytes(
            final(store)@[old(store)@.len() as int].data,
        ),
{
    proof {
        assert((width as int) * (height as int) <= u32::MAX as int * u32::MAX as int)
            by (nonlinear_arith)
            requires
                width <= u32::MAX,
                height <= u32::MAX,
        ;
    }
    let pixels: u64 = (width as u64) * (height as u64);
    let len: usize = rgba.len();
    proof {
        vstd::arithmetic::div_mod::lemma_fundamental_div_mod(len as int, 4);
    }
    if len % 4 != 0 || (len / 4) as u64 != pixels {
        return Err(RenderError::InvalidBackendData);
    }
    let img = TermImage::new(width, height, rgba);
    let handle = store.add(img);
    Ok(handle)
}

/// The per-frame sync: compare the backend's current pixmap size with the
/// image under the handle, then update the image by `sync_step`. After a
/// successful call the image's dimensions equal the backend's, whatever they
/// were before. Fails exactly when the handle does not resolve — a broken
/// invariant treated as fatal by the caller, with the store left untouched.
pub fn render_terminal_to_handle(
    store: &mut ImageStore,
    handle: &ImageHandle,
    backend_width: u32,
    backend_height: u32,
    rgb: &Vec<u8>,
    rgba: Vec<u8>,
) -> (res: Result<(), RenderError>)
    requires
        old(store).wf(),
        rgb@.len() == 3 * ((backend_width as int) * (backend_height as int)),
        rgba@.len() == 4 * ((backend_width as int) * (backend_height as int)),
    ensures
        final(store).wf(),
        res is Ok <==> old(store).resolves(*handle),
        old(store).resolves(*handle) ==> final(store)@ == old(store)@.update(
            handle.id as int,
            sync_step(old(store)@[handle.id as int], backend_width, backend_height, rgb@, rgba@),
        ),
        old(store).resolves(*handle) ==> final(store)@[handle.id as int].width == backend_width
            && final(store)@[handle.id as int].height == backend_height,
        !old(store).resolves(*handle) ==> *final(store) == *old(store) && res->Err_0
            == RenderError::ImageNotFound,
{
    if handle.id >= store.images.len() {
        return Err(RenderError::ImageNotFound);
    }
    let ghost target = sync_step(
        old(store)@[handle.id as int],
        backend_width,
        backend_height,
        rgb@,
        rgba@,
    );
    let mut img = store.images.remove(handle.id);
    if img.width() == backend_width && img.height() == backend_height {
        img.fast_path_copy(rgb);
    } else {
        img.resize_repopulate(backend_width, backend_height, rgba);
    }
    proof {
        assert(img@ == target);
    }
    store.images.insert(handle.id, img);
    proof {
        assert(store@ =~= old(store)@.update(handle.id as int, target));
    }
    Ok(())
}

/// The backend's state as one sync tick sees it: its pixmap dimensions and
/// the two pixmap encodings it would hand out.
pub ghost struct BackendFrame {
    pub width: u32,
    pub height: u32,
    pub rgb: Seq<u8>,
    pub rgba: Seq<u8>,
}

/// The image left after syncing once per frame, in order.
pub open spec fn run_sync_steps(img: ImageView, frames: Seq<BackendFrame>) -> ImageView
    decreases frames.len(),
{
    if frames.len() == 0 {
        img
    } else {
        run_sync_steps(
            sync_step(img, frames[0].width, frames[0].height, frames[0].rgb, frames[0].rgba),
            frames.subrange(1, frames.len() as int),
        )
    }
}

/// Dimension convergence over a whole run: however the resize events moved
/// the backend's pixmap size from frame to frame, after the last frame the
/// image's dimensions equal the backend dimensions of that frame — so once
/// resizes stop, one further frame suffices and the dimensions stay equal.
pub proof fn lemma_run_converges(img: ImageView, frames: Seq<BackendFrame>)
    requires
        frames.len() > 0,
    ensures
        run_sync_steps(img, frames).width == frames.last().width,
        run_sync_steps(img, frames).height == frames.last().height,
    decreases frames.len(),
{
    let rest = frames.subrange(1, frames.len() as int);
    let next = sync_step(img, frames[0].width, frames[0].height, frames[0].rgb, frames[0].rgba);
    if frames.len() == 1 {
        assert(run_sync_steps(next, rest) == next);
    } else {
        lemma_run_converges(next, rest);
        assert(rest.last() == frames.last());
    }
}

/// Dimension convergence: whatever sequence of resizes came before, a single
/// sync step leaves the image's dimensions equal to the backend's pixmap
/// dimensions; every further step with an unchanged backend keeps them equal.
pub proof fn lemma_dimension_convergence(
    img: ImageView,
    backend_width: u32,
    backend_height: u32,
    rgb: Seq<u8>,
    rgba: Seq<u8>,
)
    ensures
        sync_step(img, backend_width, backend_height, rgb, rgba).width == backend_width,
        sync_step(img, backend_width, backend_height, rgb, rgba).height == backend_height,
{
}

/// Alpha invariant across frames: an image whose alpha bytes are all opaque
/// keeps them so through any sync step whose RGBA pixmap is opaque too — the
/// fast path never touches them, and the resize path rewrites them from an
/// opaque source.
pub proof fn lemma_sync_alpha_invariant(
    img: ImageView,
    backend_width: u32,
    backend_height: u32,
    rgb: Seq<u8>,
    rgba: Seq<u8>,
)
    requires
        alpha_opaque_bytes(img.data),
        alpha_opaque_bytes(rgba),
    ensures
        alpha_opaque_bytes(sync_step(img, backend_width, backend_height, rgb, rgba).data),
{
    lemma_fast_path_alpha_preserved(img.data, rgb, img.pixel_count());
}

/// A steady frame is a no-op: when the image already matches the backend's
/// size and holds the backend's picture, a sync step leaves it unchanged.
pub proof fn lemma_steady_state_noop(
    img: ImageView,
    backend_width: u32,
    backend_height: u32,
    rgb: Seq<u8>,
    rgba: Seq<u8>,
)
    requires
        img.width == backend_width,
        img.height == backend_height,
        consistent_pixmaps(rgb, img.data, img.pixel_count()),
        img.pixel_count() >= 0,
    ensures
        sync_step(img, backend_width, backend_height, rgb, rgba) == img,
{
    lemma_stable_fixed_point(rgb, img.data, img.pixel_count());
}

/// Idempotence of the stable state: with unchanged, consistent backend data,
/// running the sync step twice gives the same image as running it once —
/// after the first step the system is stable, and stable steps change
/// nothing but the colour bytes they would rewrite identically.
pub proof fn lemma_sync_idempotent(
    img: ImageView,
    backend_width: u32,
    backend_height: u32,
    rgb: Seq<u8>,
    rgba: Seq<u8>,
)
    requires
        consistent_pixmaps(rgb, rgba, (backend_width as int) * (backend_height as int)),
    ensures
        sync_step(
            sync_step(img, backend_width, backend_height, rgb, rgba),
            backend_width,
            backend_height,
            rgb,
            rgba,
        ) == sync_step(img, backend_width, backend_height, rgb, rgba),
{
    let n = (backend_width as int) * (backend_height as int);
    if img.width == backend_width && img.height == backend_height {
        lemma_fast_path_idempotent(img.data, rgb, n);
    } else {
        assert((backend_width as int) * (backend_height as int) >= 0) by (nonlinear_arith)
            requires
                backend_width as int >= 0,
                backend_height as int >= 0,
        ;
        lemma_stable_fixed_point(rgb, rgba, n);
    }
}

} // verus!
