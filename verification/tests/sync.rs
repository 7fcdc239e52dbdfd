use windowed_term::image::TermImage;
use windowed_term::store::{
    render_terminal_to_handle, terminal_render_setup, ImageHandle, ImageStore, RenderError,
};

/// A packed 3-byte-per-pixel test pixmap with distinct channel values.
fn rgb_pixmap(pixels: usize) -> Vec<u8> {
    let mut data: Vec<u8> = Vec::new();
    for i in 0..pixels {
        data.push((i * 3) as u8);
        data.push((i * 3 + 1) as u8);
        data.push((i * 3 + 2) as u8);
    }
    data
}

/// The 4-byte-per-pixel pixmap describing the same picture as `rgb_pixmap`,
/// with fully opaque alpha.
fn rgba_pixmap(pixels: usize) -> Vec<u8> {
    let mut data: Vec<u8> = Vec::new();
    for i in 0..pixels {
        data.push((i * 3) as u8);
        data.push((i * 3 + 1) as u8);
        data.push((i * 3 + 2) as u8);
        data.push(255);
    }
    data
}

#[test]
fn fast_path_converts_pixels() {
    let mut img = TermImage::new(2, 1, vec![1, 2, 3, 9, 4, 5, 6, 8]);
    let rgb = vec![10, 20, 30, 40, 50, 60];
    img.fast_path_copy(&rgb);
    assert_eq!(img.bytes(), &vec![10, 20, 30, 9, 40, 50, 60, 8]);
}

#[test]
fn fast_path_leaves_alpha_untouched() {
    let mut img = TermImage::new(1, 1, vec![0, 0, 0, 77]);
    img.fast_path_copy(&vec![200, 100, 50]);
    assert_eq!(img.bytes(), &vec![200, 100, 50, 77]);
}

#[test]
fn fast_path_idempotent() {
    let mut img = TermImage::new(3, 2, rgba_pixmap(6));
    let rgb = rgb_pixmap(6);
    img.fast_path_copy(&rgb);
    let after_first = img.bytes().clone();
    img.fast_path_copy(&rgb);
    assert_eq!(img.bytes(), &after_first);
}

#[test]
fn fast_path_zero_size() {
    let mut img = TermImage::new(0, 0, Vec::new());
    img.fast_path_copy(&Vec::new());
    assert_eq!(img.bytes().len(), 0);
    let mut wide = TermImage::new(7, 0, Vec::new());
    wide.fast_path_copy(&Vec::new());
    assert_eq!(wide.bytes().len(), 0);
}

#[test]
fn resize_path_copies_bytes() {
    let mut img = TermImage::new(1, 1, vec![1, 2, 3, 255]);
    let rgba = rgba_pixmap(6);
    img.resize_repopulate(2, 3, rgba.clone());
    assert_eq!(img.width(), 2);
    assert_eq!(img.height(), 3);
    assert_eq!(img.bytes(), &rgba);
}

#[test]
fn resize_path_zero_size() {
    let mut img = TermImage::new(2, 2, rgba_pixmap(4));
    img.resize_repopulate(0, 5, Vec::new());
    assert_eq!(img.width(), 0);
    assert_eq!(img.height(), 5);
    assert_eq!(img.bytes().len(), 0);
}

#[test]
fn alpha_opaque_after_setup() {
    let mut store = ImageStore::new();
    let handle = terminal_render_setup(&mut store, 4, 3, rgba_pixmap(12)).unwrap();
    let img = store.get(&handle).unwrap();
    for (i, byte) in img.bytes().iter().enumerate() {
        if i % 4 == 3 {
            assert_eq!(*byte, 255);
        }
    }
}

#[test]
fn alpha_opaque_after_resize_path() {
    let mut img = TermImage::new(1, 1, vec![0, 0, 0, 0]);
    img.resize_repopulate(2, 2, rgba_pixmap(4));
    for (i, byte) in img.bytes().iter().enumerate() {
        if i % 4 == 3 {
            assert_eq!(*byte, 255);
        }
    }
}

#[test]
fn setup_rejects_short_data() {
    let mut store = ImageStore::new();
    let res = terminal_render_setup(&mut store, 4, 3, vec![0, 1, 2]);
    assert_eq!(res, Err(RenderError::InvalidBackendData));
    assert_eq!(store.len(), 0);
}

#[test]
fn setup_rejects_misaligned_data() {
    let mut store = ImageStore::new();
    let res = terminal_render_setup(&mut store, 1, 1, vec![0, 1, 2, 3, 4]);
    assert_eq!(res, Err(RenderError::InvalidBackendData));
}

#[test]
fn setup_accepts_zero_size() {
    let mut store = ImageStore::new();
    let handle = terminal_render_setup(&mut store, 0, 9, Vec::new()).unwrap();
    assert_eq!(store.get(&handle).unwrap().bytes().len(), 0);
}

#[test]
fn stale_handle_not_found() {
    let mut store = ImageStore::new();
    let stale = ImageHandle { id: 0 };
    let res = render_terminal_to_handle(&mut store, &stale, 0, 0, &Vec::new(), Vec::new());
    assert_eq!(res, Err(RenderError::ImageNotFound));
}

#[test]
fn sync_fast_path_when_size_unchanged() {
    let mut store = ImageStore::new();
    let handle = terminal_render_setup(&mut store, 2, 2, vec![0; 16]).unwrap();
    let rgb = rgb_pixmap(4);
    render_terminal_to_handle(&mut store, &handle, 2, 2, &rgb, rgba_pixmap(4)).unwrap();
    let img = store.get(&handle).unwrap();
    // colour channels came from the RGB pixmap, alpha kept its old value (0)
    assert_eq!(img.bytes(), &vec![0, 1, 2, 0, 3, 4, 5, 0, 6, 7, 8, 0, 9, 10, 11, 0]);
}

#[test]
fn sync_resize_path_when_size_changed() {
    let mut store = ImageStore::new();
    let handle = terminal_render_setup(&mut store, 2, 2, vec![0; 16]).unwrap();
    let rgba = rgba_pixmap(3);
    render_terminal_to_handle(&mut store, &handle, 3, 1, &rgb_pixmap(3), rgba.clone()).unwrap();
    let img = store.get(&handle).unwrap();
    assert_eq!(img.width(), 3);
    assert_eq!(img.height(), 1);
    assert_eq!(img.bytes(), &rgba);
}

#[test]
fn sync_zero_size_both_paths() {
    let mut store = ImageStore::new();
    let handle = terminal_render_setup(&mut store, 0, 0, Vec::new()).unwrap();
    // unchanged size: fast path over zero pixels
    render_terminal_to_handle(&mut store, &handle, 0, 0, &Vec::new(), Vec::new()).unwrap();
    assert_eq!(store.get(&handle).unwrap().bytes().len(), 0);
    // changed size ending at zero pixels: resize path over zero pixels
    render_terminal_to_handle(&mut store, &handle, 5, 0, &Vec::new(), Vec::new()).unwrap();
    let img = store.get(&handle).unwrap();
    assert_eq!(img.width(), 5);
    assert_eq!(img.height(), 0);
    assert_eq!(img.bytes().len(), 0);
}

#[test]
fn steady_frame_is_noop() {
    let mut store = ImageStore::new();
    let handle = terminal_render_setup(&mut store, 3, 3, rgba_pixmap(9)).unwrap();
    let before = store.get(&handle).unwrap().bytes().clone();
    render_terminal_to_handle(&mut store, &handle, 3, 3, &rgb_pixmap(9), rgba_pixmap(9)).unwrap();
    assert_eq!(store.get(&handle).unwrap().bytes(), &before);
}
