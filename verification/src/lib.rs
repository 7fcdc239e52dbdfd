//! Software rasterization bridge between a text-mode terminal backend and a
//! windowed display: keeps a shared RGBA image buffer synchronized with the
//! backend's rendered pixmap every frame, reallocating on size changes and
//! taking a fast in-place copy path otherwise, and translates window resize
//! events into terminal cell-grid sizes.

pub mod grid;
pub mod image;
pub mod store;
