//! Capture a raster snapshot of a display's visible pixels from a windowing
//! server and expose it as a structured, bounds-checked in-memory image.
//!
//! The library models the windowing server as an explicit in-memory value
//! ([`MemoryServer`]) so that the whole capture lifecycle — open a connection,
//! request a rectangle of pixels, read them, release the buffer exactly once,
//! close the connection — is verified. A thin unverified backend can drive the
//! same image types from a real server by handing the library the raw bytes.

use vstd::prelude::*;

pub mod capture;
pub mod connection;
pub mod export;
pub mod server;

pub use capture::CapturedImage;
pub use capture::InterchangeImage;
pub use connection::DisplayConnection;
pub use export::RgbExportImage;
pub use server::MemoryServer;
pub use server::RawImage;

verus! {

/// A single captured pixel as the windowing server lays it out: blue, green,
/// red, and one padding byte demanded by the 32-bit pixel stride.
#[allow(non_camel_case_types)]
#[derive(Clone, Copy, Debug, PartialEq, Eq, Structural)]
pub struct bgr {
    pub b: u8,
    pub g: u8,
    pub r: u8,
    pub _pad: u8,
}

/// Every way an operation of this library can fail.
#[derive(Clone, Copy, Debug, PartialEq, Eq, Structural)]
pub enum CaptureError {
    /// The windowing server could not be reached or refused the connection.
    ConnectionUnavailable,
    /// The server returned no image for the requested rectangle.
    CaptureFailed,
    /// Pixel coordinates outside the captured rectangle's bounds.
    OutOfRangeAccess,
}

} // verus!
