//! Where the QR scanner captures, and how its keys change the capture box.
//!
//! The scanner captures a square of `capture_size` pixels centered on the
//! pointer, pushed inside the monitor the pointer is on; `+` grows the box by
//! five pixels, `-` shrinks it by five down to [`MIN_CAPTURE_SIZE`], and
//! `Esc` cancels. [`capture_region`] gives the rectangle to capture, and
//! [`decode_qr`] reads the QR code in the captured grey-scale pixels. Screen
//! capture and pointer lookup happen in the application layer.

use crate::components::secure_text::{secure_chars, secure_from_string};
use secure_types::SecureString;
use vstd::prelude::*;

verus! {

/// Smallest capture box, in pixels.
pub const MIN_CAPTURE_SIZE: i32 = 40;

/// Capture box size after the scanner opens or is reset, in pixels.
pub const DEFAULT_CAPTURE_SIZE: i32 = 250;

/// A key the scanner overlay reacts to.
#[derive(Clone, Copy, Debug, PartialEq, Eq, Structural)]
pub enum ScannerKey {
    /// `+` or `=`: grow the capture box.
    Grow,
    /// `-`: shrink the capture box.
    Shrink,
    /// `Esc`: close the scanner.
    Cancel,
}

/// Capture size after a key. Growing wraps around like the shared atomic
/// counter it is kept in; shrinking stops at [`MIN_CAPTURE_SIZE`].
pub open spec fn size_after_key(size: i32, key: ScannerKey) -> i32 {
    match key {
        ScannerKey::Grow => size.wrapping_add(5),
        ScannerKey::Shrink => if size - 5 > MIN_CAPTURE_SIZE {
            (size - 5) as i32
        } else {
            MIN_CAPTURE_SIZE
        },
        ScannerKey::Cancel => size,
    }
}

/// Apply a key to the capture size and the open flag: Cancel closes the
/// scanner, the other keys resize the box.
pub fn handle_scanner_key(size: i32, open: bool, key: ScannerKey) -> (r: (i32, bool))
    requires
        key == ScannerKey::Shrink ==> size >= i32::MIN + 5,
    ensures
        r == (size_after_key(size, key), open && key != ScannerKey::Cancel),
{
    match key {
        ScannerKey::Grow => (size.wrapping_add(5), open),
        ScannerKey::Shrink => {
            let shrunk = size - 5;
            let new = if shrunk > MIN_CAPTURE_SIZE {
                shrunk
            } else {
                MIN_CAPTURE_SIZE
            };
            (new, open)
        },
        ScannerKey::Cancel => (size, false),
    }
}

/// The capture rectangle, relative to the monitor's origin, in pixels.
#[derive(Clone, Copy, Debug, PartialEq, Eq, Structural)]
pub struct CaptureRegion {
    pub x: u32,
    pub y: u32,
    pub width: u32,
    pub height: u32,
}

/// Why no capture box was placed.
#[derive(Clone, Copy, Debug, PartialEq, Eq, Structural)]
pub enum CaptureRegionError {
    /// The box would start before the monitor or have a negative size.
    OutsideMonitor,
    /// Placing the box would overflow an `i32` coordinate.
    ArithmeticOverflow,
}

/// Half of `size`, rounded toward zero.
pub open spec fn half(size: int) -> int {
    if size >= 0 {
        size / 2
    } else {
        -((-size) / 2)
    }
}

/// Start of the box along one axis: centered on the pointer, pushed right of
/// the monitor's start, then pushed left so it ends at the monitor's end.
pub open spec fn box_start(pointer: int, size: int, origin: int, extent: int) -> int {
    let centered = pointer - half(size);
    let at_least = if centered > origin {
        centered
    } else {
        origin
    };
    if at_least < origin + extent - size {
        at_least
    } else {
        origin + extent - size
    }
}

/// Extent of the box along one axis: the capture size, cut at the monitor's
/// end.
pub open spec fn box_extent(start: int, size: int, origin: int, extent: int) -> int {
    if size < origin + extent - start {
        size
    } else {
        origin + extent - start
    }
}

/// Whether all the intermediate values of the placement fit an `i32`.
pub open spec fn placement_fits(pointer: int, size: int, origin: int, extent: int) -> bool {
    &&& i32::MIN <= pointer - half(size) <= i32::MAX
    &&& i32::MIN <= origin + extent <= i32::MAX
    &&& i32::MIN <= origin + extent - size <= i32::MAX
    &&& i32::MIN <= origin + extent - box_start(pointer, size, origin, extent) <= i32::MAX
    &&& i32::MIN <= box_start(pointer, size, origin, extent) - origin <= i32::MAX
}

/// The box placed for capture size `size` around the pointer (`px`, `py`) on
/// the monitor at (`mx`, `my`) of `mw` × `mh` pixels, relative to the
/// monitor's origin; `None` when it would start before the monitor or have a
/// negative size.
pub open spec fn placed_region(size: int, px: int, py: int, mx: int, my: int, mw: int, mh: int) -> Option<CaptureRegion> {
    let sx = box_start(px, size, mx, mw);
    let sy = box_start(py, size, my, mh);
    let w = box_extent(sx, size, mx, mw);
    let h = box_extent(sy, size, my, mh);
    if w >= 0 && h >= 0 && sx - mx >= 0 && sy - my >= 0 {
        Some(CaptureRegion { x: (sx - mx) as u32, y: (sy - my) as u32, width: w as u32, height: h as u32 })
    } else {
        None
    }
}

/// Whether the placement along one axis stays within `i32`, computed in
/// 64-bit arithmetic.
fn axis_fits(pointer: i32, size: i32, origin: i32, extent: i32) -> (b: bool)
    ensures
        b == placement_fits(pointer as int, size as int, origin as int, extent as int),
{
    let p = pointer as i64;
    let s = size as i64;
    let o = origin as i64;
    let e = extent as i64;
    let h: i64 = if s >= 0 {
        s / 2
    } else {
        -((-s) / 2)
    };
    let centered = p - h;
    let at_least = if centered > o {
        centered
    } else {
        o
    };
    let end = o + e;
    let last_start = end - s;
    let start = if at_least < last_start {
        at_least
    } else {
        last_start
    };
    let lo = i32::MIN as i64;
    let hi = i32::MAX as i64;
    lo <= centered && centered <= hi && lo <= end && end <= hi && lo <= last_start && last_start <= hi
        && lo <= end - start && end - start <= hi && lo <= start - o && start - o <= hi
}

fn place_on_axis(pointer: i32, size: i32, origin: i32, extent: i32) -> (r: (i32, i32))
    requires
        placement_fits(pointer as int, size as int, origin as int, extent as int),
    ensures
        r.0 == box_start(pointer as int, size as int, origin as int, extent as int),
        r.1 == box_extent(r.0 as int, size as int, origin as int, extent as int),
{
    let half_size: i32 = if size >= 0 {
        size / 2
    } else {
        -((-(size as i64) / 2) as i32)
    };
    let centered = pointer - half_size;
    let at_least = if centered > origin {
        centered
    } else {
        origin
    };
    let end = origin + extent;
    let last_start = end - size;
    let start = if at_least < last_start {
        at_least
    } else {
        last_start
    };
    let room = end - start;
    let length = if size < room {
        size
    } else {
        room
    };
    (start, length)
}

/// The square of `capture_size` pixels to capture around the pointer
/// (`pointer_x`, `pointer_y`) on the monitor at (`mon_x`, `mon_y`) of
/// `mon_width` × `mon_height` pixels, relative to the monitor's origin.
///
/// It fails when the box would start before the monitor or have a negative
/// size, as happens on a monitor smaller than the box.
pub fn capture_region(
    capture_size: i32,
    pointer_x: i32,
    pointer_y: i32,
    mon_x: i32,
    mon_y: i32,
    mon_width: i32,
    mon_height: i32,
) -> (r: Result<CaptureRegion, CaptureRegionError>)
    requires
        placement_fits(pointer_x as int, capture_size as int, mon_x as int, mon_width as int),
        placement_fits(pointer_y as int, capture_size as int, mon_y as int, mon_height as int),
    ensures
        ({
            let placed = placed_region(
                capture_size as int,
                pointer_x as int,
                pointer_y as int,
                mon_x as int,
                mon_y as int,
                mon_width as int,
                mon_height as int,
            );
            &&& (r is Ok) == (placed is Some)
            &&& r is Ok ==> r->Ok_0 == placed->Some_0
            &&& r is Err ==> r->Err_0 == CaptureRegionError::OutsideMonitor
        }),
{
    let (cap_x, cap_width) = place_on_axis(pointer_x, capture_size, mon_x, mon_width);
    let (cap_y, cap_height) = place_on_axis(pointer_y, capture_size, mon_y, mon_height);
    if cap_width < 0 || cap_height < 0 {
        return Err(CaptureRegionError::OutsideMonitor);
    }
    let rel_x = cap_x - mon_x;
    let rel_y = cap_y - mon_y;
    if rel_x < 0 || rel_y < 0 {
        return Err(CaptureRegionError::OutsideMonitor);
    }
    Ok(CaptureRegion {
        x: rel_x as u32,
        y: rel_y as u32,
        width: cap_width as u32,
        height: cap_height as u32,
    })
}

/// [`capture_region`] for any coordinates: it first checks that placing the
/// box stays within `i32` and fails with `ArithmeticOverflow` where it
/// would not.
pub fn checked_capture_region(
    capture_size: i32,
    pointer_x: i32,
    pointer_y: i32,
    mon_x: i32,
    mon_y: i32,
    mon_width: i32,
    mon_height: i32,
) -> (r: Result<CaptureRegion, CaptureRegionError>)
    ensures
        ({
            let fits = placement_fits(pointer_x as int, capture_size as int, mon_x as int, mon_width as int)
                && placement_fits(pointer_y as int, capture_size as int, mon_y as int, mon_height as int);
            let placed = placed_region(
                capture_size as int,
                pointer_x as int,
                pointer_y as int,
                mon_x as int,
                mon_y as int,
                mon_width as int,
                mon_height as int,
            );
            &&& (r == Err::<CaptureRegion, CaptureRegionError>(CaptureRegionError::ArithmeticOverflow)) <==> !fits
            &&& fits ==> (r is Ok) == (placed is Some)
            &&& r is Ok ==> r->Ok_0 == placed->Some_0
            &&& fits && r is Err ==> r->Err_0 == CaptureRegionError::OutsideMonitor
        }),
{
    if !axis_fits(pointer_x, capture_size, mon_x, mon_width) || !axis_fits(pointer_y, capture_size, mon_y, mon_height) {
        return Err(CaptureRegionError::ArithmeticOverflow);
    }
    capture_region(capture_size, pointer_x, pointer_y, mon_x, mon_y, mon_width, mon_height)
}

/// On a monitor at least as large as the box, the box is captured whole and
/// lies inside the monitor, wherever the pointer is.
pub proof fn box_fits_on_a_large_enough_monitor(pointer: int, size: int, origin: int, extent: int)
    requires
        0 <= size <= extent,
    ensures
        ({
            let s = box_start(pointer, size, origin, extent);
            &&& origin <= s
            &&& s + size <= origin + extent
            &&& box_extent(s, size, origin, extent) == size
        }),
{
}

/// Shrinking never goes below the minimum, growing then shrinking restores
/// a box that was at least five pixels above the minimum, and Cancel leaves
/// the size alone.
pub proof fn resizing_keys_stay_above_minimum(size: i32)
    ensures
        size_after_key(size, ScannerKey::Shrink) >= MIN_CAPTURE_SIZE,
        size_after_key(size, ScannerKey::Cancel) == size,
        MIN_CAPTURE_SIZE <= size <= i32::MAX - 5 ==> size_after_key(
            size_after_key(size, ScannerKey::Grow),
            ScannerKey::Shrink,
        ) == size,
{
}

/// rqrr's decoding failure (corrupt data, bad version, ...).
#[verifier::external_type_specification]
#[verifier::external_body]
pub struct ExDeQRError(rqrr::DeQRError);

/// Luminance of pixel (`x`, `y`) of a `width`-wide grey-scale image stored
/// row by row; white outside the stored pixels.
pub fn luma_at(luma: &[u8], width: usize, x: usize, y: usize) -> (v: u8)
    ensures
        (y as int) * (width as int) + (x as int) < luma@.len() && x < width ==> v == luma@[(y as int)
            * (width as int) + (x as int)],
        !((y as int) * (width as int) + (x as int) < luma@.len() && x < width) ==> v == 255,
{
    if x >= width {
        return 255;
    }
    let len = luma.len();
    match y.checked_mul(width) {
        Some(row) => match row.checked_add(x) {
            Some(i) => {
                if i < len {
                    luma[i]
                } else {
                    255
                }
            },
            None => 255,
        },
        None => {
            assert((y as int) * (width as int) > usize::MAX);
            255
        },
    }
}

/// The texts of the QR codes rqrr finds in a `width` × `height` grey-scale
/// image (`luma`, row by row), one per detected grid, in detection order:
/// `None` for a grid it cannot decode.
pub uninterp spec fn qr_grid_texts(width: usize, height: usize, luma: Seq<u8>) -> Seq<Option<Seq<char>>>;

/// `PreparedImage::prepare_from_greyscale`, `detect_grids` and `Grid::decode`
/// of rqrr: prepare the image (reading pixels through [`luma_at`]), detect
/// the QR grids and decode each one, keeping its text or its error. The
/// prepared image is zeroized when dropped.
///
/// The one panic rqrr ties to the arguments is the overflow of
/// `width * height`, which `requires` rules out. Beyond it, rqrr holds
/// assertions on values it computes from the image: perspective-mapped grid
/// points must fit in an `i32`, the raw bit stream must fit its buffer, and
/// its flood fill checks its own bookkeeping. Neither its source nor its
/// documentation says which images, if any, reach them, so this contract
/// states only what holds when the call returns; that no image reaches them
/// is not shown.
#[verifier::external_body]
fn decode_qr_grids(width: usize, height: usize, luma: &[u8]) -> (r: Vec<Result<String, rqrr::DeQRError>>)
    requires
        width * height <= usize::MAX,
    ensures
        r@.len() == qr_grid_texts(width, height, luma@).len(),
        forall|i: int|
            0 <= i < r@.len() ==> (#[trigger] r@[i] is Ok) == (qr_grid_texts(width, height, luma@)[i] is Some),
        forall|i: int|
            0 <= i < r@.len() && #[trigger] r@[i] is Ok ==> r@[i]->Ok_0@ == qr_grid_texts(
                width,
                height,
                luma@,
            )[i]->Some_0,
{
    let mut img = rqrr::PreparedImage::prepare_from_greyscale(width, height, |x, y| luma_at(luma, width, x, y));
    img.detect_grids().iter().map(|grid| grid.decode().map(|(_, text)| text)).collect()
}

/// Why no QR text was read.
#[derive(Debug)]
pub enum QrDecodeError {
    /// No QR grid was detected; the box may need resizing or moving.
    NoGridDetected,
    /// The first grid could not be decoded.
    Decode(rqrr::DeQRError),
}

/// The outcome of a scan from rqrr's per-grid results, in detection order:
/// the text of the first grid as a secure string, that grid's decoding error,
/// or `NoGridDetected` when there is no grid.
pub fn first_qr_text(grids: Vec<Result<String, rqrr::DeQRError>>) -> (r: Result<SecureString, QrDecodeError>)
    ensures
        (r matches Err(QrDecodeError::NoGridDetected)) <==> grids@.len() == 0,
        (r matches Err(QrDecodeError::Decode(_))) <==> (grids@.len() > 0 && grids@[0] is Err),
        r matches Err(QrDecodeError::Decode(e)) ==> e == grids@[0]->Err_0,
        r is Ok <==> (grids@.len() > 0 && grids@[0] is Ok),
        r is Ok ==> secure_chars(r->Ok_0) == grids@[0]->Ok_0@,
{
    let mut grids = grids;
    if grids.len() == 0 {
        return Err(QrDecodeError::NoGridDetected);
    }
    let first = grids.swap_remove(0);
    match first {
        Ok(text) => Ok(secure_from_string(text)),
        Err(e) => Err(QrDecodeError::Decode(e)),
    }
}

/// Read the first QR code in a `width` × `height` grey-scale image (`luma`,
/// row by row) into a secure string.
///
/// Not promised panic-free: what is stated holds when rqrr returns, and rqrr
/// holds internal assertions on values it computes from the image (see
/// `decode_qr_grids`) that are not shown to be unreachable.
pub fn decode_qr(width: usize, height: usize, luma: &[u8]) -> (r: Result<SecureString, QrDecodeError>)
    requires
        width * height <= usize::MAX,
    ensures
        ({
            let texts = qr_grid_texts(width, height, luma@);
            &&& (r matches Err(QrDecodeError::NoGridDetected)) <==> texts.len() == 0
            &&& (r matches Err(QrDecodeError::Decode(_))) <==> (texts.len() > 0 && texts[0] is None)
            &&& r is Ok <==> (texts.len() > 0 && texts[0] is Some)
            &&& r is Ok ==> secure_chars(r->Ok_0) == texts[0]->Some_0
        }),
{
    let grids = decode_qr_grids(width, height, luma);
    proof {
        if grids@.len() > 0 {
            assert(grids@[0] is Ok == qr_grid_texts(width, height, luma@)[0] is Some);
        }
    }
    first_qr_text(grids)
}

} // verus!
