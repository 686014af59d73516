//! Viewport and element measurement: the pure half of the probe.
//!
//! The host supplies raw readings (document client size, window inner size,
//! element offsets); the functions here turn them into the viewport bounds
//! and the element box that the bounce rule works on.

use vstd::prelude::*;

verus! {

/// Viewport size in whole pixels, one value per axis.
pub struct Dimensions {
    pub width: i32,
    pub height: i32,
}

/// The pixel value an inner-size reading contributes: a missing or
/// unparsable reading degrades to 0 instead of failing the measurement.
pub open spec fn reading_or_zero(reading: Option<i32>) -> int {
    match reading {
        Some(v) => v as int,
        None => 0,
    }
}

/// The larger of two pixel measurements.
pub open spec fn larger(a: int, b: int) -> int {
    if a >= b {
        a
    } else {
        b
    }
}

/// Combine the document's client size with the window's reported inner
/// size, per axis: take the larger of the two, so that an under-reporting
/// signal (scrollbars, embedding) never shrinks the viewport below what
/// the document shows. An absent inner reading counts as 0, so the client
/// size alone decides.
pub fn get_max_dimensions(
    client_width: i32,
    client_height: i32,
    inner_width: Option<i32>,
    inner_height: Option<i32>,
) -> (dims: Dimensions)
    requires
        client_width >= 0,
        client_height >= 0,
    ensures
        dims.width == larger(client_width as int, reading_or_zero(inner_width)),
        dims.height == larger(client_height as int, reading_or_zero(inner_height)),
        dims.width >= 0,
        dims.height >= 0,
        inner_width is None ==> dims.width == client_width,
        inner_height is None ==> dims.height == client_height,
        client_width > 0 ==> dims.width > 0,
        client_height > 0 ==> dims.height > 0,
{
    let iw: i32 = match inner_width {
        Some(v) => v,
        None => 0,
    };
    let ih: i32 = match inner_height {
        Some(v) => v,
        None => 0,
    };
    let width: i32 = if client_width >= iw {
        client_width
    } else {
        iw
    };
    let height: i32 = if client_height >= ih {
        client_height
    } else {
        ih
    };
    Dimensions { width, height }
}

} // verus!
