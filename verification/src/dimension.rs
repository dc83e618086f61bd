//! The limits on the size and shape of a decoded image.

use crate::error::{ApiError, Failure};
use crate::raster::DecodedImage;
use crate::text::{decimal, decimal_string};
use vstd::prelude::*;
use vstd::string::*;

verus! {

/// The most pixels an image may have.
pub const MAX_PIXELS: u32 = 65536;

/// The most pixels the longer side of an image may have.
pub const MAX_LONG_SIDE_LEN: u32 = 1024;

/// How many times longer than the shorter side the longer side may be.
pub const MAX_ASPECT_RATIO: u32 = 16;

/// The longer side of an image.
pub open spec fn long_side(width: u32, height: u32) -> u32 {
    if width > height {
        width
    } else {
        height
    }
}

/// The shorter side of an image.
pub open spec fn short_side(width: u32, height: u32) -> u32 {
    if width > height {
        height
    } else {
        width
    }
}

/// An image is within the limits if it has no more than `MAX_PIXELS`
/// pixels, its longer side is no longer than `MAX_LONG_SIDE_LEN`, and the
/// longer side is at most `MAX_ASPECT_RATIO` times the shorter one.
pub open spec fn within_limits(width: u32, height: u32) -> bool {
    &&& width * height <= MAX_PIXELS
    &&& long_side(width, height) <= MAX_LONG_SIDE_LEN
    &&& long_side(width, height) <= MAX_ASPECT_RATIO * short_side(width, height)
}

/// The message for an image of too many pixels.
pub open spec fn too_many_pixels_message(pixels: nat) -> Seq<char> {
    "Image has too many pixels ("@ + decimal(pixels) + " > "@ + decimal(MAX_PIXELS as nat) + ")"@
}

/// The message for an image whose longer side is too long.
pub open spec fn long_side_message(long: nat) -> Seq<char> {
    "Long side of image is too long ("@ + decimal(long) + " > "@ + decimal(
        MAX_LONG_SIDE_LEN as nat,
    ) + ")"@
}

/// The message for an image that is too narrow for its length.
pub open spec fn aspect_ratio_message(long: nat, short: nat) -> Seq<char> {
    "Aspect retio of image is out of range ("@ + decimal(long) + " : "@ + decimal(short) + " > "@
        + decimal(MAX_ASPECT_RATIO as nat) + " : 1)"@
}

/// What the service makes of the dimensions of a decoded image. The three
/// limits are tested in a fixed order, and the first that fails is the
/// one that is reported.
pub open spec fn dimension_verdict(width: u32, height: u32) -> Result<(), Failure> {
    let long = long_side(width, height);
    let short = short_side(width, height);
    if width * height > MAX_PIXELS {
        Err(
            Failure {
                status: 400,
                message: Some(too_many_pixels_message((width * height) as nat)),
            },
        )
    } else if long > MAX_LONG_SIDE_LEN {
        Err(Failure { status: 400, message: Some(long_side_message(long as nat)) })
    } else if long > MAX_ASPECT_RATIO * short {
        Err(Failure { status: 400, message: Some(aspect_ratio_message(long as nat, short as nat)) })
    } else {
        Ok(())
    }
}

/// The dimension gate. Dimensions pass if and only if they are within
/// the limits; all others are turned away with status 400 and a message.
pub proof fn lemma_dimension_gate(width: u32, height: u32)
    ensures
        dimension_verdict(width, height) is Ok <==> within_limits(width, height),
        dimension_verdict(width, height) matches Err(failure) ==> failure.status == 400
            && failure.message is Some,
        within_limits(width, height) ==> width <= MAX_LONG_SIDE_LEN && height
            <= MAX_LONG_SIDE_LEN,
{
}

fn pixels_failure(pixels: u64) -> (e: ApiError)
    ensures
        e@ == (Failure { status: 400, message: Some(too_many_pixels_message(pixels as nat)) }),
{
    let mut m = String::from_str("Image has too many pixels (");
    m.append(decimal_string(pixels).as_str());
    m.append(" > ");
    m.append(decimal_string(MAX_PIXELS as u64).as_str());
    m.append(")");
    ApiError::new(400, m)
}

fn long_side_failure(long: u32) -> (e: ApiError)
    ensures
        e@ == (Failure { status: 400, message: Some(long_side_message(long as nat)) }),
{
    let mut m = String::from_str("Long side of image is too long (");
    m.append(decimal_string(long as u64).as_str());
    m.append(" > ");
    m.append(decimal_string(MAX_LONG_SIDE_LEN as u64).as_str());
    m.append(")");
    ApiError::new(400, m)
}

fn aspect_ratio_failure(long: u32, short: u32) -> (e: ApiError)
    ensures
        e@ == (Failure {
            status: 400,
            message: Some(aspect_ratio_message(long as nat, short as nat)),
        }),
{
    let mut m = String::from_str("Aspect retio of image is out of range (");
    m.append(decimal_string(long as u64).as_str());
    m.append(" : ");
    m.append(decimal_string(short as u64).as_str());
    m.append(" > ");
    m.append(decimal_string(MAX_ASPECT_RATIO as u64).as_str());
    m.append(" : 1)");
    ApiError::new(400, m)
}

/// Holds a width and a height to the limits.
pub fn check_dimensions(width: u32, height: u32) -> (r: Result<(), ApiError>)
    ensures
        match r {
            Ok(_) => dimension_verdict(width, height) is Ok,
            Err(e) => dimension_verdict(width, height) == Err::<(), Failure>(e@),
        },
{
    assert(width * height <= u32::MAX * u32::MAX) by (nonlinear_arith)
        requires
            width <= u32::MAX,
            height <= u32::MAX,
    ;
    let pixels: u64 = (width as u64) * (height as u64);
    if pixels > MAX_PIXELS as u64 {
        return Err(pixels_failure(pixels));
    }
    let (long, short) = if width > height {
        (width, height)
    } else {
        (height, width)
    };
    if long > MAX_LONG_SIDE_LEN {
        return Err(long_side_failure(long));
    }
    if (long as u64) > (MAX_ASPECT_RATIO as u64) * (short as u64) {
        return Err(aspect_ratio_failure(long, short));
    }
    Ok(())
}

/// Holds a decoded image to the limits on its dimensions.
pub fn validate_img_dimension(img: &DecodedImage) -> (r: Result<(), ApiError>)
    ensures
        match r {
            Ok(_) => dimension_verdict(img.width, img.height) is Ok,
            Err(e) => dimension_verdict(img.width, img.height) == Err::<(), Failure>(e@),
        },
{
    check_dimensions(img.width, img.height)
}

} // verus!
