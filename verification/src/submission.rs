//! One submission from the first header to the last store: the decisions
//! that are taken between the steps that read and write.

use crate::dimension::{dimension_verdict, validate_img_dimension};
use crate::error::{ApiError, Content, Failure, Reply, ResponseBody, WireResponse};
use crate::format::{header_verdict, validate_content_type, ImageFormat};
use crate::hash::{content_fingerprint, fingerprint, is_lower_hex};
use crate::raster::{assembled, decode, decoding, Channels, DecodeFault, DecodedImage, Depth};
use crate::upload::{record_views, ImageUploader, Record, UploadedImage};
use vstd::prelude::*;
use vstd::string::*;

verus! {

/// The longest body that is taken: 512 KiB.
pub const MAX_BODY_LEN: usize = 524288;

/// The failure that a body of a given length is turned away with, if it
/// is: status 413 and no message for one that is too long.
pub open spec fn size_verdict(len: nat) -> Result<(), Failure> {
    if len > MAX_BODY_LEN {
        Err(Failure { status: 413, message: None })
    } else {
        Ok(())
    }
}

/// The failure that a fault of the decoder is reported as. Bytes that do
/// not conform to the declared format, or that end before the image
/// does, are the caller's fault and are said so; every other fault is
/// internal and is not explained.
pub open spec fn decode_failure(fault: DecodeFault) -> Failure {
    match fault {
        DecodeFault::Decoding | DecodeFault::Io => Failure {
            status: 400,
            message: Some("failed to decode image"@),
        },
        _ => Failure { status: 500, message: None },
    }
}

/// What loading bytes of a given format comes to: width, height, layout
/// and samples of the image, or the failure. An image that the decoder
/// hands out in a layout that the library does not hold is an internal
/// failure.
pub open spec fn loaded(data: Seq<u8>, format: ImageFormat) -> Result<
    (u32, u32, Channels, Depth, Seq<u8>),
    Failure,
> {
    match decoding(data, format) {
        Err(fault) => Err(decode_failure(fault)),
        Ok((width, height, channel_count, bytes_per_pixel, samples)) => match assembled(
            width,
            height,
            channel_count,
            bytes_per_pixel,
            samples,
        ) {
            Some(image) => Ok(image),
            None => Err(Failure { status: 500, message: None }),
        },
    }
}

/// What a submission comes to once its body has been read, for a format
/// that the header resolved to: width, height, layout and samples of the
/// decoded image and the fingerprint of the body, or the failure. A body
/// that could not be read is `None`. The tests are made in a fixed order:
/// the read, the size, the decoding, the dimensions.
pub open spec fn body_verdict(body: Option<Seq<u8>>, format: ImageFormat) -> Result<
    (u32, u32, Channels, Depth, Seq<u8>, Seq<char>),
    Failure,
> {
    match body {
        None => Err(Failure { status: 500, message: None }),
        Some(data) => if size_verdict(data.len()) is Err {
            Err(size_verdict(data.len())->Err_0)
        } else {
            match loaded(data, format) {
                Err(failure) => Err(failure),
                Ok((width, height, channels, depth, samples)) => match dimension_verdict(
                    width,
                    height,
                ) {
                    Err(failure) => Err(failure),
                    Ok(_) => Ok((width, height, channels, depth, samples, fingerprint(data))),
                },
            }
        },
    }
}

/// Holds the length of a body to the limit.
pub fn check_body_size(len: usize) -> (r: Result<(), ApiError>)
    ensures
        match r {
            Ok(_) => size_verdict(len as nat) is Ok,
            Err(e) => size_verdict(len as nat) == Err::<(), Failure>(e@),
        },
{
    if len > MAX_BODY_LEN {
        Err(ApiError::no_msg(413))
    } else {
        Ok(())
    }
}

/// Reports a fault of the decoder.
pub fn report_decode_fault(fault: DecodeFault) -> (e: ApiError)
    ensures
        e@ == decode_failure(fault),
{
    match fault {
        DecodeFault::Decoding | DecodeFault::Io => ApiError::new(
            400,
            String::from_str("failed to decode image"),
        ),
        _ => ApiError::no_msg(500),
    }
}

/// Computes the fingerprint of the bytes as they were received and
/// decodes them as an image of the given format. The fingerprint is that
/// of the bytes alone: neither the format nor the decoded image enters
/// into it.
pub fn load_image_with_hash(img_data: Vec<u8>, img_fmt: ImageFormat) -> (r: Result<
    (DecodedImage, String),
    ApiError,
>)
    ensures
        match r {
            Ok((img, hash)) => loaded(img_data@, img_fmt) == Ok::<
                (u32, u32, Channels, Depth, Seq<u8>),
                Failure,
            >((img.width, img.height, img.channels, img.depth, img.samples@)) && img.format
                == img_fmt && img.wf() && hash@ == fingerprint(img_data@) && hash@.len() == 64
                && (forall|i: int| 0 <= i < 64 ==> is_lower_hex(#[trigger] hash@[i])),
            Err(e) => loaded(img_data@, img_fmt) == Err::<
                (u32, u32, Channels, Depth, Seq<u8>),
                Failure,
            >(e@),
        },
{
    let hash = content_fingerprint(img_data.as_slice());
    let mime_type = img_fmt.mime_type_string();
    match decode(img_data.as_slice(), img_fmt, mime_type.as_str()) {
        Ok(raw) => match DecodedImage::assemble(raw, img_fmt) {
            Some(img) => Ok((img, hash)),
            None => Err(ApiError::no_msg(500)),
        },
        Err(fault) => Err(report_decode_fault(fault)),
    }
}

/// The first step of a submission, before its body is read. Without a
/// binding to the store nothing is looked at and the failure is internal;
/// with one, the media type header decides.
pub fn begin_post_image(bucket_bound: bool, content_type: Option<&str>) -> (r: Result<
    ImageFormat,
    ApiError,
>)
    ensures
        !bucket_bound ==> (r matches Err(e) && e@ == (Failure { status: 500, message: None })),
        bucket_bound ==> match r {
            Ok(format) => header_verdict(
                match content_type {
                    Some(t) => Some(t@),
                    None => None,
                },
            ) == Ok::<ImageFormat, Failure>(format),
            Err(e) => header_verdict(
                match content_type {
                    Some(t) => Some(t@),
                    None => None,
                },
            ) == Err::<ImageFormat, Failure>(e@),
        },
{
    if !bucket_bound {
        return Err(ApiError::no_msg(500));
    }
    validate_content_type(content_type)
}

/// The second step of a submission, once its body has been read or the
/// read has failed (`None`). An accepted body yields what the variants
/// are derived from; they are all written as PNG.
pub fn accept_body(body: Option<Vec<u8>>, img_fmt: ImageFormat) -> (r: Result<
    ImageUploader,
    ApiError,
>)
    ensures
        match r {
            Ok(u) => body_verdict(
                match body {
                    Some(data) => Some(data@),
                    None => None,
                },
                img_fmt,
            ) == Ok::<(u32, u32, Channels, Depth, Seq<u8>, Seq<char>), Failure>(
                (u.img.width, u.img.height, u.img.channels, u.img.depth, u.img.samples@, u.hash@),
            ) && u.img.format == img_fmt && u.dest_fmt == ImageFormat::Png && u.wf()
                && u.hash@.len() == 64 && (forall|i: int|
                0 <= i < 64 ==> is_lower_hex(#[trigger] u.hash@[i])),
            Err(e) => body_verdict(
                match body {
                    Some(data) => Some(data@),
                    None => None,
                },
                img_fmt,
            ) == Err::<(u32, u32, Channels, Depth, Seq<u8>, Seq<char>), Failure>(e@),
        },
{
    let data = match body {
        None => {
            return Err(ApiError::no_msg(500));
        },
        Some(data) => data,
    };
    match check_body_size(data.len()) {
        Err(e) => {
            return Err(e);
        },
        Ok(_) => {},
    }
    let (img, hash) = match load_image_with_hash(data, img_fmt) {
        Err(e) => {
            return Err(e);
        },
        Ok(loaded) => loaded,
    };
    match validate_img_dimension(&img) {
        Err(e) => {
            return Err(e);
        },
        Ok(_) => {},
    }
    proof {
        crate::dimension::lemma_dimension_gate(img.width, img.height);
    }
    Ok(ImageUploader { img, hash, dest_fmt: ImageFormat::Png })
}

/// The response that the result of a submission is sent as: status 200
/// and the records for a success, and for a failure its own response.
pub open spec fn outcome_reply(outcome: Result<Seq<Record>, Failure>) -> Reply {
    match outcome {
        Ok(records) => Reply { status: 200, content: Content::Images(records) },
        Err(failure) => failure.reply(),
    }
}

/// Builds the response for the result of a submission.
pub fn respond(outcome: Result<Vec<UploadedImage>, ApiError>) -> (r: WireResponse)
    ensures
        r@ == outcome_reply(
            match outcome {
                Ok(images) => Ok(record_views(images@)),
                Err(e) => Err(e@),
            },
        ),
{
    match outcome {
        Ok(images) => WireResponse { status: 200, body: ResponseBody::Images(images) },
        Err(e) => e.to_response(),
    }
}

} // verus!
