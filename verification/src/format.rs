//! The declared media type of a submission and the formats it may name.

use crate::error::{ApiError, Failure};
use crate::text::{join, same_text, starts_with};
use vstd::prelude::*;
use vstd::string::*;

verus! {

/// A container format that the service reads, and the one it writes.
#[derive(Debug, Clone, Copy, PartialEq, Eq, Structural)]
pub enum ImageFormat {
    Png,
    WebP,
    Bmp,
    Gif,
}

impl ImageFormat {
    /// The file extension that objects of this format are stored under.
    pub open spec fn extension(self) -> Seq<char> {
        match self {
            ImageFormat::Png => "png"@,
            ImageFormat::WebP => "webp"@,
            ImageFormat::Bmp => "bmp"@,
            ImageFormat::Gif => "gif"@,
        }
    }

    /// The media type that objects of this format are stored with.
    pub open spec fn mime_type(self) -> Seq<char> {
        match self {
            ImageFormat::Png => "image/png"@,
            ImageFormat::WebP => "image/webp"@,
            ImageFormat::Bmp => "image/bmp"@,
            ImageFormat::Gif => "image/gif"@,
        }
    }
}

/// The first file extension of the format that a media type names, for
/// every media type that the image crate knows, and `None` for all others.
pub open spec fn mime_type_extension(mime_type: Seq<char>) -> Option<Seq<char>> {
    if mime_type == "image/avif"@ {
        Some("avif"@)
    } else if mime_type == "image/jpeg"@ {
        Some("jpg"@)
    } else if mime_type == "image/png"@ {
        Some("png"@)
    } else if mime_type == "image/gif"@ {
        Some("gif"@)
    } else if mime_type == "image/webp"@ {
        Some("webp"@)
    } else if mime_type == "image/tiff"@ {
        Some("tiff"@)
    } else if mime_type == "image/x-targa"@ || mime_type == "image/x-tga"@ {
        Some("tga"@)
    } else if mime_type == "image/vnd-ms.dds"@ {
        Some("dds"@)
    } else if mime_type == "image/bmp"@ {
        Some("bmp"@)
    } else if mime_type == "image/x-icon"@ || mime_type == "image/vnd.microsoft.icon"@ {
        Some("ico"@)
    } else if mime_type == "image/vnd.radiance"@ {
        Some("hdr"@)
    } else if mime_type == "image/x-exr"@ {
        Some("exr"@)
    } else if mime_type == "image/x-portable-bitmap"@ || mime_type
        == "image/x-portable-graymap"@ || mime_type == "image/x-portable-pixmap"@ || mime_type
        == "image/x-portable-anymap"@ {
        Some("pbm"@)
    } else if mime_type == "image/x-qoi"@ {
        Some("qoi"@)
    } else {
        None
    }
}

/// The format that is stored under a file extension, if the service
/// supports it.
pub open spec fn format_of_extension(extension: Seq<char>) -> Option<ImageFormat> {
    if extension == "png"@ {
        Some(ImageFormat::Png)
    } else if extension == "webp"@ {
        Some(ImageFormat::WebP)
    } else if extension == "bmp"@ {
        Some(ImageFormat::Bmp)
    } else if extension == "gif"@ {
        Some(ImageFormat::Gif)
    } else {
        None
    }
}

/// The message that turns away a format the service does not take.
pub open spec fn unsupported_message(name: Seq<char>) -> Seq<char> {
    "unsupported image format: "@ + name
}

/// What the service makes of a declared media type: the format it
/// resolves to, or the failure it is turned away with. A type outside
/// `image/` is no image; within it, a format is named by its extension
/// where the type is a known one, and by the declared subtype otherwise.
pub open spec fn format_verdict(content_type: Seq<char>) -> Result<ImageFormat, Failure> {
    if !"image/"@.is_prefix_of(content_type) {
        Err(Failure { status: 400, message: Some("Content-Type is not for an image"@) })
    } else {
        match mime_type_extension(content_type) {
            None => Err(
                Failure {
                    status: 400,
                    message: Some(unsupported_message(content_type.skip(6))),
                },
            ),
            Some(extension) => match format_of_extension(extension) {
                Some(format) => Ok(format),
                None => Err(
                    Failure { status: 400, message: Some(unsupported_message(extension)) },
                ),
            },
        }
    }
}

/// What the service makes of the media type header, which may be absent.
pub open spec fn header_verdict(content_type: Option<Seq<char>>) -> Result<ImageFormat, Failure> {
    match content_type {
        None => Err(Failure { status: 400, message: Some("missing Content-Type header"@) }),
        Some(t) => format_verdict(t),
    }
}

/// The format that a media type passes as: one of the four supported
/// media types, written exactly, names its format, and nothing else
/// names any.
pub open spec fn supported_format(content_type: Seq<char>) -> Option<ImageFormat> {
    if content_type == "image/png"@ {
        Some(ImageFormat::Png)
    } else if content_type == "image/webp"@ {
        Some(ImageFormat::WebP)
    } else if content_type == "image/bmp"@ {
        Some(ImageFormat::Bmp)
    } else if content_type == "image/gif"@ {
        Some(ImageFormat::Gif)
    } else {
        None
    }
}

/// The format gate. A declared type passes if and only if it is one of
/// the four supported media types, and then resolves to the format it
/// names. Every other type, within `image/` or outside it, and an absent
/// header are turned away with status 400 and a message.
pub proof fn lemma_format_gate(content_type: Seq<char>)
    ensures
        match supported_format(content_type) {
            Some(format) => format_verdict(content_type) == Ok::<ImageFormat, Failure>(format)
                && content_type == format.mime_type(),
            None => format_verdict(content_type) matches Err(failure) && failure.status == 400
                && failure.message is Some,
        },
        header_verdict(Some(content_type)) == format_verdict(content_type),
        header_verdict(None) matches Err(failure) && failure.status == 400
            && failure.message is Some,
{
    reveal_strlit("image/");
    reveal_strlit("image/avif");
    reveal_strlit("image/jpeg");
    reveal_strlit("image/png");
    reveal_strlit("image/gif");
    reveal_strlit("image/webp");
    reveal_strlit("image/tiff");
    reveal_strlit("image/x-targa");
    reveal_strlit("image/x-tga");
    reveal_strlit("image/vnd-ms.dds");
    reveal_strlit("image/bmp");
    reveal_strlit("avif");
    reveal_strlit("jpg");
    reveal_strlit("png");
    reveal_strlit("gif");
    reveal_strlit("webp");
    reveal_strlit("tiff");
    reveal_strlit("tga");
    reveal_strlit("dds");
    reveal_strlit("bmp");
    reveal_strlit("ico");
    reveal_strlit("hdr");
    reveal_strlit("exr");
    reveal_strlit("pbm");
    reveal_strlit("qoi");
    // Two literals differ where one character of theirs differs.
    assert("image/avif"@[6] == 'a');
    assert("image/jpeg"@[6] == 'j');
    assert("image/png"@[6] == 'p');
    assert("image/gif"@[6] == 'g');
    assert("image/webp"@[6] == 'w');
    assert("image/tiff"@[6] == 't');
    assert("image/x-targa"@[6] == 'x');
    assert("image/x-tga"@[6] == 'x');
    assert("image/vnd-ms.dds"@[6] == 'v');
    assert("image/bmp"@[6] == 'b');
    assert("avif"@[0] == 'a');
    assert("jpg"@[0] == 'j');
    assert("png"@[0] == 'p');
    assert("gif"@[0] == 'g');
    assert("webp"@[0] == 'w');
    assert("tiff"@[0] == 't');
    assert("tga"@[0] == 't');
    assert("dds"@[0] == 'd');
    assert("bmp"@[0] == 'b');
    assert("ico"@[0] == 'i');
    assert("hdr"@[0] == 'h');
    assert("exr"@[0] == 'e');
    assert("pbm"@[0] == 'p');
    assert("qoi"@[0] == 'q');
    assert("png"@[1] == 'n');
    assert("pbm"@[1] == 'b');
    if supported_format(content_type) is Some {
        assert("image/"@ =~= content_type.subrange(0, 6));
    }
}

/// Calls `ImageFormat::from_mime_type` of the crate image and, on the
/// format found, `ImageFormat::extensions_str`, of which it hands out the
/// first entry. Trusted: the two tables of that crate, taken together,
/// are the table `mime_type_extension`; the comparison is exact, with no
/// folding of case.
#[verifier::external_body]
fn known_extension(content_type: &str) -> (r: Option<String>)
    ensures
        match mime_type_extension(content_type@) {
            Some(e) => r is Some && r->0@ == e,
            None => r is None,
        },
{
    match image::ImageFormat::from_mime_type(content_type) {
        Some(f) => Some(f.extensions_str()[0].to_string()),
        None => None,
    }
}

/// Calls `ImageFormat::extensions_str` of the crate image and hands out
/// the first entry. Trusted: for the four formats of this library that is
/// `png`, `webp`, `bmp` and `gif`.
#[verifier::external_body]
fn primary_extension(format: ImageFormat) -> (r: String)
    ensures
        r@ == format.extension(),
{
    let f = match format {
        ImageFormat::Png => image::ImageFormat::Png,
        ImageFormat::WebP => image::ImageFormat::WebP,
        ImageFormat::Bmp => image::ImageFormat::Bmp,
        ImageFormat::Gif => image::ImageFormat::Gif,
    };
    f.extensions_str()[0].to_string()
}

/// Calls `ImageFormat::to_mime_type` of the crate image. Trusted: for the
/// four formats of this library that is `image/png`, `image/webp`,
/// `image/bmp` and `image/gif`.
#[verifier::external_body]
fn canonical_mime_type(format: ImageFormat) -> (r: String)
    ensures
        r@ == format.mime_type(),
{
    let f = match format {
        ImageFormat::Png => image::ImageFormat::Png,
        ImageFormat::WebP => image::ImageFormat::WebP,
        ImageFormat::Bmp => image::ImageFormat::Bmp,
        ImageFormat::Gif => image::ImageFormat::Gif,
    };
    f.to_mime_type().to_string()
}

impl ImageFormat {
    /// The file extension that objects of this format are stored under.
    pub fn extension_string(self) -> (r: String)
        ensures
            r@ == self.extension(),
    {
        primary_extension(self)
    }

    /// The media type that objects of this format are stored with.
    pub fn mime_type_string(self) -> (r: String)
        ensures
            r@ == self.mime_type(),
    {
        canonical_mime_type(self)
    }

    /// Finds the supported format that is stored under a file extension.
    pub fn from_extension(extension: &str) -> (r: Option<ImageFormat>)
        ensures
            r == format_of_extension(extension@),
    {
        if same_text(extension, "png") {
            Some(ImageFormat::Png)
        } else if same_text(extension, "webp") {
            Some(ImageFormat::WebP)
        } else if same_text(extension, "bmp") {
            Some(ImageFormat::Bmp)
        } else if same_text(extension, "gif") {
            Some(ImageFormat::Gif)
        } else {
            None
        }
    }
}

/// Resolves a declared media type to a supported format, or says why the
/// submission is turned away.
pub fn validate_img_format(content_type: &str) -> (r: Result<ImageFormat, ApiError>)
    ensures
        match r {
            Ok(format) => format_verdict(content_type@) == Ok::<ImageFormat, Failure>(format),
            Err(e) => format_verdict(content_type@) == Err::<ImageFormat, Failure>(e@),
        },
{
    if !starts_with(content_type, "image/") {
        return Err(ApiError::new(400, String::from_str("Content-Type is not for an image")));
    }
    proof {
        reveal_strlit("image/");
    }
    match known_extension(content_type) {
        None => {
            let n = content_type.unicode_len();
            let subtype = content_type.substring_char(6, n);
            assert(subtype@ =~= content_type@.skip(6));
            Err(ApiError::new(400, join("unsupported image format: ", subtype)))
        },
        Some(extension) => match ImageFormat::from_extension(extension.as_str()) {
            Some(format) => Ok(format),
            None => Err(
                ApiError::new(400, join("unsupported image format: ", extension.as_str())),
            ),
        },
    }
}

/// Resolves the media type header of a submission, which may be absent.
pub fn validate_content_type(content_type: Option<&str>) -> (r: Result<ImageFormat, ApiError>)
    ensures
        match r {
            Ok(format) => header_verdict(
                match content_type {
                    Some(t) => Some(t@),
                    None => None,
                },
            ) == Ok::<ImageFormat, Failure>(format),
            Err(e) => header_verdict(
                match content_type {
                    Some(t) => Some(t@),
                    None => None,
                },
            ) == Err::<ImageFormat, Failure>(e@),
        },
{
    match content_type {
        None => Err(ApiError::new(400, String::from_str("missing Content-Type header"))),
        Some(t) => validate_img_format(t),
    }
}

} // verus!
