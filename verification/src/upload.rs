//! The five variants of an accepted image: how each is derived, named
//! and handed to the store, and how the outcomes of the five stores are
//! collapsed into one result.

use crate::dimension::within_limits;
use crate::error::{ApiError, Failure};
use crate::format::ImageFormat;
use crate::hash::fingerprint;
use crate::raster::{encode_image, encoding, is_upscale_factor, replicated, upscale, DecodedImage};
use crate::text::{decimal, decimal_string};
use vstd::prelude::*;
use vstd::string::*;

verus! {

/// The scale factors of the variants, in the order in which the variants
/// are derived and reported. The factor 1 stands for the image as it was
/// submitted.
pub open spec fn scale_factors() -> Seq<u32> {
    seq![1u32, 2u32, 4u32, 8u32, 16u32]
}

/// The name of a variant without its extension: the fingerprint alone
/// for the original, and the fingerprint, an underscore, the scale and an
/// `x` for an enlarged variant.
pub open spec fn variant_stem(fingerprint: Seq<char>, scale: u32) -> Seq<char> {
    if scale == 1 {
        fingerprint
    } else {
        fingerprint + "_"@ + decimal(scale as nat) + "x"@
    }
}

/// The key of an object: its stem, a dot, and the extension of its format.
pub open spec fn object_key(stem: Seq<char>, format: ImageFormat) -> Seq<char> {
    stem + "."@ + format.extension()
}

/// The key under which the variant of a given scale is stored.
pub open spec fn storage_key(fingerprint: Seq<char>, scale: u32, format: ImageFormat) -> Seq<
    char,
> {
    object_key(variant_stem(fingerprint, scale), format)
}

/// One stored variant as contracts speak of it.
pub struct Record {
    pub scale: u32,
    pub name: Seq<char>,
}

/// One stored variant as it is reported: its scale and its key.
#[derive(Debug, Clone, PartialEq, Eq)]
pub struct UploadedImage {
    pub scale: u32,
    pub name: String,
}

impl View for UploadedImage {
    type V = Record;

    open spec fn view(&self) -> Record {
        Record { scale: self.scale, name: self.name@ }
    }
}

/// An object on its way to the store.
#[derive(Debug, Clone, PartialEq, Eq)]
pub struct BucketObject {
    pub key: String,
    pub data: Vec<u8>,
    pub content_type: String,
}

/// A variant that has been derived and encoded and is yet to be stored.
#[derive(Debug, Clone, PartialEq, Eq)]
pub struct PendingUpload {
    pub scale: u32,
    pub object: BucketObject,
}

/// What it takes to derive the variants of one submission: the decoded
/// image, the fingerprint of the submitted bytes, and the format that
/// every variant is written in.
#[derive(Debug, Clone, PartialEq, Eq)]
pub struct ImageUploader {
    pub img: DecodedImage,
    pub hash: String,
    pub dest_fmt: ImageFormat,
}

/// Makes the object that is stored for a stem: its key, its bytes, and
/// the media type of its format.
pub fn bucket_object(stem: &str, data: Vec<u8>, format: ImageFormat) -> (o: BucketObject)
    ensures
        o.key@ == object_key(stem@, format),
        o.data == data,
        o.content_type@ == format.mime_type(),
{
    let mut key = String::from_str(stem);
    key.append(".");
    key.append(format.extension_string().as_str());
    BucketObject { key, data, content_type: format.mime_type_string() }
}

impl PendingUpload {
    /// Settles a variant once the store has answered: a stored variant
    /// is reported by its scale and key, a failed one is not reported.
    pub fn finish(self, stored: bool) -> (r: Result<UploadedImage, ()>)
        ensures
            stored ==> (r matches Ok(u) && u.scale == self.scale && u.name == self.object.key),
            !stored ==> r is Err,
    {
        if stored {
            Ok(UploadedImage { scale: self.scale, name: self.object.key })
        } else {
            Err(())
        }
    }
}

impl ImageUploader {
    /// The image is whole and within the limits.
    pub open spec fn wf(&self) -> bool {
        &&& self.img.wf()
        &&& within_limits(self.img.width, self.img.height)
    }

    /// The bytes of the variant of a given scale, or nothing where the
    /// variant cannot be encoded.
    pub open spec fn variant_encoding(&self, scale: u32) -> Option<Seq<u8>> {
        if scale == 1 {
            encoding(
                self.img.width,
                self.img.height,
                self.img.channels,
                self.img.depth,
                self.img.samples@,
                self.dest_fmt,
            )
        } else {
            encoding(
                (scale * self.img.width) as u32,
                (scale * self.img.height) as u32,
                self.img.channels,
                self.img.depth,
                replicated(
                    self.img.samples@,
                    self.img.width as nat,
                    self.img.height as nat,
                    self.img.pixel_size(),
                    scale as nat,
                ),
                self.dest_fmt,
            )
        }
    }

    /// Is `r` what deriving the variant of a given scale comes to? Where
    /// the variant can be encoded, it is an object that holds the
    /// variant's bytes under the variant's key; where it cannot, a failure.
    pub open spec fn derives(&self, scale: u32, r: Result<PendingUpload, ()>) -> bool {
        match self.variant_encoding(scale) {
            Some(bytes) => r matches Ok(p) && p.scale == scale && p.object.key@ == storage_key(
                self.hash@,
                scale,
                self.dest_fmt,
            ) && p.object.data@ == bytes && p.object.content_type@ == self.dest_fmt.mime_type(),
            None => r is Err,
        }
    }

    /// Derives the variant that is the image as it was submitted.
    pub fn original_upload(&self) -> (r: Result<PendingUpload, ()>)
        requires
            self.img.wf(),
        ensures
            self.derives(1, r),
    {
        let mut img_data: Vec<u8> = Vec::new();
        match encode_image(&self.img, self.dest_fmt, &mut img_data) {
            Err(_) => Err(()),
            Ok(_) => {
                let object = bucket_object(self.hash.as_str(), img_data, self.dest_fmt);
                Ok(PendingUpload { scale: 1, object })
            },
        }
    }

    /// Derives the variant that is the image enlarged by `scale`.
    pub fn upscaled_upload(&self, scale: u32) -> (r: Result<PendingUpload, ()>)
        requires
            self.wf(),
            is_upscale_factor(scale),
        ensures
            self.derives(scale, r),
    {
        let img = upscale(&self.img, scale);
        let mut img_data: Vec<u8> = Vec::new();
        match encode_image(&img, self.dest_fmt, &mut img_data) {
            Err(_) => Err(()),
            Ok(_) => {
                let mut stem = self.hash.clone();
                stem.append("_");
                stem.append(decimal_string(scale as u64).as_str());
                stem.append("x");
                let object = bucket_object(stem.as_str(), img_data, self.dest_fmt);
                Ok(PendingUpload { scale, object })
            },
        }
    }

    /// Derives all five variants, in the order of the scale factors. A
    /// variant that cannot be encoded fails alone: the others are derived
    /// all the same.
    pub fn pending_uploads(&self) -> (r: Vec<Result<PendingUpload, ()>>)
        requires
            self.wf(),
        ensures
            r@.len() == 5,
            forall|i: int| 0 <= i < 5 ==> self.derives(scale_factors()[i], #[trigger] r@[i]),
    {
        let mut r: Vec<Result<PendingUpload, ()>> = Vec::new();
        r.push(self.original_upload());
        r.push(self.upscaled_upload(2));
        r.push(self.upscaled_upload(4));
        r.push(self.upscaled_upload(8));
        r.push(self.upscaled_upload(16));
        r
    }
}

/// The outcomes of the stores as contracts speak of them.
pub open spec fn outcome_views(outcomes: Seq<Result<UploadedImage, ()>>) -> Seq<Option<Record>> {
    Seq::new(
        outcomes.len(),
        |i: int|
            match outcomes[i] {
                Ok(u) => Some(u@),
                Err(_) => None,
            },
    )
}

/// The one result that the outcomes of the stores collapse into: all the
/// records, in the order of the outcomes, where every store succeeded,
/// and otherwise a single failure of status 500 that says nothing more.
pub open spec fn collected(outcomes: Seq<Option<Record>>) -> Result<Seq<Record>, Failure> {
    if forall|i: int| 0 <= i < outcomes.len() ==> (#[trigger] outcomes[i]) is Some {
        Ok(Seq::new(outcomes.len(), |i: int| outcomes[i]->0))
    } else {
        Err(Failure { status: 500, message: None })
    }
}

/// What the stores report where all five variants of a fingerprint were
/// stored.
pub open spec fn full_success(fingerprint: Seq<char>, format: ImageFormat) -> Seq<Option<Record>> {
    Seq::new(
        5,
        |i: int|
            Some(
                Record {
                    scale: scale_factors()[i],
                    name: storage_key(fingerprint, scale_factors()[i], format),
                },
            ),
    )
}

/// Keys of different scales differ, whatever the fingerprint.
pub proof fn lemma_keys_distinct(fingerprint: Seq<char>, format: ImageFormat, i: int, j: int)
    requires
        0 <= i < j < 5,
    ensures
        storage_key(fingerprint, scale_factors()[i], format) != storage_key(
            fingerprint,
            scale_factors()[j],
            format,
        ),
{
    reveal_strlit("_");
    reveal_strlit(".");
    reveal_strlit("x");
    reveal_with_fuel(decimal, 2);
    let n = fingerprint.len() as int;
    let a = storage_key(fingerprint, scale_factors()[i], format);
    let b = storage_key(fingerprint, scale_factors()[j], format);
    assert(decimal(2)[0] == '2');
    assert(decimal(4)[0] == '4');
    assert(decimal(8)[0] == '8');
    assert(decimal(16)[0] == '1');
    assert(b[n] == '_');
    if i == 0 {
        assert(a[n] == '.');
    } else {
        assert(a[n + 1] != b[n + 1]);
    }
}

/// Fan-out completeness. Where all five stores succeed, the result is
/// exactly five records, of the scales 1, 2, 4, 8 and 16 in this order,
/// each under the key of its scale, and no two under one key.
pub proof fn lemma_fan_out_complete(fingerprint: Seq<char>, format: ImageFormat)
    ensures
        collected(full_success(fingerprint, format)) matches Ok(records) && records.len() == 5
            && (forall|i: int|
            0 <= i < 5 ==> (#[trigger] records[i]).scale == scale_factors()[i] && records[i].name
                == storage_key(fingerprint, scale_factors()[i], format)) && (forall|i: int, j: int|
            0 <= i < j < 5 ==> (#[trigger] records[i]).name != (#[trigger] records[j]).name),
        storage_key(fingerprint, 1, format) == fingerprint + "."@ + format.extension(),
        forall|scale: u32|
            scale != 1 ==> #[trigger] storage_key(fingerprint, scale, format) == fingerprint + "_"@
                + decimal(scale as nat) + "x"@ + "."@ + format.extension(),
{
    let records = collected(full_success(fingerprint, format))->Ok_0;
    assert forall|i: int, j: int| 0 <= i < j < 5 implies (#[trigger] records[i]).name != (
    #[trigger] records[j]).name by {
        lemma_keys_distinct(fingerprint, format, i, j);
    }
}

/// All-or-nothing reporting. Where any one store failed, whichever it
/// was and whatever became of the others, the result is the one failure
/// of status 500 without a message, and no record is reported.
pub proof fn lemma_all_or_nothing(outcomes: Seq<Option<Record>>, failed: int)
    requires
        0 <= failed < outcomes.len(),
        outcomes[failed] is None,
    ensures
        collected(outcomes) == Err::<Seq<Record>, Failure>(Failure { status: 500, message: None }),
{
}

/// Content addressing. The keys of a submission are a function of its
/// bytes: two submissions of the same bytes get the same five keys, the
/// second time as the first.
pub proof fn lemma_keys_deterministic(first: Seq<u8>, second: Seq<u8>, format: ImageFormat)
    requires
        first == second,
    ensures
        full_success(fingerprint(first), format) == full_success(fingerprint(second), format),
        forall|scale: u32| #[trigger]
            storage_key(fingerprint(first), scale, format) == storage_key(
                fingerprint(second),
                scale,
                format,
            ),
{
}

/// The key of a variant follows from the fingerprint, the scale and the
/// destination format alone. Two derivations that agree in these three
/// and succeed give the same key and the same scale, whatever the images
/// they were made from.
pub proof fn lemma_key_follows_fingerprint_and_scale(
    first: ImageUploader,
    second: ImageUploader,
    scale: u32,
    a: Result<PendingUpload, ()>,
    b: Result<PendingUpload, ()>,
)
    requires
        first.hash@ == second.hash@,
        first.dest_fmt == second.dest_fmt,
        first.derives(scale, a),
        second.derives(scale, b),
        a is Ok,
        b is Ok,
    ensures
        a->Ok_0.object.key@ == b->Ok_0.object.key@,
        a->Ok_0.object.key@ == storage_key(first.hash@, scale, first.dest_fmt),
        a->Ok_0.scale == scale,
        b->Ok_0.scale == scale,
{
}

/// The records as contracts speak of them.
pub open spec fn record_views(records: Seq<UploadedImage>) -> Seq<Record> {
    Seq::new(records.len(), |i: int| records[i]@)
}

/// Waits for nothing and cancels nothing: takes the outcome of every
/// store and reports all records or one failure.
pub fn collect_uploads(outcomes: Vec<Result<UploadedImage, ()>>) -> (r: Result<
    Vec<UploadedImage>,
    ApiError,
>)
    ensures
        match r {
            Ok(records) => collected(outcome_views(outcomes@)) == Ok::<Seq<Record>, Failure>(
                record_views(records@),
            ),
            Err(e) => collected(outcome_views(outcomes@)) == Err::<Seq<Record>, Failure>(e@),
        },
{
    let ghost views = outcome_views(outcomes@);
    let mut records: Vec<UploadedImage> = Vec::new();
    let mut i: usize = 0;
    while i < outcomes.len()
        invariant
            i <= outcomes.len(),
            views == outcome_views(outcomes@),
            records@.len() == i,
            forall|j: int| 0 <= j < i ==> (#[trigger] views[j]) is Some,
            forall|j: int| 0 <= j < i ==> (#[trigger] records@[j])@ == views[j]->0,
        decreases outcomes.len() - i,
    {
        match &outcomes[i] {
            Ok(u) => {
                records.push(UploadedImage { scale: u.scale, name: u.name.clone() });
            },
            Err(_) => {
                assert(views[i as int] is None);
                return Err(ApiError::no_msg(500));
            },
        }
        i += 1;
    }
    assert(record_views(records@) =~= Seq::new(views.len(), |i: int| views[i]->0));
    Ok(records)
}

} // verus!
