//! Images that users upload: which ones are taken, under which name they are
//! stored, and where they can be fetched.

use vstd::prelude::*;

use crate::auth::AuthUser;
use crate::reply::{
    answer_of, fail, failure, reject, rejection, reply_view, Rejection, RejectionView, Status,
};
use crate::text::text_view;
use crate::uuids::{draw_identifier, format_uuid, hyphenated, number_drawn, random_form};

verus! {

/// The most bytes that an image may have.
pub const MAX_IMAGE_SIZE: usize = 10 * 1024 * 1024;

/// The part of a multipart body that comes before its data.
pub struct FieldHead {
    pub name: Option<String>,
    pub content_type: Option<String>,
}

/// Where an uploaded image can be fetched.
pub struct UploadResponse {
    pub url: String,
}

impl View for UploadResponse {
    type V = Seq<char>;

    open spec fn view(&self) -> Seq<char> {
        self.url@
    }
}

/// The content types that are taken.
pub open spec fn allowed(content_type: Seq<char>) -> bool {
    ||| content_type == "image/jpeg"@
    ||| content_type == "image/png"@
    ||| content_type == "image/gif"@
    ||| content_type == "image/webp"@
}

/// Is an image of this content type taken?
pub fn is_allowed(content_type: &String) -> (yes: bool)
    ensures
        yes == allowed(content_type@),
{
    *content_type == "image/jpeg".to_string() || *content_type == "image/png".to_string()
        || *content_type == "image/gif".to_string() || *content_type == "image/webp".to_string()
}

/// The ending of the name of a file, by its content type.
pub open spec fn extension_of(content_type: Seq<char>) -> Seq<char> {
    if content_type == "image/jpeg"@ {
        "jpg"@
    } else if content_type == "image/png"@ {
        "png"@
    } else if content_type == "image/gif"@ {
        "gif"@
    } else if content_type == "image/webp"@ {
        "webp"@
    } else {
        "bin"@
    }
}

/// The ending of the name of a file, by its content type.
pub fn extension(content_type: &String) -> (ending: &'static str)
    ensures
        ending@ == extension_of(content_type@),
{
    if *content_type == "image/jpeg".to_string() {
        "jpg"
    } else if *content_type == "image/png".to_string() {
        "png"
    } else if *content_type == "image/gif".to_string() {
        "gif"
    } else if *content_type == "image/webp".to_string() {
        "webp"
    } else {
        "bin"
    }
}

/// The name of a stored file: a number, and an ending by the content type.
pub open spec fn file_name(id: u128, content_type: Seq<char>) -> Seq<char> {
    hyphenated(id) + "."@ + extension_of(content_type)
}

/// The address of a stored file, under the server's own address where none is
/// configured.
pub open spec fn file_url(base_url: Option<Seq<char>>, name: Seq<char>) -> Seq<char> {
    let base = match base_url {
        Some(base) => base,
        None => "http://localhost:8080"@,
    };
    base + "/uploads/"@ + name
}

/// A field is the file that is uploaded.
pub open spec fn is_file(field: FieldHead) -> bool {
    field.name matches Some(name) && name@ == "file"@
}

/// The content type of a field; one that names none is taken for plain bytes.
pub open spec fn content_type_of(field: FieldHead) -> Seq<char> {
    match field.content_type {
        Some(content_type) => content_type@,
        None => "application/octet-stream"@,
    }
}

/// The answer to a body without a file.
pub open spec fn no_file() -> RejectionView {
    rejection(Status::BadRequest, "No file field in request"@)
}

/// The answer to a file that is no image.
pub open spec fn not_an_image() -> RejectionView {
    rejection(Status::UnsupportedMediaType, "Only JPEG, PNG, GIF, and WebP images are allowed"@)
}

/// Where an upload goes from a field: past it, or on to its data.
pub enum FieldView {
    Skipped,
    Taken(Seq<char>),
}

/// Where an upload goes with the next field of the body, if there is one.
pub open spec fn field_seen(field: Result<Option<FieldHead>, Seq<char>>) -> Result<
    FieldView,
    RejectionView,
> {
    match field {
        Err(error) => Err(rejection(Status::BadRequest, error)),
        Ok(None) => Err(no_file()),
        Ok(Some(field)) => if !is_file(field) {
            Ok(FieldView::Skipped)
        } else if allowed(content_type_of(field)) {
            Ok(FieldView::Taken(content_type_of(field)))
        } else {
            Err(not_an_image())
        },
    }
}

/// An upload once the data of the file is read, to be stored under a number.
pub open spec fn data_read(
    content_type: Seq<char>,
    data: Result<Vec<u8>, Seq<char>>,
    id: u128,
) -> Result<(Seq<char>, Seq<u8>), RejectionView> {
    match data {
        Err(error) => Err(rejection(Status::BadRequest, error)),
        Ok(data) => if data@.len() > MAX_IMAGE_SIZE {
            Err(rejection(Status::PayloadTooLarge, "Image must be under 10 MB"@))
        } else {
            Ok((file_name(id, content_type), data@))
        },
    }
}

/// The answer to an upload once the file is written.
pub open spec fn file_written(
    name: Seq<char>,
    written: Result<(), Seq<char>>,
    base_url: Option<Seq<char>>,
) -> Result<Seq<char>, RejectionView> {
    match written {
        Err(error) => Err(failure(error)),
        Ok(()) => Ok(file_url(base_url, name)),
    }
}

/// An upload that waits for the data of its file.
pub struct UploadReading {
    content_type: String,
}

impl View for UploadReading {
    type V = Seq<char>;

    closed spec fn view(&self) -> Seq<char> {
        self.content_type@
    }
}

/// An upload that waits for its file to be written.
pub struct UploadWriting {
    name: String,
    data: Vec<u8>,
}

impl View for UploadWriting {
    type V = (Seq<char>, Seq<u8>);

    closed spec fn view(&self) -> (Seq<char>, Seq<u8>) {
        (self.name@, self.data@)
    }
}

/// Where an upload goes from a field.
pub enum FieldStep {
    /// The field is not the file; the next one is to be looked at.
    Skip,
    /// The field is the file; its data is to be read.
    Read(UploadReading),
}

impl View for FieldStep {
    type V = FieldView;

    open spec fn view(&self) -> FieldView {
        match self {
            FieldStep::Skip => FieldView::Skipped,
            FieldStep::Read(reading) => FieldView::Taken(reading@),
        }
    }
}

/// Looks at the next field of the body of an upload, if there is one. Any user
/// who is logged in may upload. The upload goes past a field that is not the
/// file, and on to its data where it is an image. A body that cannot be read is
/// the client's fault.
pub fn upload_image(_auth: &AuthUser, field: Result<Option<FieldHead>, String>) -> (next: Result<
    FieldStep,
    Rejection,
>)
    ensures
        reply_view(next) == field_seen(answer_of(field)),
{
    let field = match field {
        Err(error) => return Err(Rejection { status: Status::BadRequest, error }),
        Ok(None) => return Err(reject(Status::BadRequest, "No file field in request")),
        Ok(Some(field)) => field,
    };
    let is_file = match &field.name {
        Some(name) => *name == "file".to_string(),
        None => false,
    };
    if !is_file {
        return Ok(FieldStep::Skip);
    }
    let content_type = match field.content_type {
        Some(content_type) => content_type,
        None => "application/octet-stream".to_string(),
    };
    if !is_allowed(&content_type) {
        return Err(
            reject(
                Status::UnsupportedMediaType,
                "Only JPEG, PNG, GIF, and WebP images are allowed",
            ),
        );
    }
    Ok(FieldStep::Read(UploadReading { content_type }))
}

impl UploadReading {
    /// Goes on with the data of the file, to be stored under a number. Data
    /// that cannot be read is the client's fault.
    pub fn resume_as(self, data: Result<Vec<u8>, String>, id: u128) -> (next: Result<
        UploadWriting,
        Rejection,
    >)
        ensures
            reply_view(next) == data_read(self@, answer_of(data), id),
    {
        match data {
            Err(error) => Err(Rejection { status: Status::BadRequest, error }),
            Ok(data) => if data.len() > MAX_IMAGE_SIZE {
                Err(reject(Status::PayloadTooLarge, "Image must be under 10 MB"))
            } else {
                let mut name = format_uuid(id);
                name.append(".");
                name.append(extension(&self.content_type));
                Ok(UploadWriting { name, data })
            },
        }
    }

    /// Goes on with the data of the file, to be stored under a random number.
    pub fn resume(self, data: Result<Vec<u8>, String>) -> (next: Result<UploadWriting, Rejection>)
        ensures
            exists|id: u128|
                number_drawn(id) && random_form(id) && reply_view(next) == #[trigger] data_read(
                    self@,
                    answer_of(data),
                    id,
                ),
    {
        let id: u128 = draw_identifier();
        self.resume_as(data, id)
    }
}

impl UploadWriting {
    /// The name of the file to write, in the directory of the uploads.
    pub fn name(&self) -> (name: &str)
        ensures
            name@ == self@.0,
    {
        self.name.as_str()
    }

    /// The data of the file to write.
    pub fn data(&self) -> (data: &Vec<u8>)
        ensures
            data@ == self@.1,
    {
        &self.data
    }

    /// Answers with the address of the file once it is written, under the
    /// configured address of the server where there is one.
    pub fn resume(self, written: Result<(), String>, base_url: Option<String>) -> (reply: Result<
        UploadResponse,
        Rejection,
    >)
        ensures
            reply_view(reply) == file_written(
                self@.0,
                answer_of(written),
                text_view(base_url),
            ),
    {
        match written {
            Err(error) => Err(fail(error)),
            Ok(()) => {
                let mut url = match base_url {
                    Some(base) => base,
                    None => "http://localhost:8080".to_string(),
                };
                url.append("/uploads/");
                url.append(self.name.as_str());
                Ok(UploadResponse { url })
            },
        }
    }
}

} // verus!
