//! The decisions of the metadata worker, job by job. The caller performs the
//! fetches, uploads and writes that these functions ask for and hands back
//! what came of them.

use vstd::prelude::*;
use vstd::string::*;
use crate::job::NftMintJob;
use crate::json::{json_member, json_parse, parse};
use crate::media::{plan_upload, UploadPlan};
use crate::metadata::{normalize, opt_text, string_field, NormalizedMetadata};
use crate::store::{NftMedia, NftMetadata};
use crate::uri::{resolve_spec, resolve_uri};

verus! {

/// Why a job, or one media object of a job, yields no row.
#[derive(Clone, Copy, Debug, PartialEq, Eq, Structural)]
pub enum WorkerError {
    /// The job carries no metadata URI.
    MissingUri,
    /// The request did not get an answer.
    Transport,
    /// The answer's status is not 200.
    BadStatus(u16),
    /// The answer's body could not be read to its end.
    BodyUnreadable,
    /// The body is not JSON.
    InvalidJson,
    /// No object store is configured.
    NotConfigured,
    /// The object store refused the upload.
    UploadFailed,
}

/// A GET request that the caller is to make.
pub struct FetchRequest {
    /// The absolute location.
    pub url: String,
    /// The deadline for the whole exchange, in seconds.
    pub timeout_secs: u64,
}

/// What came of a request.
pub enum Fetched {
    /// No answer: the connection failed or the deadline passed.
    TransportFailed,
    /// An answer, with its body unless reading it failed.
    Answered { status: u16, body: Option<Vec<u8>> },
}

/// One media object to mirror.
pub struct MediaTask {
    /// `image` or `animation`.
    pub media_type: String,
    /// The URL as the metadata document has it.
    pub original_url: String,
}

/// A media object that was mirrored.
pub struct MirroredMedia {
    /// Where the mirror is read.
    pub cached_url: String,
    /// The location the bytes were fetched from.
    pub resolved_url: String,
    /// The tag of the storage backend.
    pub backend: String,
}

/// The deadline of a metadata fetch, in seconds.
pub const METADATA_TIMEOUT_SECS: u64 = 10;

/// The deadline of a media fetch, in seconds.
pub const MEDIA_TIMEOUT_SECS: u64 = 20;

/// The body of an answer with status 200, or the reason there is none.
pub open spec fn body_spec(fetched: Fetched) -> Result<Seq<u8>, WorkerError> {
    match fetched {
        Fetched::TransportFailed => Err(WorkerError::Transport),
        Fetched::Answered { status, body } => if status != 200 {
            Err(WorkerError::BadStatus(status))
        } else {
            match body {
                Some(bytes) => Ok(bytes@),
                None => Err(WorkerError::BodyUnreadable),
            }
        },
    }
}

/// The media objects that a document names: its image, then its animation.
pub open spec fn media_tasks_spec(image: Option<Seq<char>>, animation: Option<Seq<char>>) -> Seq<
    (Seq<char>, Seq<char>),
> {
    let first = match image {
        Some(url) => seq![("image"@, url)],
        None => Seq::empty(),
    };
    let second = match animation {
        Some(url) => seq![("animation"@, url)],
        None => Seq::empty(),
    };
    first + second
}

/// Media tasks as pairs of media type and URL.
pub open spec fn task_views(tasks: Seq<MediaTask>) -> Seq<(Seq<char>, Seq<char>)> {
    tasks.map_values(|t: MediaTask| (t.media_type@, t.original_url@))
}

/// The request for a job's metadata document. A job without a URI has none.
pub fn metadata_request(job: &NftMintJob) -> (out: Result<FetchRequest, WorkerError>)
    ensures
        job.metadata_uri is None ==> out == Err::<FetchRequest, WorkerError>(
            WorkerError::MissingUri,
        ),
        job.metadata_uri matches Some(uri) ==> (out matches Ok(request) && request.url@
            == resolve_spec(uri@) && request.timeout_secs == 10),
{
    match &job.metadata_uri {
        Some(uri) => Ok(
            FetchRequest { url: resolve_uri(uri.as_str()), timeout_secs: METADATA_TIMEOUT_SECS },
        ),
        None => Err(WorkerError::MissingUri),
    }
}

/// The request for the bytes behind a media URL.
pub fn media_request(url: &str) -> (out: FetchRequest)
    ensures
        out.url@ == resolve_spec(url@),
        out.timeout_secs == 20,
{
    FetchRequest { url: resolve_uri(url), timeout_secs: MEDIA_TIMEOUT_SECS }
}

/// Whether the body of an answer with this status is read at all: only a
/// status of 200 is followed by reading.
pub fn wants_body(status: u16) -> (wanted: bool)
    ensures
        wanted == (status == 200),
{
    status == 200
}

/// The body of an answer, which only an answer with status 200 and a
/// readable body has.
pub fn response_body(fetched: Fetched) -> (out: Result<Vec<u8>, WorkerError>)
    ensures
        match body_spec(fetched) {
            Ok(bytes) => out matches Ok(body) && body@ == bytes,
            Err(e) => out == Err::<Vec<u8>, WorkerError>(e),
        },
{
    match fetched {
        Fetched::TransportFailed => Err(WorkerError::Transport),
        Fetched::Answered { status, body } => {
            if status != 200 {
                Err(WorkerError::BadStatus(status))
            } else {
                match body {
                    Some(bytes) => Ok(bytes),
                    None => Err(WorkerError::BodyUnreadable),
                }
            }
        },
    }
}

/// Parses a body and normalises the document. A body that is not JSON is an
/// error; any JSON document normalises.
pub fn metadata_from_body(body: &[u8]) -> (out: Result<NormalizedMetadata, WorkerError>)
    ensures
        match json_parse(body@) {
            Some(doc) => out matches Ok(meta) && meta.is_normal_form_of(doc),
            None => out == Err::<NormalizedMetadata, WorkerError>(WorkerError::InvalidJson),
        },
{
    match parse(body) {
        Ok(doc) => Ok(normalize(doc)),
        Err(_) => Err(WorkerError::InvalidJson),
    }
}

/// The normalised metadata that an answer carries, or the reason the job
/// ends here.
pub fn metadata_from_response(fetched: Fetched) -> (out: Result<NormalizedMetadata, WorkerError>)
    ensures
        match body_spec(fetched) {
            Ok(bytes) => match json_parse(bytes) {
                Some(doc) => out matches Ok(meta) && meta.is_normal_form_of(doc),
                None => out == Err::<NormalizedMetadata, WorkerError>(WorkerError::InvalidJson),
            },
            Err(e) => out == Err::<NormalizedMetadata, WorkerError>(e),
        },
{
    match response_body(fetched) {
        Ok(body) => metadata_from_body(body.as_slice()),
        Err(e) => Err(e),
    }
}

/// A copy of an optional string.
fn copy_text(text: &Option<String>) -> (out: Option<String>)
    ensures
        out == *text,
{
    match text {
        Some(s) => Some(s.clone()),
        None => None,
    }
}

/// The metadata row of a job: the job's key, the name and description that
/// were lifted, and the attributes and the document as they came.
pub fn metadata_row(job: &NftMintJob, meta: &NormalizedMetadata) -> (row: NftMetadata)
    ensures
        row.contract_address == job.contract_address,
        row.token_id == job.token_id,
        row.chain == job.chain,
        row.name == meta.name,
        row.description == meta.description,
        row.attributes == meta.attributes,
        row.raw_metadata == meta.raw,
{
    NftMetadata {
        contract_address: job.contract_address.clone(),
        token_id: job.token_id.clone(),
        chain: job.chain.clone(),
        name: copy_text(&meta.name),
        description: copy_text(&meta.description),
        attributes: match &meta.attributes {
            Some(value) => Some(value.clone()),
            None => None,
        },
        raw_metadata: meta.raw.clone(),
    }
}

/// The media objects to mirror for a document: the image, then the
/// animation, each only if the document names it.
pub fn media_tasks(meta: &NormalizedMetadata) -> (out: Vec<MediaTask>)
    ensures
        task_views(out@) == media_tasks_spec(opt_text(meta.image), opt_text(meta.animation_url)),
{
    let mut out: Vec<MediaTask> = Vec::new();
    match &meta.image {
        Some(url) => {
            out.push(MediaTask { media_type: "image".to_owned(), original_url: url.clone() });
        },
        None => {},
    }
    match &meta.animation_url {
        Some(url) => {
            out.push(MediaTask { media_type: "animation".to_owned(), original_url: url.clone() });
        },
        None => {},
    }
    assert(task_views(out@) =~= media_tasks_spec(
        opt_text(meta.image),
        opt_text(meta.animation_url),
    ));
    out
}

/// Decides what becomes of fetched media: the upload that mirrors it, with
/// the bytes to write, or the reason there is none. The fetch is judged
/// first, the configuration after it.
pub fn upload_for(url: &str, fetched: Fetched, bucket: Option<&str>) -> (out: Result<
    (UploadPlan, Vec<u8>),
    WorkerError,
>)
    ensures
        match body_spec(fetched) {
            Err(e) => out == Err::<(UploadPlan, Vec<u8>), WorkerError>(e),
            Ok(bytes) => match bucket {
                None => out == Err::<(UploadPlan, Vec<u8>), WorkerError>(
                    WorkerError::NotConfigured,
                ),
                Some(name) => out matches Ok(pair) && pair.0.is_plan_for(url@, name@) && pair.1@
                    == bytes,
            },
        },
{
    match response_body(fetched) {
        Err(e) => Err(e),
        Ok(body) => match bucket {
            None => Err(WorkerError::NotConfigured),
            Some(name) => Ok((plan_upload(url, name), body)),
        },
    }
}

/// What a finished upload amounts to: the mirror of the plan if the store
/// took the object, an error if it did not.
pub fn mirrored(plan: UploadPlan, uploaded: bool) -> (out: Result<MirroredMedia, WorkerError>)
    ensures
        !uploaded ==> out == Err::<MirroredMedia, WorkerError>(WorkerError::UploadFailed),
        uploaded ==> (out matches Ok(media) && media.cached_url == plan.cached_url
            && media.resolved_url == plan.resolved_url && media.backend@ == "s3"@),
{
    if uploaded {
        Ok(
            MirroredMedia {
                cached_url: plan.cached_url,
                resolved_url: plan.resolved_url,
                backend: "s3".to_owned(),
            },
        )
    } else {
        Err(WorkerError::UploadFailed)
    }
}

/// The media row of a mirrored object.
pub fn media_row(job: &NftMintJob, task: &MediaTask, media: MirroredMedia) -> (row: NftMedia)
    ensures
        row.contract_address == job.contract_address,
        row.token_id == job.token_id,
        row.media_type == task.media_type,
        row.original_url == task.original_url,
        row.cached_url == media.cached_url,
        row.storage_backend == media.backend,
{
    NftMedia {
        contract_address: job.contract_address.clone(),
        token_id: job.token_id.clone(),
        media_type: task.media_type.clone(),
        original_url: task.original_url.clone(),
        cached_url: media.cached_url,
        storage_backend: media.backend,
    }
}

/// A document without an `image` member, or whose `image` is no string,
/// gives no image task; one with neither media field gives no task at all.
pub proof fn lemma_no_media_field_no_task(meta: NormalizedMetadata, raw: serde_json::Value)
    requires
        meta.is_normal_form_of(raw),
    ensures
        string_field(raw, "image"@) is None ==> forall|i: int|
            0 <= i < media_tasks_spec(opt_text(meta.image), opt_text(meta.animation_url)).len()
                ==> (#[trigger] media_tasks_spec(
                opt_text(meta.image),
                opt_text(meta.animation_url),
            )[i]).0 == "animation"@,
        json_member(raw, "image"@) is None && json_member(raw, "animation_url"@) is None
            ==> media_tasks_spec(opt_text(meta.image), opt_text(meta.animation_url)).len() == 0,
{
}

} // verus!
