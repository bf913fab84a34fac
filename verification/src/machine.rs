//! The life of one job in the metadata worker, as a machine that is fed what
//! happened and answers with what to do next. The caller owns every fetch,
//! upload and write; the machine owns every decision between them.

use vstd::prelude::*;
use vstd::string::*;
use crate::job::NftMintJob;
use crate::json::{json_member, json_parse};
use crate::media::UploadPlan;
use crate::metadata::{opt_text, string_field};
use crate::store::{NftMedia, NftMetadata};
use crate::uri::resolve_spec;
use crate::worker::{
    body_spec, media_request, media_row, media_tasks, media_tasks_spec, metadata_from_response,
    metadata_request, metadata_row, mirrored, task_views, upload_for, Fetched, FetchRequest,
    MediaTask, WorkerError,
};

verus! {

/// Where a job stands.
pub enum Stage {
    /// Taken from the bus, nothing done yet.
    Received,
    /// The metadata URI is resolved and its document is being fetched.
    FetchingMetadata,
    /// The document is normalised and its row is being written.
    WritingMetadata,
    /// The bytes of the current media object are being fetched.
    FetchingMedia,
    /// The current media object is being uploaded under this plan.
    Uploading(UploadPlan),
    /// The row of the current media object is being written.
    WritingMedia,
    /// Nothing more happens to this job.
    Done,
}

/// What the caller reports to the machine.
pub enum Event {
    /// The job is to be started.
    Start,
    /// The fetch that was asked for has ended.
    Fetched(Fetched),
    /// The upload that was asked for has ended; `true` if the store took it.
    Uploaded(bool),
    /// The write that was asked for has ended, well or not.
    Written,
}

/// What the machine asks of the caller.
pub enum Action {
    /// Make this request and report `Fetched`.
    Fetch(FetchRequest),
    /// Insert this row if its key is absent and report `Written`.
    WriteMetadata(NftMetadata),
    /// Put these bytes under this key and report `Uploaded`.
    Upload { bucket: String, key: String, body: Vec<u8> },
    /// Insert this row if its key is absent and report `Written`.
    WriteMedia(NftMedia),
    /// The job is over.
    Finish,
    /// The event does not belong to the stage the job is in; nothing changed.
    Nothing,
}

/// The machine's answer to an event.
pub struct Step {
    /// A failure to log, if the event brought one.
    pub report: Option<WorkerError>,
    /// What to do next.
    pub action: Action,
}

/// One job on its way through the worker.
pub struct JobRun {
    /// The job.
    pub job: NftMintJob,
    /// The bucket of the object store, if one is configured.
    pub bucket: Option<String>,
    /// Where the job stands.
    pub stage: Stage,
    /// The media objects the document names.
    pub tasks: Vec<MediaTask>,
    /// The place in `tasks` of the object in progress.
    pub next: usize,
}

impl JobRun {
    /// While a media object is in progress, `next` names it.
    pub open spec fn wf(self) -> bool {
        match self.stage {
            Stage::FetchingMedia | Stage::Uploading(_) | Stage::WritingMedia => self.next
                < self.tasks@.len(),
            _ => true,
        }
    }

    /// The job, the bucket and the media objects are those of `before`.
    pub open spec fn continues(self, before: JobRun) -> bool {
        &&& self.job == before.job
        &&& self.bucket == before.bucket
        &&& self.tasks == before.tasks
    }

    /// Whether the run is well formed.
    pub fn well_formed(&self) -> (ok: bool)
        ensures
            ok == self.wf(),
    {
        match &self.stage {
            Stage::FetchingMedia | Stage::Uploading(_) | Stage::WritingMedia => self.next
                < self.tasks.len(),
            _ => true,
        }
    }

    /// A job as it comes from the bus.
    pub fn new(job: NftMintJob, bucket: Option<String>) -> (run: JobRun)
        ensures
            run.wf(),
            run.job == job,
            run.bucket == bucket,
            run.stage is Received,
            run.tasks@.len() == 0,
            run.next == 0,
    {
        JobRun { job, bucket, stage: Stage::Received, tasks: Vec::new(), next: 0 }
    }
}

/// The job ends with this step, reporting `report`.
pub open spec fn ends(after: JobRun, step: Step, report: Option<WorkerError>) -> bool {
    &&& after.stage is Done
    &&& step.report == report
    &&& step.action is Finish
}

/// With this step the machine turns to the media object at `index`: it asks
/// for the object's bytes, or ends the job if there is no such object.
pub open spec fn turns_to(after: JobRun, step: Step, index: int, report: Option<WorkerError>) -> bool {
    if index < after.tasks@.len() {
        &&& after.stage is FetchingMedia
        &&& after.next == index
        &&& step.report == report
        &&& step.action matches Action::Fetch(request)
        &&& request.url@ == resolve_spec(after.tasks@[index].original_url@)
        &&& request.timeout_secs == 20
    } else {
        ends(after, step, report)
    }
}

/// The row that is written for a job whose document is `doc`.
pub open spec fn is_metadata_row(row: NftMetadata, job: NftMintJob, doc: serde_json::Value) -> bool {
    &&& row.contract_address == job.contract_address
    &&& row.token_id == job.token_id
    &&& row.chain == job.chain
    &&& opt_text(row.name) == string_field(doc, "name"@)
    &&& opt_text(row.description) == string_field(doc, "description"@)
    &&& row.attributes == json_member(doc, "attributes"@)
    &&& row.raw_metadata == doc
}

/// The row that is written for a media object mirrored under `plan`.
pub open spec fn is_media_row(row: NftMedia, job: NftMintJob, task: MediaTask, plan: UploadPlan) -> bool {
    &&& row.contract_address == job.contract_address
    &&& row.token_id == job.token_id
    &&& row.media_type == task.media_type
    &&& row.original_url == task.original_url
    &&& row.cached_url == plan.cached_url
    &&& row.storage_backend@ == "s3"@
}

/// The transition relation: `after` and `step` are the machine's answer to
/// `event` in `before`.
///
/// A job without a URI, a metadata fetch that fails, and a body that is not
/// JSON end the job. Once the document is normalised its row is written, and
/// whatever comes of that write, the media objects follow, one after the
/// other: a failure with one is reported and the next is taken up.
pub open spec fn steps_to(before: JobRun, event: Event, after: JobRun, step: Step) -> bool {
    match (before.stage, event) {
        (Stage::Received, Event::Start) => {
            &&& after.continues(before)
            &&& match before.job.metadata_uri {
                None => ends(after, step, Some(WorkerError::MissingUri)),
                Some(uri) => {
                    &&& after.stage is FetchingMetadata
                    &&& step.report is None
                    &&& step.action matches Action::Fetch(request)
                    &&& request.url@ == resolve_spec(uri@)
                    &&& request.timeout_secs == 10
                },
            }
        },
        (Stage::FetchingMetadata, Event::Fetched(fetched)) => {
            &&& after.job == before.job
            &&& after.bucket == before.bucket
            &&& match body_spec(fetched) {
                Err(e) => ends(after, step, Some(e)),
                Ok(bytes) => match json_parse(bytes) {
                    None => ends(after, step, Some(WorkerError::InvalidJson)),
                    Some(doc) => {
                        &&& after.stage is WritingMetadata
                        &&& task_views(after.tasks@) == media_tasks_spec(
                            string_field(doc, "image"@),
                            string_field(doc, "animation_url"@),
                        )
                        &&& step.report is None
                        &&& step.action matches Action::WriteMetadata(row)
                        &&& is_metadata_row(row, before.job, doc)
                    },
                },
            }
        },
        (Stage::WritingMetadata, Event::Written) => {
            &&& after.continues(before)
            &&& turns_to(after, step, 0, None)
        },
        (Stage::FetchingMedia, Event::Fetched(fetched)) => {
            &&& after.continues(before)
            &&& match body_spec(fetched) {
                Err(e) => turns_to(after, step, before.next + 1, Some(e)),
                Ok(bytes) => match before.bucket {
                    None => turns_to(after, step, before.next + 1, Some(WorkerError::NotConfigured)),
                    Some(name) => {
                        &&& after.next == before.next
                        &&& after.stage matches Stage::Uploading(plan)
                        &&& plan.is_plan_for(
                            before.tasks@[before.next as int].original_url@,
                            name@,
                        )
                        &&& step.report is None
                        &&& step.action matches Action::Upload { bucket, key, body }
                        &&& bucket == plan.bucket
                        &&& key == plan.key
                        &&& body@ == bytes
                    },
                },
            }
        },
        (Stage::Uploading(plan), Event::Uploaded(taken)) => {
            &&& after.continues(before)
            &&& if taken {
                &&& after.next == before.next
                &&& after.stage is WritingMedia
                &&& step.report is None
                &&& step.action matches Action::WriteMedia(row)
                &&& is_media_row(row, before.job, before.tasks@[before.next as int], plan)
            } else {
                turns_to(after, step, before.next + 1, Some(WorkerError::UploadFailed))
            }
        },
        (Stage::WritingMedia, Event::Written) => {
            &&& after.continues(before)
            &&& turns_to(after, step, before.next + 1, None)
        },
        _ => {
            &&& after == before
            &&& step.report is None
            &&& step.action is Nothing
        },
    }
}

/// Ends the job.
fn finish(job: NftMintJob, bucket: Option<String>, tasks: Vec<MediaTask>, next: usize, report: Option<
    WorkerError,
>) -> (out: (JobRun, Step))
    ensures
        out.0.wf(),
        out.0.job == job,
        out.0.bucket == bucket,
        out.0.tasks == tasks,
        ends(out.0, out.1, report),
{
    (JobRun { job, bucket, stage: Stage::Done, tasks, next }, Step { report, action: Action::Finish })
}

/// Takes up the media object at `index`, or ends the job if there is none.
fn turn_to(job: NftMintJob, bucket: Option<String>, tasks: Vec<MediaTask>, index: usize, report: Option<
    WorkerError,
>) -> (out: (JobRun, Step))
    ensures
        out.0.wf(),
        out.0.job == job,
        out.0.bucket == bucket,
        out.0.tasks == tasks,
        turns_to(out.0, out.1, index as int, report),
{
    if index < tasks.len() {
        let request = media_request(tasks[index].original_url.as_str());
        (
            JobRun { job, bucket, stage: Stage::FetchingMedia, tasks, next: index },
            Step { report, action: Action::Fetch(request) },
        )
    } else {
        finish(job, bucket, tasks, index, report)
    }
}

/// Leaves the job as it is: the event is not one that its stage awaits.
fn stay(job: NftMintJob, bucket: Option<String>, stage: Stage, tasks: Vec<MediaTask>, next: usize) -> (out:
    (JobRun, Step))
    ensures
        out.0 == (JobRun { job, bucket, stage, tasks, next }),
        out.1.report is None,
        out.1.action is Nothing,
{
    (JobRun { job, bucket, stage, tasks, next }, Step { report: None, action: Action::Nothing })
}

/// Feeds one event to a job and returns the job as it stands afterwards and
/// what is to be done next.
pub fn step(run: JobRun, event: Event) -> (out: (JobRun, Step))
    requires
        run.wf(),
    ensures
        out.0.wf(),
        steps_to(run, event, out.0, out.1),
{
    let JobRun { job, bucket, stage, tasks, next } = run;
    let count: usize = tasks.len();
    match stage {
        Stage::Received => match event {
            Event::Start => match metadata_request(&job) {
                Ok(request) => (
                    JobRun { job, bucket, stage: Stage::FetchingMetadata, tasks, next },
                    Step { report: None, action: Action::Fetch(request) },
                ),
                Err(e) => finish(job, bucket, tasks, next, Some(e)),
            },
            _ => stay(job, bucket, Stage::Received, tasks, next),
        },
        Stage::FetchingMetadata => match event {
            Event::Fetched(fetched) => match metadata_from_response(fetched) {
                Ok(meta) => {
                    let row = metadata_row(&job, &meta);
                    let found = media_tasks(&meta);
                    (
                        JobRun { job, bucket, stage: Stage::WritingMetadata, tasks: found, next: 0 },
                        Step { report: None, action: Action::WriteMetadata(row) },
                    )
                },
                Err(e) => finish(job, bucket, tasks, next, Some(e)),
            },
            _ => stay(job, bucket, Stage::FetchingMetadata, tasks, next),
        },
        Stage::WritingMetadata => match event {
            Event::Written => turn_to(job, bucket, tasks, 0, None),
            _ => stay(job, bucket, Stage::WritingMetadata, tasks, next),
        },
        Stage::FetchingMedia => match event {
            Event::Fetched(fetched) => {
                let planned = match &bucket {
                    Some(name) => upload_for(
                        tasks[next].original_url.as_str(),
                        fetched,
                        Some(name.as_str()),
                    ),
                    None => upload_for(tasks[next].original_url.as_str(), fetched, None),
                };
                match planned {
                    Ok((plan, body)) => {
                        let action = Action::Upload {
                            bucket: plan.bucket.clone(),
                            key: plan.key.clone(),
                            body,
                        };
                        (
                            JobRun { job, bucket, stage: Stage::Uploading(plan), tasks, next },
                            Step { report: None, action },
                        )
                    },
                    Err(e) => turn_to(job, bucket, tasks, next + 1, Some(e)),
                }
            },
            _ => stay(job, bucket, Stage::FetchingMedia, tasks, next),
        },
        Stage::Uploading(plan) => match event {
            Event::Uploaded(taken) => match mirrored(plan, taken) {
                Ok(media) => {
                        let row = media_row(&job, &tasks[next], media);
                    (
                        JobRun { job, bucket, stage: Stage::WritingMedia, tasks, next },
                        Step { report: None, action: Action::WriteMedia(row) },
                    )
                },
                Err(e) => turn_to(job, bucket, tasks, next + 1, Some(e)),
            },
            _ => stay(job, bucket, Stage::Uploading(plan), tasks, next),
        },
        Stage::WritingMedia => match event {
            Event::Written => turn_to(job, bucket, tasks, next + 1, None),
            _ => stay(job, bucket, Stage::WritingMedia, tasks, next),
        },
        Stage::Done => stay(job, bucket, Stage::Done, tasks, next),
    }
}

} // verus!
