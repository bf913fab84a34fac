use nft_pipeline::job::NftMintJob;
use nft_pipeline::store::{insert_nft_media, insert_nft_metadata, MediaTable, MetadataTable};
use nft_pipeline::worker::{
    media_request, media_row, media_tasks, metadata_from_body, metadata_from_response,
    metadata_request, metadata_row, mirrored, response_body, upload_for, Fetched, WorkerError,
};

fn job(uri: Option<&str>) -> NftMintJob {
    NftMintJob {
        contract_address: "0x000000000000000000000000000000000000000a".to_string(),
        token_id: "1".to_string(),
        chain: "ethereum".to_string(),
        metadata_uri: uri.map(|u| u.to_string()),
    }
}

fn answered(status: u16, body: &str) -> Fetched {
    Fetched::Answered { status, body: Some(body.as_bytes().to_vec()) }
}

fn run(job: &NftMintJob, document: Fetched, metadata: &mut MetadataTable, media: &mut MediaTable) -> Option<WorkerError> {
    if let Err(e) = metadata_request(job) {
        return Some(e);
    }
    let normalized = match metadata_from_response(document) {
        Ok(n) => n,
        Err(e) => return Some(e),
    };
    insert_nft_metadata(metadata, &metadata_row(job, &normalized));
    for task in media_tasks(&normalized) {
        let fetched = Fetched::Answered { status: 200, body: Some(vec![1, 2, 3]) };
        let (plan, _bytes) = upload_for(&task.original_url, fetched, Some("bucket")).unwrap();
        let done = mirrored(plan, true).unwrap();
        insert_nft_media(media, &media_row(job, &task, done));
    }
    None
}

#[test]
fn requests_carry_resolved_urls_and_deadlines() {
    let request = metadata_request(&job(Some("ipfs://QmX"))).ok().unwrap();
    assert_eq!(request.url, "https://ipfs.io/ipfs/QmX");
    assert_eq!(request.timeout_secs, 10);
    let media = media_request("ar://cat.png");
    assert_eq!(media.url, "https://arweave.net/cat.png");
    assert_eq!(media.timeout_secs, 20);
}

#[test]
fn job_without_uri_ends_at_once() {
    assert_eq!(metadata_request(&job(None)).err(), Some(WorkerError::MissingUri));
    let mut metadata = MetadataTable::new();
    let mut media = MediaTable::new();
    let end = run(&job(None), answered(200, "{}"), &mut metadata, &mut media);
    assert_eq!(end, Some(WorkerError::MissingUri));
    assert_eq!(metadata.rows.len(), 0);
    assert_eq!(media.rows.len(), 0);
}

#[test]
fn answers_are_judged_by_status_then_body() {
    assert_eq!(response_body(Fetched::TransportFailed).err(), Some(WorkerError::Transport));
    assert_eq!(response_body(answered(404, "{}")).err(), Some(WorkerError::BadStatus(404)));
    assert_eq!(response_body(answered(201, "{}")).err(), Some(WorkerError::BadStatus(201)));
    assert_eq!(
        response_body(Fetched::Answered { status: 500, body: None }).err(),
        Some(WorkerError::BadStatus(500))
    );
    assert_eq!(
        response_body(Fetched::Answered { status: 200, body: None }).err(),
        Some(WorkerError::BodyUnreadable)
    );
    assert_eq!(response_body(answered(200, "abc")).ok(), Some(b"abc".to_vec()));
}

#[test]
fn metadata_404_gives_no_rows() {
    assert_eq!(
        metadata_from_response(answered(404, "not found")).err(),
        Some(WorkerError::BadStatus(404))
    );
    let mut metadata = MetadataTable::new();
    let mut media = MediaTable::new();
    let end = run(&job(Some("https://example.com/1")), answered(404, ""), &mut metadata, &mut media);
    assert_eq!(end, Some(WorkerError::BadStatus(404)));
    assert_eq!(metadata.rows.len(), 0);
    assert_eq!(media.rows.len(), 0);
}

#[test]
fn body_that_is_not_json_gives_no_rows() {
    assert_eq!(metadata_from_body(b"<html></html>").err(), Some(WorkerError::InvalidJson));
    assert_eq!(metadata_from_body(b"").err(), Some(WorkerError::InvalidJson));
    assert_eq!(
        metadata_from_response(answered(200, "{\"name\":")).err(),
        Some(WorkerError::InvalidJson)
    );
    let mut metadata = MetadataTable::new();
    let mut media = MediaTable::new();
    let end = run(&job(Some("ipfs://QmX")), answered(200, "oops"), &mut metadata, &mut media);
    assert_eq!(end, Some(WorkerError::InvalidJson));
    assert_eq!(metadata.rows.len(), 0);
    assert_eq!(media.rows.len(), 0);
}

#[test]
fn document_without_image_gives_no_media() {
    let normalized = metadata_from_body(b"{\"name\":\"T\"}").ok().unwrap();
    assert_eq!(media_tasks(&normalized).len(), 0);
    let mut metadata = MetadataTable::new();
    let mut media = MediaTable::new();
    let end = run(&job(Some("ipfs://QmX")), answered(200, "{\"name\":\"T\"}"), &mut metadata, &mut media);
    assert_eq!(end, None);
    assert_eq!(metadata.rows.len(), 1);
    assert_eq!(media.rows.len(), 0);
}

#[test]
fn image_comes_before_animation() {
    let normalized =
        metadata_from_body(b"{\"animation_url\":\"ar://a.mp4\",\"image\":\"ipfs://QmY\"}").ok().unwrap();
    let tasks = media_tasks(&normalized);
    assert_eq!(tasks.len(), 2);
    assert_eq!(tasks[0].media_type, "image");
    assert_eq!(tasks[0].original_url, "ipfs://QmY");
    assert_eq!(tasks[1].media_type, "animation");
    assert_eq!(tasks[1].original_url, "ar://a.mp4");
    let only = metadata_from_body(b"{\"animation_url\":\"ar://a.mp4\",\"image\":7}").ok().unwrap();
    let tasks = media_tasks(&only);
    assert_eq!(tasks.len(), 1);
    assert_eq!(tasks[0].media_type, "animation");
}

#[test]
fn media_needs_a_good_answer_and_a_bucket() {
    assert_eq!(
        upload_for("ipfs://QmY", Fetched::TransportFailed, Some("b")).err(),
        Some(WorkerError::Transport)
    );
    assert_eq!(
        upload_for("ipfs://QmY", answered(403, ""), Some("b")).err(),
        Some(WorkerError::BadStatus(403))
    );
    assert_eq!(
        upload_for("ipfs://QmY", answered(403, ""), None).err(),
        Some(WorkerError::BadStatus(403))
    );
    assert_eq!(
        upload_for("ipfs://QmY", answered(200, "png"), None).err(),
        Some(WorkerError::NotConfigured)
    );
    let (plan, bytes) = upload_for("ipfs://QmY", answered(200, "png"), Some("b")).ok().unwrap();
    assert_eq!(bytes, b"png".to_vec());
    assert_eq!(plan.bucket, "b");
    assert_eq!(plan.resolved_url, "https://ipfs.io/ipfs/QmY");
    assert_eq!(
        plan.key,
        "1209201c75c3f7f01870c76179bbd619aaeea04a505bc94f588b4be6248ee7c5.bin"
    );
}

#[test]
fn failed_upload_gives_no_mirror() {
    let (plan, _) = upload_for("ipfs://QmY", answered(200, "png"), Some("b")).ok().unwrap();
    assert_eq!(mirrored(plan, false).err(), Some(WorkerError::UploadFailed));
    let (plan, _) = upload_for("ipfs://QmY", answered(200, "png"), Some("b")).ok().unwrap();
    let done = mirrored(plan, true).ok().unwrap();
    assert_eq!(done.backend, "s3");
    assert_eq!(done.resolved_url, "https://ipfs.io/ipfs/QmY");
    assert_eq!(
        done.cached_url,
        "https://b.s3.amazonaws.com/1209201c75c3f7f01870c76179bbd619aaeea04a505bc94f588b4be6248ee7c5.bin"
    );
}

#[test]
fn single_token_mint_with_ipfs_metadata() {
    let mut metadata = MetadataTable::new();
    let mut media = MediaTable::new();
    let job = job(Some("ipfs://QmX"));
    let body = "{\"name\":\"T\",\"image\":\"ipfs://QmY\"}";
    assert_eq!(run(&job, answered(200, body), &mut metadata, &mut media), None);
    assert_eq!(metadata.rows.len(), 1);
    let row = &metadata.rows[0];
    assert_eq!(row.contract_address, "0x000000000000000000000000000000000000000a");
    assert_eq!(row.token_id, "1");
    assert_eq!(row.chain, "ethereum");
    assert_eq!(row.name.as_deref(), Some("T"));
    assert_eq!(row.description, None);
    assert_eq!(row.attributes, None);
    assert_eq!(row.raw_metadata, serde_json::from_str::<serde_json::Value>(body).unwrap());
    assert_eq!(media.rows.len(), 1);
    let image = &media.rows[0];
    assert_eq!(image.contract_address, "0x000000000000000000000000000000000000000a");
    assert_eq!(image.token_id, "1");
    assert_eq!(image.media_type, "image");
    assert_eq!(image.original_url, "ipfs://QmY");
    assert_eq!(
        image.cached_url,
        "https://bucket.s3.amazonaws.com/1209201c75c3f7f01870c76179bbd619aaeea04a505bc94f588b4be6248ee7c5.bin"
    );
    assert_eq!(image.storage_backend, "s3");
}

#[test]
fn redelivered_job_adds_no_rows() {
    let mut metadata = MetadataTable::new();
    let mut media = MediaTable::new();
    let job = job(Some("ipfs://QmX"));
    let body = "{\"name\":\"T\",\"image\":\"ipfs://QmY\"}";
    assert_eq!(run(&job, answered(200, body), &mut metadata, &mut media), None);
    assert_eq!(run(&job, answered(200, body), &mut metadata, &mut media), None);
    assert_eq!(metadata.rows.len(), 1);
    assert_eq!(media.rows.len(), 1);
    let changed = "{\"name\":\"U\",\"image\":\"ipfs://QmZ\"}";
    assert_eq!(run(&job, answered(200, changed), &mut metadata, &mut media), None);
    assert_eq!(metadata.rows.len(), 1);
    assert_eq!(metadata.rows[0].name.as_deref(), Some("T"));
    assert_eq!(media.rows.len(), 1);
    assert_eq!(media.rows[0].original_url, "ipfs://QmY");
}

#[test]
fn numeric_name_is_absent_but_kept_in_the_document() {
    let mut metadata = MetadataTable::new();
    let mut media = MediaTable::new();
    let body = "{\"name\":42}";
    assert_eq!(run(&job(Some("ipfs://QmX")), answered(200, body), &mut metadata, &mut media), None);
    assert_eq!(metadata.rows.len(), 1);
    assert_eq!(metadata.rows[0].name, None);
    assert_eq!(
        metadata.rows[0].raw_metadata,
        serde_json::from_str::<serde_json::Value>("{\"name\":42}").unwrap()
    );
    assert_eq!(media.rows.len(), 0);
}

#[test]
fn only_status_200_has_its_body_read() {
    assert!(nft_pipeline::worker::wants_body(200));
    assert!(!nft_pipeline::worker::wants_body(204));
    assert!(!nft_pipeline::worker::wants_body(404));
}
