use auto_update::download::{Artifact, Download, DownloadAction, DownloadError};
use auto_update::download::{DownloadEvent, DownloadStage};
use auto_update::download::{EXECUTABLE_MODE, REQUEST_TIMEOUT_SECS, STATUS_OK};

fn app() -> Artifact {
    Artifact { url: "http://127.0.0.1:8080/app", path: "storage/client/app" }
}

fn streaming() -> Download {
    let (mut d, _) = Download::start(app());
    assert_eq!(d.step(DownloadEvent::Responded(200)), DownloadAction::CreateFile);
    assert_eq!(d.step(DownloadEvent::FileCreated), DownloadAction::CopyChunk);
    d
}

#[test]
fn the_limits_are_the_documented_ones() {
    assert_eq!(REQUEST_TIMEOUT_SECS, 5);
    assert_eq!(STATUS_OK, 200);
    assert_eq!(EXECUTABLE_MODE, 0o755);
}

#[test]
fn a_download_starts_with_a_bounded_request() {
    let (d, first) = Download::start(app());
    assert_eq!(first, DownloadAction::SendRequest { timeout_secs: 5 });
    assert_eq!(d.current_stage(), DownloadStage::Requesting);
    assert_eq!(d.target(), app());
}

#[test]
fn a_complete_download_is_marked_executable_last() {
    let mut d = streaming();
    assert_eq!(d.step(DownloadEvent::ChunkWritten), DownloadAction::CopyChunk);
    assert_eq!(d.step(DownloadEvent::ChunkWritten), DownloadAction::CopyChunk);
    assert_eq!(d.current_stage(), DownloadStage::Streaming);
    assert_eq!(d.step(DownloadEvent::BodyEnded), DownloadAction::ReadMetadata);
    assert_eq!(d.step(DownloadEvent::MetadataRead), DownloadAction::SetMode { mode: 0o755 });
    assert_eq!(d.step(DownloadEvent::Marked), DownloadAction::Succeed);
    assert_eq!(d.current_stage(), DownloadStage::Finished);
}

#[test]
fn a_refused_request_creates_no_file() {
    let (mut d, _) = Download::start(app());
    assert_eq!(d.step(DownloadEvent::Responded(404)), DownloadAction::ReadRefusal);
    assert_eq!(d.current_stage(), DownloadStage::Refused);
    assert_eq!(d.step(DownloadEvent::FileCreated), DownloadAction::Ignore);
    assert_eq!(
        d.step(DownloadEvent::RefusalRead(String::from("not found"))),
        DownloadAction::Fail(DownloadError::Status(String::from("not found")))
    );
    assert_eq!(d.current_stage(), DownloadStage::Failed);
}

#[test]
fn a_broken_body_is_never_marked_executable() {
    let mut d = streaming();
    d.step(DownloadEvent::ChunkWritten);
    assert_eq!(
        d.step(DownloadEvent::ChunkMalformed(String::from("reset"))),
        DownloadAction::Fail(DownloadError::Chunk(String::from("reset")))
    );
    assert_eq!(d.current_stage(), DownloadStage::Failed);
    assert_eq!(d.step(DownloadEvent::BodyEnded), DownloadAction::Ignore);
    assert_eq!(d.step(DownloadEvent::MetadataRead), DownloadAction::Ignore);
    assert_eq!(d.step(DownloadEvent::Marked), DownloadAction::Ignore);
    assert_eq!(d.current_stage(), DownloadStage::Failed);
}

#[test]
fn each_failure_has_its_error() {
    let (mut d, _) = Download::start(app());
    assert_eq!(
        d.step(DownloadEvent::RequestFailed(String::from("timeout"))),
        DownloadAction::Fail(DownloadError::Request(String::from("timeout")))
    );
    let (mut d, _) = Download::start(app());
    d.step(DownloadEvent::Responded(200));
    assert_eq!(
        d.step(DownloadEvent::CreateFailed(String::from("denied"))),
        DownloadAction::Fail(DownloadError::Create(String::from("denied")))
    );
    let mut d = streaming();
    assert_eq!(
        d.step(DownloadEvent::WriteFailed(String::from("disk full"))),
        DownloadAction::Fail(DownloadError::Write(String::from("disk full")))
    );
    let mut d = streaming();
    d.step(DownloadEvent::BodyEnded);
    assert_eq!(
        d.step(DownloadEvent::MetadataFailed(String::from("gone"))),
        DownloadAction::Fail(DownloadError::Metadata(String::from("gone")))
    );
    let mut d = streaming();
    d.step(DownloadEvent::BodyEnded);
    d.step(DownloadEvent::MetadataRead);
    assert_eq!(
        d.step(DownloadEvent::MarkFailed(String::from("read-only"))),
        DownloadAction::Fail(DownloadError::Permissions(String::from("read-only")))
    );
    assert_eq!(d.current_stage(), DownloadStage::Failed);
}

#[test]
fn an_event_out_of_turn_changes_nothing() {
    let (mut d, _) = Download::start(app());
    assert_eq!(d.step(DownloadEvent::BodyEnded), DownloadAction::Ignore);
    assert_eq!(d.step(DownloadEvent::Marked), DownloadAction::Ignore);
    assert_eq!(d.step(DownloadEvent::ChunkWritten), DownloadAction::Ignore);
    assert_eq!(d.current_stage(), DownloadStage::Requesting);
    let mut d = streaming();
    assert_eq!(d.step(DownloadEvent::Responded(200)), DownloadAction::Ignore);
    assert_eq!(d.step(DownloadEvent::MetadataRead), DownloadAction::Ignore);
    assert_eq!(d.current_stage(), DownloadStage::Streaming);
}

#[test]
fn messages_open_with_their_fixed_text() {
    let d = String::from("why");
    assert_eq!(DownloadError::Request(d.clone()).message(), "failed to download, why");
    assert_eq!(
        DownloadError::Status(d.clone()).message(),
        "server returned unsuccessful message, why"
    );
    assert_eq!(DownloadError::Create(d.clone()).message(), "failed to create file, why");
    assert_eq!(DownloadError::Chunk(d.clone()).message(), "malformed chunk, why");
    assert_eq!(
        DownloadError::Write(d.clone()).message(),
        "failed to write chunks into file, why"
    );
    assert_eq!(
        DownloadError::Metadata(d.clone()).message(),
        "failed to read metadata of file, why"
    );
    assert_eq!(
        DownloadError::Permissions(d).message(),
        "failed to set permission of file, why"
    );
}
