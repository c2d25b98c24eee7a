//! Fetching one artifact to a local file, step by step.
//!
//! The caller performs the network and file work. After each piece of work it
//! reports what happened, and is told what to do next. The file is marked
//! executable only once the whole body has been written to it, so a download
//! that breaks off never leaves a runnable partial file.

use vstd::prelude::*;
use vstd::string::StringExecFns;

verus! {

/// How long a request may take before it counts as failed, in seconds.
pub const REQUEST_TIMEOUT_SECS: u64 = 5;

/// The only response status that counts as success.
pub const STATUS_OK: u16 = 200;

/// The permission bits of a finished artifact: owner may read, write and run,
/// everyone else may read and run.
pub const EXECUTABLE_MODE: u32 = 0o755;

/// Something to fetch, and where to put it.
#[derive(Clone, Copy, Debug, PartialEq, Eq)]
pub struct Artifact {
    pub url: &'static str,
    pub path: &'static str,
}

/// Why a download failed. Each variant carries the caller's description of the
/// underlying fault.
#[derive(Debug, PartialEq, Eq)]
pub enum DownloadError {
    /// The request could not be sent or timed out.
    Request(String),
    /// The server answered with a status other than success; holds the body.
    Status(String),
    /// The local file could not be created.
    Create(String),
    /// A piece of the body arrived damaged.
    Chunk(String),
    /// A piece of the body could not be written to the file.
    Write(String),
    /// The file's metadata could not be read.
    Metadata(String),
    /// The file's permissions could not be changed.
    Permissions(String),
}

impl DownloadError {
    /// The fixed text that opens the message of each kind of failure.
    pub open spec fn prefix(self) -> Seq<char> {
        match self {
            DownloadError::Request(_) => "failed to download, "@,
            DownloadError::Status(_) => "server returned unsuccessful message, "@,
            DownloadError::Create(_) => "failed to create file, "@,
            DownloadError::Chunk(_) => "malformed chunk, "@,
            DownloadError::Write(_) => "failed to write chunks into file, "@,
            DownloadError::Metadata(_) => "failed to read metadata of file, "@,
            DownloadError::Permissions(_) => "failed to set permission of file, "@,
        }
    }

    /// The caller's description of the fault.
    pub open spec fn detail(self) -> Seq<char> {
        match self {
            DownloadError::Request(d) => d@,
            DownloadError::Status(d) => d@,
            DownloadError::Create(d) => d@,
            DownloadError::Chunk(d) => d@,
            DownloadError::Write(d) => d@,
            DownloadError::Metadata(d) => d@,
            DownloadError::Permissions(d) => d@,
        }
    }

    /// The full message: the prefix, then the detail.
    pub open spec fn text(self) -> Seq<char> {
        self.prefix() + self.detail()
    }

    /// Renders the failure as one line of text.
    pub fn message(&self) -> (m: String)
        ensures
            m@ == self.text(),
    {
        match self {
            DownloadError::Request(d) => String::from_str("failed to download, ").concat(
                d.as_str(),
            ),
            DownloadError::Status(d) => String::from_str(
                "server returned unsuccessful message, ",
            ).concat(d.as_str()),
            DownloadError::Create(d) => String::from_str("failed to create file, ").concat(
                d.as_str(),
            ),
            DownloadError::Chunk(d) => String::from_str("malformed chunk, ").concat(d.as_str()),
            DownloadError::Write(d) => String::from_str(
                "failed to write chunks into file, ",
            ).concat(d.as_str()),
            DownloadError::Metadata(d) => String::from_str(
                "failed to read metadata of file, ",
            ).concat(d.as_str()),
            DownloadError::Permissions(d) => String::from_str(
                "failed to set permission of file, ",
            ).concat(d.as_str()),
        }
    }
}

/// How far a download has come.
#[derive(Clone, Copy, Debug, PartialEq, Eq, Structural)]
pub enum DownloadStage {
    /// The request is out; no answer yet.
    Requesting,
    /// The server refused; its body is being read for the failure message.
    Refused,
    /// The server accepted; the local file is being created.
    Creating,
    /// The body is being copied into the file, piece by piece.
    Streaming,
    /// The body is complete; the file's metadata is being read.
    Inspecting,
    /// The file is being marked executable.
    Marking,
    /// The file is complete and executable.
    Finished,
    /// The download was given up.
    Failed,
}

/// What the caller observed while doing the work of the current stage.
#[derive(Debug, PartialEq, Eq)]
pub enum DownloadEvent {
    /// The server answered with this status.
    Responded(u16),
    /// The request failed or timed out.
    RequestFailed(String),
    /// The body of a refusing answer, as far as it could be read.
    RefusalRead(String),
    /// The local file exists and is empty.
    FileCreated,
    /// The local file could not be created.
    CreateFailed(String),
    /// One more piece of the body is in the file.
    ChunkWritten,
    /// A piece of the body arrived damaged.
    ChunkMalformed(String),
    /// A piece of the body could not be written.
    WriteFailed(String),
    /// The body has ended; all of it is in the file.
    BodyEnded,
    /// The file's metadata was read.
    MetadataRead,
    /// The file's metadata could not be read.
    MetadataFailed(String),
    /// The file is now executable.
    Marked,
    /// The file's permissions could not be changed.
    MarkFailed(String),
}

/// What the caller has to do next.
#[derive(Debug, PartialEq, Eq)]
pub enum DownloadAction {
    /// Send a GET request for the artifact's url, giving up after the timeout.
    SendRequest { timeout_secs: u64 },
    /// Read the body of the refusing answer and report it.
    ReadRefusal,
    /// Create the file at the artifact's path, empty.
    CreateFile,
    /// Take the next piece of the body and append it to the file.
    CopyChunk,
    /// Read the file's metadata.
    ReadMetadata,
    /// Set the file's permission bits.
    SetMode { mode: u32 },
    /// The artifact is in place.
    Succeed,
    /// Give up, with this failure.
    Fail(DownloadError),
    /// The event does not belong to the current stage; nothing to do.
    Ignore,
}

/// The stage that follows when `event` is reported in `stage`.
pub open spec fn next_stage(stage: DownloadStage, event: DownloadEvent) -> DownloadStage {
    match (stage, event) {
        (DownloadStage::Requesting, DownloadEvent::Responded(status)) => if status == STATUS_OK {
            DownloadStage::Creating
        } else {
            DownloadStage::Refused
        },
        (DownloadStage::Requesting, DownloadEvent::RequestFailed(_)) => DownloadStage::Failed,
        (DownloadStage::Refused, DownloadEvent::RefusalRead(_)) => DownloadStage::Failed,
        (DownloadStage::Creating, DownloadEvent::FileCreated) => DownloadStage::Streaming,
        (DownloadStage::Creating, DownloadEvent::CreateFailed(_)) => DownloadStage::Failed,
        (DownloadStage::Streaming, DownloadEvent::ChunkWritten) => DownloadStage::Streaming,
        (DownloadStage::Streaming, DownloadEvent::ChunkMalformed(_)) => DownloadStage::Failed,
        (DownloadStage::Streaming, DownloadEvent::WriteFailed(_)) => DownloadStage::Failed,
        (DownloadStage::Streaming, DownloadEvent::BodyEnded) => DownloadStage::Inspecting,
        (DownloadStage::Inspecting, DownloadEvent::MetadataRead) => DownloadStage::Marking,
        (DownloadStage::Inspecting, DownloadEvent::MetadataFailed(_)) => DownloadStage::Failed,
        (DownloadStage::Marking, DownloadEvent::Marked) => DownloadStage::Finished,
        (DownloadStage::Marking, DownloadEvent::MarkFailed(_)) => DownloadStage::Failed,
        _ => stage,
    }
}

/// The action that answers `event` when it is reported in `stage`.
pub open spec fn next_action(stage: DownloadStage, event: DownloadEvent) -> DownloadAction {
    match (stage, event) {
        (DownloadStage::Requesting, DownloadEvent::Responded(status)) => if status == STATUS_OK {
            DownloadAction::CreateFile
        } else {
            DownloadAction::ReadRefusal
        },
        (DownloadStage::Requesting, DownloadEvent::RequestFailed(d)) => DownloadAction::Fail(
            DownloadError::Request(d),
        ),
        (DownloadStage::Refused, DownloadEvent::RefusalRead(d)) => DownloadAction::Fail(
            DownloadError::Status(d),
        ),
        (DownloadStage::Creating, DownloadEvent::FileCreated) => DownloadAction::CopyChunk,
        (DownloadStage::Creating, DownloadEvent::CreateFailed(d)) => DownloadAction::Fail(
            DownloadError::Create(d),
        ),
        (DownloadStage::Streaming, DownloadEvent::ChunkWritten) => DownloadAction::CopyChunk,
        (DownloadStage::Streaming, DownloadEvent::ChunkMalformed(d)) => DownloadAction::Fail(
            DownloadError::Chunk(d),
        ),
        (DownloadStage::Streaming, DownloadEvent::WriteFailed(d)) => DownloadAction::Fail(
            DownloadError::Write(d),
        ),
        (DownloadStage::Streaming, DownloadEvent::BodyEnded) => DownloadAction::ReadMetadata,
        (DownloadStage::Inspecting, DownloadEvent::MetadataRead) => DownloadAction::SetMode {
            mode: EXECUTABLE_MODE,
        },
        (DownloadStage::Inspecting, DownloadEvent::MetadataFailed(d)) => DownloadAction::Fail(
            DownloadError::Metadata(d),
        ),
        (DownloadStage::Marking, DownloadEvent::Marked) => DownloadAction::Succeed,
        (DownloadStage::Marking, DownloadEvent::MarkFailed(d)) => DownloadAction::Fail(
            DownloadError::Permissions(d),
        ),
        _ => DownloadAction::Ignore,
    }
}

/// One download in progress.
pub struct Download {
    artifact: Artifact,
    stage: DownloadStage,
}

impl Download {
    /// What is being fetched.
    pub closed spec fn artifact(&self) -> Artifact {
        self.artifact
    }

    /// How far the download has come.
    pub closed spec fn stage(&self) -> DownloadStage {
        self.stage
    }

    /// Starts a download of `artifact`. The first thing to do is to send the
    /// request, with the bounded timeout.
    pub fn start(artifact: Artifact) -> (r: (Download, DownloadAction))
        ensures
            r.0.artifact() == artifact,
            r.0.stage() == DownloadStage::Requesting,
            r.1 == (DownloadAction::SendRequest { timeout_secs: REQUEST_TIMEOUT_SECS }),
    {
        (
            Download { artifact, stage: DownloadStage::Requesting },
            DownloadAction::SendRequest { timeout_secs: REQUEST_TIMEOUT_SECS },
        )
    }

    /// What is being fetched.
    pub fn target(&self) -> (a: Artifact)
        ensures
            a == self.artifact(),
    {
        self.artifact
    }

    /// How far the download has come.
    pub fn current_stage(&self) -> (s: DownloadStage)
        ensures
            s == self.stage(),
    {
        self.stage
    }

    /// Takes in what the caller observed and says what to do next. An event
    /// that does not belong to the current stage changes nothing.
    pub fn step(&mut self, event: DownloadEvent) -> (action: DownloadAction)
        ensures
            final(self).artifact() == old(self).artifact(),
            final(self).stage() == next_stage(old(self).stage(), event),
            action == next_action(old(self).stage(), event),
    {
        let stage = self.stage;
        match event {
            DownloadEvent::Responded(status) => match stage {
                DownloadStage::Requesting => {
                    if status == STATUS_OK {
                        self.stage = DownloadStage::Creating;
                        DownloadAction::CreateFile
                    } else {
                        self.stage = DownloadStage::Refused;
                        DownloadAction::ReadRefusal
                    }
                },
                _ => DownloadAction::Ignore,
            },
            DownloadEvent::RequestFailed(d) => match stage {
                DownloadStage::Requesting => {
                    self.stage = DownloadStage::Failed;
                    DownloadAction::Fail(DownloadError::Request(d))
                },
                _ => DownloadAction::Ignore,
            },
            DownloadEvent::RefusalRead(d) => match stage {
                DownloadStage::Refused => {
                    self.stage = DownloadStage::Failed;
                    DownloadAction::Fail(DownloadError::Status(d))
                },
                _ => DownloadAction::Ignore,
            },
            DownloadEvent::FileCreated => match stage {
                DownloadStage::Creating => {
                    self.stage = DownloadStage::Streaming;
                    DownloadAction::CopyChunk
                },
                _ => DownloadAction::Ignore,
            },
            DownloadEvent::CreateFailed(d) => match stage {
                DownloadStage::Creating => {
                    self.stage = DownloadStage::Failed;
                    DownloadAction::Fail(DownloadError::Create(d))
                },
                _ => DownloadAction::Ignore,
            },
            DownloadEvent::ChunkWritten => match stage {
                DownloadStage::Streaming => DownloadAction::CopyChunk,
                _ => DownloadAction::Ignore,
            },
            DownloadEvent::ChunkMalformed(d) => match stage {
                DownloadStage::Streaming => {
                    self.stage = DownloadStage::Failed;
                    DownloadAction::Fail(DownloadError::Chunk(d))
                },
                _ => DownloadAction::Ignore,
            },
            DownloadEvent::WriteFailed(d) => match stage {
                DownloadStage::Streaming => {
                    self.stage = DownloadStage::Failed;
                    DownloadAction::Fail(DownloadError::Write(d))
                },
                _ => DownloadAction::Ignore,
            },
            DownloadEvent::BodyEnded => match stage {
                DownloadStage::Streaming => {
                    self.stage = DownloadStage::Inspecting;
                    DownloadAction::ReadMetadata
                },
                _ => DownloadAction::Ignore,
            },
            DownloadEvent::MetadataRead => match stage {
                DownloadStage::Inspecting => {
                    self.stage = DownloadStage::Marking;
                    DownloadAction::SetMode { mode: EXECUTABLE_MODE }
                },
                _ => DownloadAction::Ignore,
            },
            DownloadEvent::MetadataFailed(d) => match stage {
                DownloadStage::Inspecting => {
                    self.stage = DownloadStage::Failed;
                    DownloadAction::Fail(DownloadError::Metadata(d))
                },
                _ => DownloadAction::Ignore,
            },
            DownloadEvent::Marked => match stage {
                DownloadStage::Marking => {
                    self.stage = DownloadStage::Finished;
                    DownloadAction::Succeed
                },
                _ => DownloadAction::Ignore,
            },
            DownloadEvent::MarkFailed(d) => match stage {
                DownloadStage::Marking => {
                    self.stage = DownloadStage::Failed;
                    DownloadAction::Fail(DownloadError::Permissions(d))
                },
                _ => DownloadAction::Ignore,
            },
        }
    }
}

/// A file is created only in answer to a response with the success status.
pub proof fn lemma_file_only_after_success(stage: DownloadStage, event: DownloadEvent)
    requires
        next_action(stage, event) == DownloadAction::CreateFile,
    ensures
        stage == DownloadStage::Requesting,
        event == DownloadEvent::Responded(STATUS_OK),
{
}

/// The file is marked executable only once its body is complete: the mode
/// is set only while inspecting the file, and the file is inspected only
/// after the body has ended during streaming.
pub proof fn lemma_marked_only_after_body(stage: DownloadStage, event: DownloadEvent)
    ensures
        next_action(stage, event) is SetMode ==> stage == DownloadStage::Inspecting,
        next_action(stage, event) is SetMode ==> next_action(stage, event)
            == (DownloadAction::SetMode { mode: EXECUTABLE_MODE }),
        next_stage(stage, event) == DownloadStage::Inspecting && stage
            != DownloadStage::Inspecting ==> stage == DownloadStage::Streaming && event
            == DownloadEvent::BodyEnded,
{
}

/// A download that has failed or finished stays so: no later event makes it
/// do anything more.
pub proof fn lemma_end_is_final(stage: DownloadStage, event: DownloadEvent)
    requires
        stage == DownloadStage::Failed || stage == DownloadStage::Finished,
    ensures
        next_stage(stage, event) == stage,
        next_action(stage, event) == DownloadAction::Ignore,
{
}

/// Every failure that is reported in its turn ends the download.
pub proof fn lemma_failure_ends_download(stage: DownloadStage, event: DownloadEvent)
    ensures
        next_action(stage, event) is Fail <==> next_stage(stage, event) == DownloadStage::Failed
            && stage != DownloadStage::Failed,
        next_action(stage, event) is Succeed <==> next_stage(stage, event)
            == DownloadStage::Finished && stage != DownloadStage::Finished,
{
}

} // verus!
