//! The worker of a camera: its configuration, its latest frame and its state.

use std::sync::atomic::AtomicBool;
use std::sync::Arc;

use vstd::prelude::*;

use bytes::Bytes;
use tokio::sync::watch;

use crate::channel::borrow_latest;
use crate::channel::open_channel;
use crate::channel::send_latest;
use crate::channel::subscribe_to;
use crate::config::CameraConfig;
use crate::config::ConfigModel;
use crate::error::CameraManagerError;
use crate::error::ErrorModel;
use crate::frame::buffer_of;
use crate::text::same_text;

verus! {

/// The state of a camera at one moment.
#[derive(Debug)]
pub struct CameraStateSnapshot {
    pub camera_id: String,
    pub node: String,
    pub width: u32,
    pub height: u32,
    pub framerate: u32,
    pub capture_encoding: String,
    pub status: String,
    pub frames_captured: u64,
    pub last_frame_at_ms: Option<u128>,
    pub last_error: Option<String>,
}

/// The value of the state of a camera.
pub struct SnapshotModel {
    pub camera_id: Seq<char>,
    pub node: Seq<char>,
    pub width: u32,
    pub height: u32,
    pub framerate: u32,
    pub capture_encoding: Seq<char>,
    pub status: Seq<char>,
    pub frames_captured: u64,
    pub last_frame_at_ms: Option<u128>,
    pub last_error: Option<Seq<char>>,
}

impl View for CameraStateSnapshot {
    type V = SnapshotModel;

    open spec fn view(&self) -> SnapshotModel {
        SnapshotModel {
            camera_id: self.camera_id@,
            node: self.node@,
            width: self.width,
            height: self.height,
            framerate: self.framerate,
            capture_encoding: self.capture_encoding@,
            status: self.status@,
            frames_captured: self.frames_captured,
            last_frame_at_ms: self.last_frame_at_ms,
            last_error: crate::request::string_view(self.last_error),
        }
    }
}

impl Clone for CameraStateSnapshot {
    fn clone(&self) -> (r: Self)
        ensures
            r@ == self@,
    {
        CameraStateSnapshot {
            camera_id: self.camera_id.clone(),
            node: self.node.clone(),
            width: self.width,
            height: self.height,
            framerate: self.framerate,
            capture_encoding: self.capture_encoding.clone(),
            status: self.status.clone(),
            frames_captured: self.frames_captured,
            last_frame_at_ms: self.last_frame_at_ms,
            last_error: clone_text(&self.last_error),
        }
    }
}

/// A copy of an optional string.
fn clone_text(text: &Option<String>) -> (r: Option<String>)
    ensures
        crate::request::string_view(r) == crate::request::string_view(*text),
{
    match text {
        Some(text) => Some(text.clone()),
        None => None,
    }
}

/// The worker of a camera.
pub struct CameraWorker {
    config: CameraConfig,
    generation: u64,
    latest_frame: watch::Sender<Bytes>,
    /// Keeps the channel open: without a receiver a frame cannot be sent.
    kept_receiver: watch::Receiver<Bytes>,
    frame_consumed: Arc<AtomicBool>,
    capturing: bool,
    stopped: bool,
    frame_count: u64,
    status: String,
    last_error: Option<String>,
    last_frame_at_ms: Option<u128>,
}

/// The value of a worker.
pub struct WorkerModel {
    pub config: ConfigModel,
    /// Tells apart the workers that a camera has had one after the other.
    pub generation: u64,
    /// The latest frame; empty before the first one.
    pub frame: Seq<u8>,
    /// The channel that the frames go through.
    pub channel: int,
    /// The flag that a stream sets when it has taken a frame.
    pub consumed: Arc<AtomicBool>,
    /// A capture loop runs for the worker, or is about to be started.
    pub capturing: bool,
    pub stopped: bool,
    pub frames_captured: u64,
    pub status: Seq<char>,
    pub last_error: Option<Seq<char>>,
    pub last_frame_at_ms: Option<u128>,
}

impl WorkerModel {
    /// The state of the worker at this moment.
    pub open spec fn snapshot(self) -> SnapshotModel {
        SnapshotModel {
            camera_id: self.config.camera_id,
            node: self.config.node,
            width: self.config.width,
            height: self.config.height,
            framerate: self.config.framerate,
            capture_encoding: self.config.capture_encoding,
            status: self.status,
            frames_captured: self.frames_captured,
            last_frame_at_ms: self.last_frame_at_ms,
            last_error: self.last_error,
        }
    }

    /// The name of the thread that captures for the worker.
    pub open spec fn loop_name(self) -> Seq<char> {
        "capture-"@ + self.config.camera_id
    }

    /// The worker as it is made for live capture: starting, without a frame.
    pub open spec fn is_fresh(self, config: ConfigModel, generation: u64) -> bool {
        &&& self.config == config
        &&& self.generation == generation
        &&& self.frame == Seq::<u8>::empty()
        &&& self.capturing
        &&& !self.stopped
        &&& self.frames_captured == 0
        &&& self.status == "starting"@
        &&& self.last_error is None
        &&& self.last_frame_at_ms is None
    }

    /// The worker as it is made around one frame: ready, with that frame.
    pub open spec fn is_static(
        self,
        config: ConfigModel,
        frame: Seq<u8>,
        generation: u64,
        now_ms: u128,
    ) -> bool {
        &&& self.config == config
        &&& self.generation == generation
        &&& self.frame == frame
        &&& !self.capturing
        &&& !self.stopped
        &&& self.frames_captured == 1
        &&& self.status == "ready"@
        &&& self.last_error is None
        &&& self.last_frame_at_ms == Some(now_ms)
    }

    /// The worker after it was told to stop.
    pub open spec fn told_to_stop(self) -> WorkerModel {
        WorkerModel { stopped: true, ..self }
    }

    /// The worker after its capture loop has ended.
    pub open spec fn finished(self) -> WorkerModel {
        WorkerModel { capturing: false, ..self }
    }

    /// The state of the worker fits together: it has an error exactly where its
    /// status says so, and a time of its last frame exactly where it has counted
    /// one.
    pub open spec fn consistent(self) -> bool {
        &&& self.last_error is Some <==> self.status == "error"@
        &&& self.last_frame_at_ms is Some <==> self.frames_captured >= 1
    }

    /// The worker in a new status, without an error.
    pub open spec fn with_status(self, status: Seq<char>) -> WorkerModel {
        WorkerModel { status, last_error: None, ..self }
    }

    /// The worker after a failure.
    pub open spec fn with_error(self, error: Seq<char>) -> WorkerModel {
        WorkerModel { status: "error"@, last_error: Some(error), ..self }
    }

    /// The worker after a frame was published. The count of frames wraps.
    pub open spec fn with_frame(self, frame: Seq<u8>, now_ms: u128) -> WorkerModel {
        WorkerModel {
            frame,
            frames_captured: next_count(self.frames_captured),
            status: "ready"@,
            last_error: None,
            last_frame_at_ms: Some(now_ms),
            ..self
        }
    }
}

/// The count that follows a count.
pub open spec fn next_count(count: u64) -> u64 {
    if count == u64::MAX {
        0
    } else {
        (count + 1) as u64
    }
}

/// Which published frames are worth a line in the log: the first one, and every
/// three hundredth.
#[derive(Clone, Copy, Debug, PartialEq, Eq, Structural)]
pub enum FrameNote {
    Quiet,
    First,
    Milestone(u64),
}

/// The note on the frame with a given count.
pub open spec fn frame_note(count: u64) -> FrameNote {
    if count == 1 {
        FrameNote::First
    } else if count % 300 == 0 {
        FrameNote::Milestone(count)
    } else {
        FrameNote::Quiet
    }
}

/// `Arc::clone` gives another handle to the same flag.
#[verifier::external_body]
fn share_flag(flag: &Arc<AtomicBool>) -> (r: Arc<AtomicBool>)
    ensures
        r == *flag,
{
    Arc::clone(flag)
}

impl View for CameraWorker {
    type V = WorkerModel;

    closed spec fn view(&self) -> WorkerModel {
        WorkerModel {
            config: self.config@,
            generation: self.generation,
            frame: crate::channel::latest(self.latest_frame),
            channel: crate::channel::sender_channel(self.latest_frame),
            consumed: self.frame_consumed,
            capturing: self.capturing,
            stopped: self.stopped,
            frames_captured: self.frame_count,
            status: self.status@,
            last_error: crate::request::string_view(self.last_error),
            last_frame_at_ms: self.last_frame_at_ms,
        }
    }
}

impl CameraWorker {
    /// The channel of the worker is kept open by a receiver of its own.
    pub closed spec fn wf(&self) -> bool {
        crate::channel::sender_channel(self.latest_frame) == crate::channel::receiver_channel(
            self.kept_receiver,
        )
    }

    /// A worker for live capture, to be run by a capture thread. Refused for an
    /// encoding that cannot be captured.
    pub fn spawn_live(config: CameraConfig, generation: u64) -> (r: Result<
        Self,
        CameraManagerError,
    >)
        ensures
            match r {
                Ok(worker) => {
                    &&& crate::config::is_supported(config@.capture_encoding)
                    &&& worker.wf()
                    &&& worker@.is_fresh(config@, generation)
                },
                Err(error) => {
                    &&& !crate::config::is_supported(config@.capture_encoding)
                    &&& error@ == ErrorModel::UnsupportedCaptureEncoding(config@.capture_encoding)
                },
            },
    {
        if !same_text(config.capture_encoding.as_str(), "YUYV") && !same_text(
            config.capture_encoding.as_str(),
            "MJPG",
        ) {
            return Err(CameraManagerError::UnsupportedCaptureEncoding(config.capture_encoding));
        }
        let (latest_frame, kept_receiver) = open_channel(Bytes::new());
        Ok(
            CameraWorker {
                config,
                generation,
                latest_frame,
                kept_receiver,
                frame_consumed: Arc::new(AtomicBool::new(false)),
                capturing: true,
                stopped: false,
                frame_count: 0,
                status: "starting".to_owned(),
                last_error: None,
                last_frame_at_ms: None,
            },
        )
    }

    /// A worker that holds one given frame and captures nothing.
    pub fn from_static_frame(
        config: CameraConfig,
        frame: Vec<u8>,
        generation: u64,
        now_ms: u128,
    ) -> (r: Self)
        ensures
            r.wf(),
            r@.is_static(config@, frame@, generation, now_ms),
    {
        let (latest_frame, kept_receiver) = open_channel(buffer_of(frame));
        CameraWorker {
            config,
            generation,
            latest_frame,
            kept_receiver,
            frame_consumed: Arc::new(AtomicBool::new(false)),
            capturing: false,
            stopped: false,
            frame_count: 1,
            status: "ready".to_owned(),
            last_error: None,
            last_frame_at_ms: Some(now_ms),
        }
    }

    /// A receiver of the frames to come, and the flag to set when a frame has
    /// been taken.
    pub fn subscribe(&self) -> (r: (watch::Receiver<Bytes>, Arc<AtomicBool>))
        ensures
            crate::channel::receiver_channel(r.0) == self@.channel,
            r.1 == self@.consumed,
    {
        (subscribe_to(&self.latest_frame), share_flag(&self.frame_consumed))
    }

    /// The latest frame; empty before the first one.
    pub fn current_frame(&self) -> (r: Bytes)
        ensures
            crate::frame::content(r) == self@.frame,
    {
        borrow_latest(&self.latest_frame)
    }

    /// The configuration of the camera.
    pub fn config(&self) -> (r: &CameraConfig)
        ensures
            r@ == self@.config,
    {
        &self.config
    }

    /// The generation of the worker.
    pub fn generation(&self) -> (r: u64)
        ensures
            r == self@.generation,
    {
        self.generation
    }

    /// Whether the worker was told to stop.
    pub fn is_stopped(&self) -> (r: bool)
        ensures
            r == self@.stopped,
    {
        self.stopped
    }

    /// Whether a capture loop runs for the worker, or is about to be started.
    pub fn is_capturing(&self) -> (r: bool)
        ensures
            r == self@.capturing,
    {
        self.capturing
    }

    /// The state of the camera at this moment.
    pub fn snapshot(&self) -> (r: CameraStateSnapshot)
        ensures
            r@ == self@.snapshot(),
    {
        CameraStateSnapshot {
            camera_id: self.config.camera_id.clone(),
            node: self.config.node.clone(),
            width: self.config.width,
            height: self.config.height,
            framerate: self.config.framerate,
            capture_encoding: self.config.capture_encoding.clone(),
            status: self.status.clone(),
            frames_captured: self.frame_count,
            last_frame_at_ms: self.last_frame_at_ms,
            last_error: clone_text(&self.last_error),
        }
    }

    /// The name of the thread that captures for this worker.
    pub fn thread_name(&self) -> (r: String)
        ensures
            r@ == "capture-"@ + self@.config.camera_id,
            r@ == self@.loop_name(),
    {
        "capture-".to_owned().concat(self.config.camera_id.as_str())
    }

    /// Tells the worker to stop.
    pub fn stop(&mut self)
        ensures
            final(self)@ == old(self)@.told_to_stop(),
            final(self).wf() == old(self).wf(),
    {
        self.stopped = true;
    }

    /// Records that the capture loop has ended.
    pub(crate) fn finish(&mut self)
        ensures
            final(self)@ == old(self)@.finished(),
            final(self).wf() == old(self).wf(),
    {
        self.capturing = false;
    }

    /// Sets the status and takes back any error.
    pub fn set_status(&mut self, status: &str)
        ensures
            final(self)@ == old(self)@.with_status(status@),
            final(self).wf() == old(self).wf(),
    {
        self.status = status.to_owned();
        self.last_error = None;
    }

    /// Records a failure.
    pub fn set_error(&mut self, error: String)
        ensures
            final(self)@ == old(self)@.with_error(error@),
            final(self).wf() == old(self).wf(),
    {
        self.status = "error".to_owned();
        self.last_error = Some(error);
    }

    /// Makes a frame the latest one.
    pub fn publish_frame(&mut self, frame: Bytes, now_ms: u128) -> (note: FrameNote)
        requires
            old(self).wf(),
        ensures
            final(self).wf(),
            final(self)@ == old(self)@.with_frame(crate::frame::content(frame), now_ms),
            note == frame_note(final(self)@.frames_captured),
    {
        let _delivered: bool = send_latest(&mut self.latest_frame, &self.kept_receiver, frame);
        self.frame_count = self.frame_count.wrapping_add(1);
        self.status = "ready".to_owned();
        self.last_error = None;
        self.last_frame_at_ms = Some(now_ms);
        if self.frame_count == 1 {
            FrameNote::First
        } else if self.frame_count % 300 == 0 {
            FrameNote::Milestone(self.frame_count)
        } else {
            FrameNote::Quiet
        }
    }
}

/// The frame that was published last is the one that is shown, and the state
/// tells of it: ready, without an error, one frame more, at that time.
pub proof fn law_published_frame_is_shown(worker: WorkerModel, frame: Seq<u8>, now_ms: u128)
    ensures
        ({
            let after = worker.with_frame(frame, now_ms);
            &&& after.frame == frame
            &&& after.snapshot().status == "ready"@
            &&& after.snapshot().last_error is None
            &&& after.snapshot().last_frame_at_ms == Some(now_ms)
            &&& worker.frames_captured < u64::MAX ==> after.snapshot().frames_captured
                == worker.snapshot().frames_captured + 1
        }),
{
}

/// Nothing but publishing changes the frame that is shown, the count of frames
/// or the time of the last one: neither a new status, nor an error, nor an order
/// to stop.
pub proof fn law_frame_stays_until_next(
    worker: WorkerModel,
    status: Seq<char>,
    error: Seq<char>,
)
    ensures
        worker.with_status(status).frame == worker.frame,
        worker.with_status(status).frames_captured == worker.frames_captured,
        worker.with_status(status).last_frame_at_ms == worker.last_frame_at_ms,
        worker.with_error(error).frame == worker.frame,
        worker.with_error(error).frames_captured == worker.frames_captured,
        worker.with_error(error).last_frame_at_ms == worker.last_frame_at_ms,
        worker.told_to_stop().frame == worker.frame,
        worker.told_to_stop().frames_captured == worker.frames_captured,
        worker.told_to_stop().last_frame_at_ms == worker.last_frame_at_ms,
{
}

/// An error is shown until the status changes or a frame is published.
pub proof fn law_error_is_shown_until_cleared(
    worker: WorkerModel,
    error: Seq<char>,
    status: Seq<char>,
    frame: Seq<u8>,
    now_ms: u128,
)
    ensures
        ({
            let failed = worker.with_error(error);
            &&& failed.snapshot().status == "error"@
            &&& failed.snapshot().last_error == Some(error)
            &&& failed.with_status(status).snapshot().last_error is None
            &&& failed.with_frame(frame, now_ms).snapshot().last_error is None
        }),
{
}

/// The state of a worker fits together at all times. A new worker has an error
/// exactly where its status says so, and a time of its last frame exactly where
/// it has counted one; and this stays so under every status but `error`, every
/// failure, every published frame until the count wraps, an order to stop and
/// the end of the capture loop.
pub proof fn law_state_is_consistent(
    worker: WorkerModel,
    config: ConfigModel,
    frame: Seq<u8>,
    generation: u64,
    now_ms: u128,
    status: Seq<char>,
    error: Seq<char>,
)
    ensures
        worker.is_fresh(config, generation) ==> worker.consistent(),
        worker.is_static(config, frame, generation, now_ms) ==> worker.consistent(),
        worker.consistent() ==> {
            &&& status != "error"@ ==> worker.with_status(status).consistent()
            &&& worker.with_error(error).consistent()
            &&& worker.frames_captured < u64::MAX ==> worker.with_frame(frame, now_ms).consistent()
            &&& worker.told_to_stop().consistent()
            &&& worker.finished().consistent()
        },
{
    lemma_statuses_differ();
}

/// The statuses that a capture loop goes through are not that of a failure.
pub proof fn lemma_statuses_differ()
    ensures
        "starting"@ != "error"@,
        "opening"@ != "error"@,
        "streaming"@ != "error"@,
        "ready"@ != "error"@,
{
    reveal_strlit("starting");
    reveal_strlit("opening");
    reveal_strlit("streaming");
    reveal_strlit("ready");
    reveal_strlit("error");
    assert("starting"@.len() == 8 && "opening"@.len() == 7 && "streaming"@.len() == 9);
    assert("ready"@[0] == 'r' && "error"@[0] == 'e' && "error"@.len() == 5);
}

/// What a camera says of its state is what its worker is at: the configuration,
/// field by field, and a state that fits together where that of the worker does.
pub proof fn law_snapshot_tells_the_state(worker: WorkerModel)
    ensures
        ({
            let state = worker.snapshot();
            &&& state.camera_id == worker.config.camera_id
            &&& state.node == worker.config.node
            &&& state.width == worker.config.width
            &&& state.height == worker.config.height
            &&& state.framerate == worker.config.framerate
            &&& state.capture_encoding == worker.config.capture_encoding
            &&& worker.consistent() ==> {
                &&& state.last_error is Some <==> state.status == "error"@
                &&& state.last_frame_at_ms is Some <==> state.frames_captured >= 1
            }
        }),
{
}

/// The value of the state of a camera has its fields, each in its place.
pub proof fn law_state_value(state: CameraStateSnapshot)
    ensures
        state@.camera_id == state.camera_id@,
        state@.node == state.node@,
        state@.width == state.width,
        state@.height == state.height,
        state@.framerate == state.framerate,
        state@.capture_encoding == state.capture_encoding@,
        state@.status == state.status@,
        state@.frames_captured == state.frames_captured,
        state@.last_frame_at_ms == state.last_frame_at_ms,
        state.last_error matches Some(error) ==> state@.last_error == Some(error@),
        state.last_error is None ==> state@.last_error is None,
{
}

/// The state of a camera tells the status, the count, the time and the error of its
/// worker as they are.
pub proof fn law_snapshot_tells_the_progress(worker: WorkerModel)
    ensures
        worker.snapshot().status == worker.status,
        worker.snapshot().frames_captured == worker.frames_captured,
        worker.snapshot().last_frame_at_ms == worker.last_frame_at_ms,
        worker.snapshot().last_error == worker.last_error,
{
}

/// A worker for live capture starts with the configuration and the generation that
/// it is given, without a frame, running and not told to stop.
pub proof fn law_live_worker_starts_without_frame(
    worker: WorkerModel,
    config: ConfigModel,
    generation: u64,
)
    requires
        worker.is_fresh(config, generation),
    ensures
        worker.config == config,
        worker.generation == generation,
        worker.frame.len() == 0,
        worker.capturing,
        !worker.stopped,
        worker.frames_captured == 0,
        worker.status == "starting"@,
        worker.last_error is None,
        worker.last_frame_at_ms is None,
{
}

/// A worker around one frame shows it from the start: it is ready, has counted the
/// one frame at the given time, and has no capture loop.
pub proof fn law_static_worker_shows_its_frame(
    worker: WorkerModel,
    config: ConfigModel,
    frame: Seq<u8>,
    generation: u64,
    now_ms: u128,
)
    requires
        worker.is_static(config, frame, generation, now_ms),
    ensures
        worker.config == config,
        worker.generation == generation,
        worker.frame == frame,
        !worker.capturing,
        !worker.stopped,
        worker.frames_captured == 1,
        worker.status == "ready"@,
        worker.last_error is None,
        worker.last_frame_at_ms == Some(now_ms),
{
}

/// Two states of one worker: the same configuration, generation, channel and flag.
pub open spec fn is_same_worker(a: WorkerModel, b: WorkerModel) -> bool {
    &&& a.config == b.config
    &&& a.generation == b.generation
    &&& a.channel == b.channel
    &&& a.consumed == b.consumed
}

/// The worker shows the same frame, count and time.
pub open spec fn shows_the_same(a: WorkerModel, b: WorkerModel) -> bool {
    &&& a.frame == b.frame
    &&& a.frames_captured == b.frames_captured
    &&& a.last_frame_at_ms == b.last_frame_at_ms
}

/// An order to stop is kept and nothing else is touched; so is the end of the
/// capture loop.
pub proof fn law_stopping_changes_nothing_else(worker: WorkerModel)
    ensures
        ({
            let after = worker.told_to_stop();
            &&& after.stopped
            &&& is_same_worker(after, worker)
            &&& shows_the_same(after, worker)
            &&& after.capturing == worker.capturing
            &&& after.status == worker.status
            &&& after.last_error == worker.last_error
        }),
        ({
            let after = worker.finished();
            &&& !after.capturing
            &&& is_same_worker(after, worker)
            &&& shows_the_same(after, worker)
            &&& after.stopped == worker.stopped
            &&& after.status == worker.status
            &&& after.last_error == worker.last_error
        }),
{
}

/// A new status takes back the error; a failure sets both; neither touches
/// anything else.
pub proof fn law_status_and_error_change_nothing_else(
    worker: WorkerModel,
    status: Seq<char>,
    error: Seq<char>,
)
    ensures
        ({
            let after = worker.with_status(status);
            &&& after.status == status
            &&& after.last_error is None
            &&& is_same_worker(after, worker)
            &&& shows_the_same(after, worker)
            &&& after.capturing == worker.capturing
            &&& after.stopped == worker.stopped
        }),
        ({
            let after = worker.with_error(error);
            &&& after.status == "error"@
            &&& after.last_error == Some(error)
            &&& is_same_worker(after, worker)
            &&& shows_the_same(after, worker)
            &&& after.capturing == worker.capturing
            &&& after.stopped == worker.stopped
        }),
{
}

/// A published frame is shown as it is, counted and timed; the count goes up by
/// one, and from the largest back to nought; nothing else is touched.
pub proof fn law_publishing_changes_nothing_else(
    worker: WorkerModel,
    frame: Seq<u8>,
    now_ms: u128,
)
    ensures
        ({
            let after = worker.with_frame(frame, now_ms);
            &&& after.frame == frame
            &&& worker.frames_captured < 0xffff_ffff_ffff_ffff ==> after.frames_captured
                == worker.frames_captured + 1
            &&& worker.frames_captured == 0xffff_ffff_ffff_ffff ==> after.frames_captured == 0
            &&& after.last_frame_at_ms == Some(now_ms)
            &&& after.status == "ready"@
            &&& after.last_error is None
            &&& is_same_worker(after, worker)
            &&& after.capturing == worker.capturing
            &&& after.stopped == worker.stopped
        }),
{
}

/// The first frame is noted as such and every three hundredth with its count; all
/// the others pass quietly.
pub proof fn law_notes_on_frames(count: u64, k: int)
    ensures
        frame_note(count) == FrameNote::First <==> count == 1,
        count == 300 * k ==> frame_note(count) == FrameNote::Milestone(count),
        300 * k < count < 300 * k + 300 && count != 1 ==> frame_note(count) == FrameNote::Quiet,
{
}

/// The name of a capture thread ends with the id of its camera, whole, so that the
/// threads of different cameras have different names.
pub proof fn law_threads_are_named_by_camera(a: WorkerModel, b: WorkerModel)
    ensures
        a.loop_name().take(8) == seq!['c', 'a', 'p', 't', 'u', 'r', 'e', '-'],
        a.loop_name().skip(8) == a.config.camera_id,
        a.config.camera_id != b.config.camera_id ==> a.loop_name() != b.loop_name(),
{
    reveal_strlit("capture-");
    assert(a.loop_name().take(8) =~= seq!['c', 'a', 'p', 't', 'u', 'r', 'e', '-']);
    assert(a.loop_name().skip(8) =~= a.config.camera_id);
    assert(b.loop_name().skip(8) =~= b.config.camera_id);
}

} // verus!
