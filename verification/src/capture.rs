//! The capture loop of a camera, as a machine that is told what the device
//! replied and says what to do next.

use vstd::prelude::*;

use crate::config::CameraConfig;
use crate::frame::buffer_of;
use crate::jpeg::encode_frame_to_jpeg;
use crate::text::same_text;
use crate::worker::CameraWorker;
use crate::worker::FrameNote;
use crate::worker::WorkerModel;

verus! {

/// Number of buffers that a device stream is given.
pub const STREAM_BUFFERS: u32 = 4;

/// Pause after a failure, in milliseconds.
pub const RETRY_PAUSE_MS: u64 = 500;

/// What is to be done for the capture loop.
#[derive(Debug)]
pub enum CaptureAction {
    OpenDevice { node: String },
    ReadFormat,
    ApplyFormat { width: u32, height: u32, fourcc: [u8; 4] },
    RequestRate { framerate: u32 },
    StartStream { buffers: u32 },
    NextFrame,
    /// To wait, on account of an error.
    Pause { millis: u64, error: String },
    Finish,
}

/// The value of an action.
pub enum ActionModel {
    OpenDevice { node: Seq<char> },
    ReadFormat,
    ApplyFormat { width: u32, height: u32, fourcc: Seq<u8> },
    RequestRate { framerate: u32 },
    StartStream { buffers: u32 },
    NextFrame,
    Pause { millis: u64, error: Seq<char> },
    Finish,
}

impl View for CaptureAction {
    type V = ActionModel;

    open spec fn view(&self) -> ActionModel {
        match self {
            CaptureAction::OpenDevice { node } => ActionModel::OpenDevice { node: node@ },
            CaptureAction::ReadFormat => ActionModel::ReadFormat,
            CaptureAction::ApplyFormat { width, height, fourcc } => ActionModel::ApplyFormat {
                width: *width,
                height: *height,
                fourcc: fourcc@,
            },
            CaptureAction::RequestRate { framerate } => ActionModel::RequestRate {
                framerate: *framerate,
            },
            CaptureAction::StartStream { buffers } => ActionModel::StartStream {
                buffers: *buffers,
            },
            CaptureAction::NextFrame => ActionModel::NextFrame,
            CaptureAction::Pause { millis, error } => ActionModel::Pause {
                millis: *millis,
                error: error@,
            },
            CaptureAction::Finish => ActionModel::Finish,
        }
    }
}

/// One step of the capture loop: what is to be done, and whether the frame that
/// was published is worth a line in the log.
#[derive(Debug)]
pub struct CaptureStep {
    pub action: CaptureAction,
    pub note: FrameNote,
}

/// The value of a step.
pub struct StepModel {
    pub action: ActionModel,
    pub note: FrameNote,
}

impl View for CaptureStep {
    type V = StepModel;

    open spec fn view(&self) -> StepModel {
        StepModel { action: self.action@, note: self.note }
    }
}

/// The four-character code of a capture encoding: its four bytes.
pub open spec fn fourcc(encoding: Seq<char>) -> Option<Seq<u8>> {
    if crate::config::is_supported(encoding) {
        Some(crate::frame::ascii_bytes(encoding))
    } else {
        None
    }
}

/// The four-character code of a capture encoding.
pub fn encoding_to_fourcc(encoding: &str) -> (r: Option<[u8; 4]>)
    ensures
        match r {
            Some(code) => fourcc(encoding@) == Some(code@),
            None => fourcc(encoding@) is None,
        },
{
    if same_text(encoding, "YUYV") {
        let code: [u8; 4] = [89, 85, 89, 86];
        proof {
            reveal_strlit("YUYV");
            assert(code@ =~= crate::frame::ascii_bytes("YUYV"@));
        }
        Some(code)
    } else if same_text(encoding, "MJPG") {
        let code: [u8; 4] = [77, 74, 80, 71];
        proof {
            reveal_strlit("MJPG");
            assert(code@ =~= crate::frame::ascii_bytes("MJPG"@));
        }
        Some(code)
    } else {
        None
    }
}

/// What becomes of a frame that the device gave, or failed to give: the JPEG
/// image, or what went wrong.
pub open spec fn captured_image(
    config: crate::config::ConfigModel,
    captured: Result<Seq<u8>, Seq<char>>,
) -> Result<Seq<u8>, Seq<char>> {
    match captured {
        Ok(frame) => crate::jpeg::encoded_frame(
            frame,
            config.width,
            config.height,
            config.capture_encoding,
        ),
        Err(error) => Err(error),
    }
}

/// What the device gave as the next frame, encoded as a JPEG image. Only
/// `CameraConfig::encode_captured` makes one.
pub struct CapturedFrame {
    outcome: Result<Vec<u8>, String>,
    config: Ghost<crate::config::ConfigModel>,
    captured: Ghost<Result<Seq<u8>, Seq<char>>>,
}

/// The value of a captured frame: what the device gave, or failed to give, and
/// the configuration that it was encoded by.
pub struct FrameModel {
    pub config: crate::config::ConfigModel,
    pub captured: Result<Seq<u8>, Seq<char>>,
}

impl FrameModel {
    /// The JPEG image, or what went wrong.
    pub open spec fn image(self) -> Result<Seq<u8>, Seq<char>> {
        captured_image(self.config, self.captured)
    }
}

impl View for CapturedFrame {
    type V = FrameModel;

    closed spec fn view(&self) -> FrameModel {
        FrameModel { config: self.config@, captured: self.captured@ }
    }
}

impl CapturedFrame {
    /// The outcome is that of encoding what the device gave.
    #[verifier::type_invariant]
    spec fn is_encoded(self) -> bool {
        crate::jpeg::outcome_view(self.outcome) == captured_image(self.config@, self.captured@)
    }

    /// The JPEG image, or what went wrong.
    pub fn into_image(self) -> (r: Result<Vec<u8>, String>)
        ensures
            crate::jpeg::outcome_view(r) == self@.image(),
    {
        proof {
            use_type_invariant(&self);
        }
        self.outcome
    }
}

impl CameraConfig {
    /// Encodes a frame that the device gave. A failure of the device is passed
    /// on.
    pub fn encode_captured(&self, captured: Result<Vec<u8>, String>) -> (r: CapturedFrame)
        ensures
            r@ == (FrameModel {
                config: self@,
                captured: crate::jpeg::outcome_view(captured),
            }),
    {
        let ghost given = crate::jpeg::outcome_view(captured);
        let outcome: Result<Vec<u8>, String> = match captured {
            Ok(frame) => encode_frame_to_jpeg(
                frame.as_slice(),
                self.width,
                self.height,
                self.capture_encoding.as_str(),
            ),
            Err(error) => Err(error),
        };
        CapturedFrame { outcome, config: Ghost(self@), captured: Ghost(given) }
    }
}

/// What the capture loop is told: that it begins, or what came of the action of
/// the step before.
pub enum CaptureEvent {
    /// The loop begins, or begins anew after a pause.
    Begin,
    Opened(Result<(), String>),
    FormatRead(Result<(), String>),
    FormatApplied(Result<(), String>),
    RateRequested(Result<(), String>),
    StreamStarted(Result<(), String>),
    Captured(CapturedFrame),
}

/// The value of an event.
pub enum EventModel {
    Begin,
    Opened(Result<(), Seq<char>>),
    FormatRead(Result<(), Seq<char>>),
    FormatApplied(Result<(), Seq<char>>),
    RateRequested(Result<(), Seq<char>>),
    StreamStarted(Result<(), Seq<char>>),
    Captured(FrameModel),
}

/// The value of what came of an action that gives nothing back.
pub open spec fn reply_view(reply: Result<(), String>) -> Result<(), Seq<char>> {
    match reply {
        Ok(_) => Ok(()),
        Err(error) => Err(error@),
    }
}

impl View for CaptureEvent {
    type V = EventModel;

    open spec fn view(&self) -> EventModel {
        match self {
            CaptureEvent::Begin => EventModel::Begin,
            CaptureEvent::Opened(reply) => EventModel::Opened(reply_view(*reply)),
            CaptureEvent::FormatRead(reply) => EventModel::FormatRead(reply_view(*reply)),
            CaptureEvent::FormatApplied(reply) => EventModel::FormatApplied(reply_view(*reply)),
            CaptureEvent::RateRequested(reply) => EventModel::RateRequested(reply_view(*reply)),
            CaptureEvent::StreamStarted(reply) => EventModel::StreamStarted(reply_view(*reply)),
            CaptureEvent::Captured(frame) => EventModel::Captured(frame@),
        }
    }
}

/// The event tells what came of the action.
pub open spec fn answers(event: EventModel, action: ActionModel) -> bool {
    match action {
        ActionModel::OpenDevice { .. } => event is Opened,
        ActionModel::ReadFormat => event is FormatRead,
        ActionModel::ApplyFormat { .. } => event is FormatApplied,
        ActionModel::RequestRate { .. } => event is RateRequested,
        ActionModel::StartStream { .. } => event is StreamStarted,
        ActionModel::NextFrame => event is Captured,
        ActionModel::Pause { .. } => event is Begin,
        ActionModel::Finish => false,
    }
}

/// A worker and the step that it takes without publishing a frame.
pub open spec fn step_to(worker: WorkerModel, action: ActionModel) -> (WorkerModel, StepModel) {
    (worker, StepModel { action, note: FrameNote::Quiet })
}

/// After a failure: the error is recorded, and after a pause the device is
/// opened anew.
pub open spec fn after_failure(worker: WorkerModel, error: Seq<char>) -> (WorkerModel, StepModel) {
    step_to(worker.with_error(error), ActionModel::Pause { millis: RETRY_PAUSE_MS, error })
}

/// Between two frames: the loop of a worker that was told to stop ends, else the
/// next frame is asked for.
pub open spec fn between_frames(worker: WorkerModel, note: FrameNote) -> (WorkerModel, StepModel) {
    if worker.stopped {
        (worker.finished(), StepModel { action: ActionModel::Finish, note })
    } else {
        (worker, StepModel { action: ActionModel::NextFrame, note })
    }
}

/// The step that a worker takes on an event.
pub open spec fn capture_transition(worker: WorkerModel, event: EventModel, now_ms: u128) -> (
    WorkerModel,
    StepModel,
) {
    match event {
        EventModel::Begin => if worker.stopped {
            step_to(worker.finished(), ActionModel::Finish)
        } else {
            step_to(
                worker.with_status("opening"@),
                ActionModel::OpenDevice { node: worker.config.node },
            )
        },
        EventModel::Opened(Ok(_)) => step_to(worker, ActionModel::ReadFormat),
        EventModel::Opened(Err(error)) => after_failure(
            worker,
            "Failed to open "@ + worker.config.node + ": "@ + error,
        ),
        EventModel::FormatRead(Ok(_)) => match fourcc(worker.config.capture_encoding) {
            Some(code) => step_to(
                worker,
                ActionModel::ApplyFormat {
                    width: worker.config.width,
                    height: worker.config.height,
                    fourcc: code,
                },
            ),
            None => after_failure(
                worker,
                "Unsupported capture encoding "@ + worker.config.capture_encoding,
            ),
        },
        EventModel::FormatRead(Err(error)) => after_failure(
            worker,
            "Failed to read device format: "@ + error,
        ),
        EventModel::FormatApplied(Ok(_)) => step_to(
            worker,
            ActionModel::RequestRate { framerate: worker.config.framerate },
        ),
        EventModel::FormatApplied(Err(error)) => after_failure(
            worker,
            "Failed to set device format: "@ + error,
        ),
        EventModel::RateRequested(_) => step_to(
            worker,
            ActionModel::StartStream { buffers: STREAM_BUFFERS },
        ),
        EventModel::StreamStarted(Ok(_)) => between_frames(
            worker.with_status("streaming"@),
            FrameNote::Quiet,
        ),
        EventModel::StreamStarted(Err(error)) => after_failure(worker, error),
        EventModel::Captured(frame) => match frame.image() {
            Ok(image) => {
                let published = worker.with_frame(image, now_ms);
                between_frames(published, crate::worker::frame_note(published.frames_captured))
            },
            Err(error) => after_failure(worker, error),
        },
    }
}

/// One text behind another.
fn joined(first: &str, second: &str) -> (r: String)
    ensures
        r@ == first@ + second@,
{
    first.to_owned().concat(second)
}

/// A step that publishes no frame.
fn quiet(action: CaptureAction) -> (step: CaptureStep)
    ensures
        step@ == (StepModel { action: action@, note: FrameNote::Quiet }),
{
    CaptureStep { action, note: FrameNote::Quiet }
}

impl CameraWorker {
    /// Records a failure and asks for a pause.
    fn fail(&mut self, error: String) -> (step: CaptureStep)
        ensures
            (final(self)@, step@) == after_failure(old(self)@, error@),
            final(self).wf() == old(self).wf(),
    {
        self.set_error(error.clone());
        quiet(CaptureAction::Pause { millis: RETRY_PAUSE_MS, error })
    }

    /// Asks for the next frame, or finishes.
    fn next_frame(&mut self, note: FrameNote) -> (step: CaptureStep)
        ensures
            (final(self)@, step@) == between_frames(old(self)@, note),
            final(self).wf() == old(self).wf(),
    {
        if self.is_stopped() {
            self.finish();
            CaptureStep { action: CaptureAction::Finish, note }
        } else {
            CaptureStep { action: CaptureAction::NextFrame, note }
        }
    }

    /// Takes one step of the capture loop on an event.
    pub fn capture_step(&mut self, event: CaptureEvent, now_ms: u128) -> (step: CaptureStep)
        requires
            old(self).wf(),
        ensures
            final(self).wf(),
            (final(self)@, step@) == capture_transition(old(self)@, event@, now_ms),
    {
        match event {
            CaptureEvent::Begin => if self.is_stopped() {
                self.finish();
                quiet(CaptureAction::Finish)
            } else {
                self.set_status("opening");
                let node: String = self.config().node.clone();
                quiet(CaptureAction::OpenDevice { node })
            },
            CaptureEvent::Opened(Ok(_)) => quiet(CaptureAction::ReadFormat),
            CaptureEvent::Opened(Err(error)) => {
                let message: String = joined("Failed to open ", self.config().node.as_str()).concat(
                    ": ",
                ).concat(error.as_str());
                self.fail(message)
            },
            CaptureEvent::FormatRead(Ok(_)) => match encoding_to_fourcc(
                self.config().capture_encoding.as_str(),
            ) {
                Some(code) => quiet(
                    CaptureAction::ApplyFormat {
                        width: self.config().width,
                        height: self.config().height,
                        fourcc: code,
                    },
                ),
                None => {
                    let message: String = joined(
                        "Unsupported capture encoding ",
                        self.config().capture_encoding.as_str(),
                    );
                    self.fail(message)
                },
            },
            CaptureEvent::FormatRead(Err(error)) => self.fail(
                joined("Failed to read device format: ", error.as_str()),
            ),
            CaptureEvent::FormatApplied(Ok(_)) => quiet(
                CaptureAction::RequestRate { framerate: self.config().framerate },
            ),
            CaptureEvent::FormatApplied(Err(error)) => self.fail(
                joined("Failed to set device format: ", error.as_str()),
            ),
            CaptureEvent::RateRequested(_) => quiet(
                CaptureAction::StartStream { buffers: STREAM_BUFFERS },
            ),
            CaptureEvent::StreamStarted(Ok(_)) => {
                self.set_status("streaming");
                self.next_frame(FrameNote::Quiet)
            },
            CaptureEvent::StreamStarted(Err(error)) => self.fail(error),
            CaptureEvent::Captured(frame) => match frame.into_image() {
                Ok(image) => {
                    let note: FrameNote = self.publish_frame(buffer_of(image), now_ms);
                    self.next_frame(note)
                },
                Err(error) => self.fail(error),
            },
        }
    }
}

/// How many steps at most the loop of a worker that was told to stop still takes
/// after the step on an event.
pub open spec fn steps_to_finish(event: EventModel) -> int {
    match event {
        EventModel::Begin => 0,
        EventModel::Captured(_) => 1,
        EventModel::StreamStarted(_) => 2,
        EventModel::RateRequested(_) => 3,
        EventModel::FormatApplied(_) => 4,
        EventModel::FormatRead(_) => 5,
        EventModel::Opened(_) => 6,
    }
}

/// The capture loop of a worker that was told to stop ends: whatever the device
/// replies, a step either finishes or brings the end nearer, and the device is
/// neither opened nor asked for another frame.
pub proof fn law_stopped_worker_finishes(
    worker: WorkerModel,
    event: EventModel,
    next: EventModel,
    now_ms: u128,
)
    requires
        worker.stopped,
    ensures
        ({
            let (after, step) = capture_transition(worker, event, now_ms);
            &&& after.stopped
            &&& answers(next, step.action) ==> steps_to_finish(next) < steps_to_finish(event)
            &&& steps_to_finish(event) == 0 ==> step.action is Finish
            &&& !(step.action is OpenDevice)
            &&& !(step.action is NextFrame)
        }),
{
}

/// The capture loop never ends by itself: only a worker that was told to stop
/// finishes.
pub proof fn law_running_worker_goes_on(worker: WorkerModel, event: EventModel, now_ms: u128)
    requires
        !worker.stopped,
    ensures
        ({
            let (after, step) = capture_transition(worker, event, now_ms);
            &&& !(step.action is Finish)
            &&& after.capturing == worker.capturing
        }),
{
}

/// The event tells of a failure that counts: of the device, in anything but the
/// frame rate, or of encoding what it gave.
pub open spec fn is_failure(event: EventModel) -> bool {
    match event {
        EventModel::Begin => false,
        EventModel::Opened(reply) => reply is Err,
        EventModel::FormatRead(reply) => reply is Err,
        EventModel::FormatApplied(reply) => reply is Err,
        EventModel::RateRequested(_) => false,
        EventModel::StreamStarted(reply) => reply is Err,
        EventModel::Captured(frame) => frame.image() is Err,
    }
}

/// A failure is recorded as the last error and told with a pause; the step after
/// the pause opens the device anew and takes the error back, unless the worker
/// was told to stop.
pub proof fn law_failure_is_recorded_and_retried(
    worker: WorkerModel,
    event: EventModel,
    now_ms: u128,
    later_ms: u128,
)
    requires
        is_failure(event),
    ensures
        ({
            let (failed, pause) = capture_transition(worker, event, now_ms);
            let (retried, retry) = capture_transition(failed, EventModel::Begin, later_ms);
            &&& failed.status == "error"@
            &&& failed.last_error matches Some(error) && pause.action == (ActionModel::Pause {
                millis: RETRY_PAUSE_MS,
                error,
            })
            &&& failed.frame == worker.frame
            &&& failed.frames_captured == worker.frames_captured
            &&& answers(EventModel::Begin, pause.action)
            &&& !worker.stopped ==> {
                &&& retry.action == ActionModel::OpenDevice { node: worker.config.node }
                &&& retried.status == "opening"@
                &&& retried.last_error is None
            }
        }),
{
}

/// No step changes the configuration, the generation, the channel, the flag or
/// the order to stop; a frame changes only where one is published; and the
/// capture loop runs until a step finishes it.
pub proof fn law_step_keeps_identity(worker: WorkerModel, event: EventModel, now_ms: u128)
    ensures
        ({
            let (after, step) = capture_transition(worker, event, now_ms);
            &&& after.config == worker.config
            &&& after.generation == worker.generation
            &&& after.channel == worker.channel
            &&& after.consumed == worker.consumed
            &&& after.stopped == worker.stopped
            &&& after.frame != worker.frame ==> event is Captured
            &&& after.frames_captured != worker.frames_captured ==> event is Captured
            &&& after.capturing == (worker.capturing && !(step.action is Finish))
        }),
{
}

/// Every step leaves the state of a worker fitting together, until the count of
/// frames wraps.
pub proof fn law_step_keeps_state_consistent(
    worker: WorkerModel,
    event: EventModel,
    now_ms: u128,
)
    requires
        worker.consistent(),
        worker.frames_captured < u64::MAX,
    ensures
        capture_transition(worker, event, now_ms).0.consistent(),
{
    crate::worker::lemma_statuses_differ();
}

/// What the device captures is what is shown: where a captured frame can be
/// encoded as the worker is configured, the step on it makes its JPEG image the
/// latest frame of the worker, which is ready and has no error.
pub proof fn law_captured_frame_is_published(
    worker: WorkerModel,
    captured: Seq<u8>,
    image: Seq<u8>,
    now_ms: u128,
)
    requires
        captured_image(worker.config, Ok(captured)) == Ok::<Seq<u8>, Seq<char>>(image),
    ensures
        ({
            let frame = FrameModel { config: worker.config, captured: Ok(captured) };
            let after = capture_transition(worker, EventModel::Captured(frame), now_ms).0;
            &&& after.frame == image
            &&& after.frames_captured == crate::worker::next_count(worker.frames_captured)
            &&& after.status == "ready"@
            &&& after.last_error is None
            &&& after.last_frame_at_ms == Some(now_ms)
        }),
{
}

/// A device that does all it is asked brings a worker to its first frame: the
/// device is opened, its format read and set, its rate requested, whatever comes
/// of that, and its stream started, in this order.
pub proof fn law_start_of_capture(
    worker: WorkerModel,
    rate_reply: Result<(), Seq<char>>,
    now_ms: u128,
)
    requires
        !worker.stopped,
        crate::config::is_supported(worker.config.capture_encoding),
    ensures
        ({
            let (w1, s1) = capture_transition(worker, EventModel::Begin, now_ms);
            let (w2, s2) = capture_transition(w1, EventModel::Opened(Ok(())), now_ms);
            let (w3, s3) = capture_transition(w2, EventModel::FormatRead(Ok(())), now_ms);
            let (w4, s4) = capture_transition(w3, EventModel::FormatApplied(Ok(())), now_ms);
            let (w5, s5) = capture_transition(w4, EventModel::RateRequested(rate_reply), now_ms);
            let (w6, s6) = capture_transition(w5, EventModel::StreamStarted(Ok(())), now_ms);
            &&& s1.action == ActionModel::OpenDevice { node: worker.config.node }
            &&& w1.status == "opening"@
            &&& s2.action == ActionModel::ReadFormat
            &&& s3.action == ActionModel::ApplyFormat {
                width: worker.config.width,
                height: worker.config.height,
                fourcc: crate::frame::ascii_bytes(worker.config.capture_encoding),
            }
            &&& s4.action == ActionModel::RequestRate { framerate: worker.config.framerate }
            &&& s5.action == ActionModel::StartStream { buffers: STREAM_BUFFERS }
            &&& s6.action == ActionModel::NextFrame
            &&& w6 == worker.with_status("streaming"@)
        }),
{
}

/// The value of an action has its fields, each in its place.
pub proof fn law_action_value(action: CaptureAction)
    ensures
        match action {
            CaptureAction::OpenDevice { node } => action@ == (ActionModel::OpenDevice {
                node: node@,
            }),
            CaptureAction::ReadFormat => action@ is ReadFormat,
            CaptureAction::ApplyFormat { width, height, fourcc } => action@
                == (ActionModel::ApplyFormat { width, height, fourcc: fourcc@ }),
            CaptureAction::RequestRate { framerate } => action@ == (ActionModel::RequestRate {
                framerate,
            }),
            CaptureAction::StartStream { buffers } => action@ == (ActionModel::StartStream {
                buffers,
            }),
            CaptureAction::NextFrame => action@ is NextFrame,
            CaptureAction::Pause { millis, error } => action@ == (ActionModel::Pause {
                millis,
                error: error@,
            }),
            CaptureAction::Finish => action@ is Finish,
        },
{
}

/// The value of a step has its action and its note.
pub proof fn law_step_value(step: CaptureStep)
    ensures
        step@.action == step.action@,
        step@.note == step.note,
{
}

/// The value of an event tells of the same thing as the event, and of success or
/// failure as it does.
pub proof fn law_event_value(event: CaptureEvent)
    ensures
        match event {
            CaptureEvent::Begin => event@ is Begin,
            CaptureEvent::Opened(reply) => match reply {
                Ok(_) => event@ == EventModel::Opened(Ok(())),
                Err(error) => event@ == EventModel::Opened(Err(error@)),
            },
            CaptureEvent::FormatRead(reply) => match reply {
                Ok(_) => event@ == EventModel::FormatRead(Ok(())),
                Err(error) => event@ == EventModel::FormatRead(Err(error@)),
            },
            CaptureEvent::FormatApplied(reply) => match reply {
                Ok(_) => event@ == EventModel::FormatApplied(Ok(())),
                Err(error) => event@ == EventModel::FormatApplied(Err(error@)),
            },
            CaptureEvent::RateRequested(reply) => match reply {
                Ok(_) => event@ == EventModel::RateRequested(Ok(())),
                Err(error) => event@ == EventModel::RateRequested(Err(error@)),
            },
            CaptureEvent::StreamStarted(reply) => match reply {
                Ok(_) => event@ == EventModel::StreamStarted(Ok(())),
                Err(error) => event@ == EventModel::StreamStarted(Err(error@)),
            },
            CaptureEvent::Captured(frame) => event@ == EventModel::Captured(frame@),
        },
{
}

/// The code of an encoding that can be captured is its four ASCII letters; no other
/// encoding has one.
pub proof fn law_codes_of_encodings(encoding: Seq<char>)
    ensures
        fourcc(seq!['Y', 'U', 'Y', 'V']) == Some(seq![89u8, 85, 89, 86]),
        fourcc(seq!['M', 'J', 'P', 'G']) == Some(seq![77u8, 74, 80, 71]),
        encoding != seq!['Y', 'U', 'Y', 'V'] && encoding != seq!['M', 'J', 'P', 'G'] ==> fourcc(
            encoding,
        ) is None,
{
    crate::config::law_two_encodings_are_supported(encoding);
    crate::config::law_two_encodings_are_supported(seq!['Y', 'U', 'Y', 'V']);
    crate::config::law_two_encodings_are_supported(seq!['M', 'J', 'P', 'G']);
    assert(crate::frame::ascii_bytes(seq!['Y', 'U', 'Y', 'V']) =~= seq![89u8, 85, 89, 86]);
    assert(crate::frame::ascii_bytes(seq!['M', 'J', 'P', 'G']) =~= seq![77u8, 74, 80, 71]);
}

/// The image of a captured frame is the frame encoded in the width, the height and
/// the encoding of the configuration; a failure of the device stays that failure.
pub proof fn law_image_is_the_encoded_frame(
    config: crate::config::ConfigModel,
    frame: Seq<u8>,
    error: Seq<char>,
)
    ensures
        (FrameModel { config, captured: Ok(frame) }).image() == crate::jpeg::encoded_frame(
            frame,
            config.width,
            config.height,
            config.capture_encoding,
        ),
        (FrameModel { config, captured: Err(error) }).image() == Err::<Seq<u8>, Seq<char>>(error),
        config.capture_encoding == seq!['M', 'J', 'P', 'G'] ==> (FrameModel {
            config,
            captured: Ok(frame),
        }).image() == Ok::<Seq<u8>, Seq<char>>(frame),
{
    crate::jpeg::law_mjpg_is_passed_on(frame, config.width, config.height);
}

/// A captured frame that can be encoded keeps the stream going: its image becomes
/// the latest frame, one more is counted at that time, the worker is ready without
/// an error, and the next frame is asked for from the same stream, however many
/// there were before. Only a worker that was told to stop finishes instead.
pub proof fn law_frame_keeps_the_stream_going(
    worker: WorkerModel,
    frame: FrameModel,
    image: Seq<u8>,
    now_ms: u128,
)
    requires
        frame.image() == Ok::<Seq<u8>, Seq<char>>(image),
    ensures
        ({
            let (after, step) = capture_transition(worker, EventModel::Captured(frame), now_ms);
            &&& !worker.stopped ==> step.action is NextFrame
            &&& worker.stopped ==> step.action is Finish
            &&& after.frame == image
            &&& worker.frames_captured < 0xffff_ffff_ffff_ffff ==> after.frames_captured
                == worker.frames_captured + 1
            &&& worker.frames_captured == 0xffff_ffff_ffff_ffff ==> after.frames_captured == 0
            &&& after.last_frame_at_ms == Some(now_ms)
            &&& after.status == "ready"@
            &&& after.last_error is None
            &&& crate::worker::is_same_worker(after, worker)
            &&& after.stopped == worker.stopped
            &&& after.capturing == (worker.capturing && !worker.stopped)
            &&& step.note == FrameNote::First <==> after.frames_captured == 1
            &&& step.note matches FrameNote::Milestone(count) ==> count == after.frames_captured
            &&& step.note is Milestone <==> after.frames_captured % 300 == 0
        }),
{
    let after = capture_transition(worker, EventModel::Captured(frame), now_ms).0;
    crate::worker::law_notes_on_frames(
        after.frames_captured,
        (after.frames_captured / 300) as int,
    );
}

/// The worker after a row of captured frames.
pub open spec fn after_frames(
    worker: WorkerModel,
    frames: Seq<FrameModel>,
    now_ms: u128,
) -> WorkerModel
    decreases frames.len(),
{
    if frames.len() == 0 {
        worker
    } else {
        capture_transition(
            after_frames(worker, frames.drop_last(), now_ms),
            EventModel::Captured(frames.last()),
            now_ms,
        ).0
    }
}

/// Frame after frame is published: after any row of frames that can be encoded the
/// latest one is shown, all of them are counted, and a worker that was not told to
/// stop still asks for the next.
pub proof fn law_frame_after_frame_is_published(
    worker: WorkerModel,
    frames: Seq<FrameModel>,
    next: FrameModel,
    now_ms: u128,
)
    requires
        !worker.stopped,
        worker.frames_captured + frames.len() <= 0xffff_ffff_ffff_ffff,
        forall|i: int| 0 <= i < frames.len() ==> (#[trigger] frames[i]).image() is Ok,
        next.image() is Ok,
    ensures
        ({
            let now = after_frames(worker, frames, now_ms);
            &&& now.frames_captured == worker.frames_captured + frames.len()
            &&& frames.len() > 0 ==> frames.last().image() == Ok::<Seq<u8>, Seq<char>>(now.frame)
            &&& !now.stopped
            &&& now.capturing == worker.capturing
            &&& capture_transition(now, EventModel::Captured(next), now_ms).1.action is NextFrame
        }),
    decreases frames.len(),
{
    if frames.len() > 0 {
        let rest = frames.drop_last();
        let last = frames.last();
        assert forall|i: int| 0 <= i < rest.len() implies (#[trigger] rest[i]).image() is Ok by {
            assert(rest[i] == frames[i]);
        }
        assert(frames[frames.len() - 1].image() is Ok);
        law_frame_after_frame_is_published(worker, rest, last, now_ms);
        law_frame_keeps_the_stream_going(
            after_frames(worker, rest, now_ms),
            last,
            last.image()->Ok_0,
            now_ms,
        );
    }
    law_frame_keeps_the_stream_going(
        after_frames(worker, frames, now_ms),
        next,
        next.image()->Ok_0,
        now_ms,
    );
}

/// A pause is asked for on a failure and on nothing else: where the device could
/// not be opened, its format read or set or its stream started, where a frame could
/// not be captured or encoded, or where the encoding has no code.
pub proof fn law_pause_means_failure(worker: WorkerModel, event: EventModel, now_ms: u128)
    ensures
        capture_transition(worker, event, now_ms).1.action is Pause <==> match event {
            EventModel::Begin => false,
            EventModel::Opened(reply) => reply is Err,
            EventModel::FormatRead(reply) => reply is Err || (worker.config.capture_encoding
                != seq!['Y', 'U', 'Y', 'V'] && worker.config.capture_encoding
                != seq!['M', 'J', 'P', 'G']),
            EventModel::FormatApplied(reply) => reply is Err,
            EventModel::RateRequested(_) => false,
            EventModel::StreamStarted(reply) => reply is Err,
            EventModel::Captured(frame) => frame.image() is Err,
        },
{
    crate::config::law_two_encodings_are_supported(worker.config.capture_encoding);
}

/// The step after a failure: the error is kept and told, with a pause of half a
/// second, and what the worker shows stays.
pub open spec fn is_failed_step(
    worker: WorkerModel,
    taken: (WorkerModel, StepModel),
    error: Seq<char>,
) -> bool {
    let (after, step) = taken;
    &&& step.action == ActionModel::Pause { millis: 500, error }
    &&& step.note == FrameNote::Quiet
    &&& after.status == "error"@
    &&& after.last_error == Some(error)
    &&& crate::worker::is_same_worker(after, worker)
    &&& crate::worker::shows_the_same(after, worker)
    &&& after.stopped == worker.stopped
    &&& after.capturing == worker.capturing
}

/// Every failure is told with what was tried and with the words of the device.
pub proof fn law_failures_are_told(
    worker: WorkerModel,
    error: Seq<char>,
    frame: FrameModel,
    now_ms: u128,
)
    ensures
        is_failed_step(
            worker,
            capture_transition(worker, EventModel::Opened(Err(error)), now_ms),
            "Failed to open "@ + worker.config.node + ": "@ + error,
        ),
        is_failed_step(
            worker,
            capture_transition(worker, EventModel::FormatRead(Err(error)), now_ms),
            "Failed to read device format: "@ + error,
        ),
        is_failed_step(
            worker,
            capture_transition(worker, EventModel::FormatApplied(Err(error)), now_ms),
            "Failed to set device format: "@ + error,
        ),
        is_failed_step(
            worker,
            capture_transition(worker, EventModel::StreamStarted(Err(error)), now_ms),
            error,
        ),
        frame.image() == Err::<Seq<u8>, Seq<char>>(error) ==> is_failed_step(
            worker,
            capture_transition(worker, EventModel::Captured(frame), now_ms),
            error,
        ),
        worker.config.capture_encoding != seq!['Y', 'U', 'Y', 'V']
            && worker.config.capture_encoding != seq!['M', 'J', 'P', 'G'] ==> is_failed_step(
            worker,
            capture_transition(worker, EventModel::FormatRead(Ok(())), now_ms),
            "Unsupported capture encoding "@ + worker.config.capture_encoding,
        ),
{
    law_codes_of_encodings(worker.config.capture_encoding);
}

/// Setting a device up leaves the worker as it is and goes on in order: once the
/// device is open its format is read, then set to the width, the height and the code
/// of the configuration, then the frame rate of the configuration is requested, and
/// then, whatever came of that, the stream is started with four buffers.
pub proof fn law_setting_up_goes_on_in_order(
    worker: WorkerModel,
    rate_reply: Result<(), Seq<char>>,
    now_ms: u128,
)
    ensures
        capture_transition(worker, EventModel::Opened(Ok(())), now_ms) == (
            worker,
            StepModel { action: ActionModel::ReadFormat, note: FrameNote::Quiet },
        ),
        worker.config.capture_encoding == seq!['Y', 'U', 'Y', 'V'] ==> capture_transition(
            worker,
            EventModel::FormatRead(Ok(())),
            now_ms,
        ) == (
            worker,
            StepModel {
                action: ActionModel::ApplyFormat {
                    width: worker.config.width,
                    height: worker.config.height,
                    fourcc: seq![89u8, 85, 89, 86],
                },
                note: FrameNote::Quiet,
            },
        ),
        worker.config.capture_encoding == seq!['M', 'J', 'P', 'G'] ==> capture_transition(
            worker,
            EventModel::FormatRead(Ok(())),
            now_ms,
        ) == (
            worker,
            StepModel {
                action: ActionModel::ApplyFormat {
                    width: worker.config.width,
                    height: worker.config.height,
                    fourcc: seq![77u8, 74, 80, 71],
                },
                note: FrameNote::Quiet,
            },
        ),
        capture_transition(worker, EventModel::FormatApplied(Ok(())), now_ms) == (
            worker,
            StepModel {
                action: ActionModel::RequestRate { framerate: worker.config.framerate },
                note: FrameNote::Quiet,
            },
        ),
        capture_transition(worker, EventModel::RateRequested(rate_reply), now_ms) == (
            worker,
            StepModel { action: ActionModel::StartStream { buffers: 4 }, note: FrameNote::Quiet },
        ),
{
    law_codes_of_encodings(worker.config.capture_encoding);
}

/// A loop that begins opens the device of the configuration, with the status
/// `opening` and no error; one whose stream has started asks for the first frame,
/// with the status `streaming` and no error. A worker that was told to stop finishes
/// instead: at once where the loop begins. Nothing else is touched.
pub proof fn law_begin_and_start_of_stream(worker: WorkerModel, now_ms: u128)
    ensures
        ({
            let (after, step) = capture_transition(worker, EventModel::Begin, now_ms);
            &&& !worker.stopped ==> {
                &&& step.action == ActionModel::OpenDevice { node: worker.config.node }
                &&& after.status == "opening"@
                &&& after.last_error is None
                &&& after.capturing == worker.capturing
            }
            &&& worker.stopped ==> {
                &&& step.action is Finish
                &&& after.status == worker.status
                &&& after.last_error == worker.last_error
                &&& !after.capturing
            }
            &&& step.note == FrameNote::Quiet
            &&& crate::worker::is_same_worker(after, worker)
            &&& crate::worker::shows_the_same(after, worker)
            &&& after.stopped == worker.stopped
        }),
        ({
            let (after, step) = capture_transition(
                worker,
                EventModel::StreamStarted(Ok(())),
                now_ms,
            );
            &&& !worker.stopped ==> step.action is NextFrame
            &&& worker.stopped ==> step.action is Finish
            &&& step.note == FrameNote::Quiet
            &&& after.status == "streaming"@
            &&& after.last_error is None
            &&& crate::worker::is_same_worker(after, worker)
            &&& crate::worker::shows_the_same(after, worker)
            &&& after.stopped == worker.stopped
            &&& after.capturing == (worker.capturing && !worker.stopped)
        }),
{
}

} // verus!
