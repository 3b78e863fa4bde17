//! What the HTTP endpoints answer.

use vstd::prelude::*;

use bytes::Bytes;

use crate::error::CameraManagerError;
use crate::error::ErrorModel;
use crate::frame::build_mjpeg_chunk;
use crate::frame::slice_of;
use crate::request::Query;
use crate::text::same_text;

verus! {

/// What an endpoint serves.
#[derive(Clone, Copy, Debug, PartialEq, Eq, Structural)]
pub enum Endpoint {
    /// That the service is up.
    Health,
    /// The state of every camera.
    Cameras,
    /// The state of one camera.
    State,
    /// The latest frame of one camera.
    Snapshot,
    /// The frames of one camera as they come.
    Stream,
    /// What the query parameter `action` asks for.
    Root,
}

/// What a path pattern serves in a table of routes.
pub open spec fn serves(
    table: Seq<(&'static str, Endpoint)>,
    path: Seq<char>,
    endpoint: Endpoint,
) -> bool {
    exists|i: int|
        0 <= i < table.len() && (#[trigger] table[i]).0@ == path && table[i].1 == endpoint
}

/// The path patterns that are served, and what each serves.
pub open spec fn route_table() -> Seq<(&'static str, Endpoint)> {
    seq![
        ("/api/v1/health", Endpoint::Health),
        ("/api/v1/cameras", Endpoint::Cameras),
        ("/api/v1/cameras/{camera_id}/state", Endpoint::State),
        ("/api/v1/cameras/{camera_id}/snapshot.jpg", Endpoint::Snapshot),
        ("/api/v1/cameras/{camera_id}/stream.mjpeg", Endpoint::Stream),
        ("/{camera_id}/state", Endpoint::State),
        ("/{camera_id}/snapshot", Endpoint::Snapshot),
        ("/{camera_id}/stream", Endpoint::Stream),
        ("/{camera_id}", Endpoint::Root),
        ("/{camera_id}/", Endpoint::Root),
    ]
}

/// The path patterns that are served, and what each serves.
pub fn routes() -> (r: Vec<(&'static str, Endpoint)>)
    ensures
        r@ == seq![
            ("/api/v1/health", Endpoint::Health),
            ("/api/v1/cameras", Endpoint::Cameras),
            ("/api/v1/cameras/{camera_id}/state", Endpoint::State),
            ("/api/v1/cameras/{camera_id}/snapshot.jpg", Endpoint::Snapshot),
            ("/api/v1/cameras/{camera_id}/stream.mjpeg", Endpoint::Stream),
            ("/{camera_id}/state", Endpoint::State),
            ("/{camera_id}/snapshot", Endpoint::Snapshot),
            ("/{camera_id}/stream", Endpoint::Stream),
            ("/{camera_id}", Endpoint::Root),
            ("/{camera_id}/", Endpoint::Root),
        ],
        r@ == route_table(),
{
    vec![
        ("/api/v1/health", Endpoint::Health),
        ("/api/v1/cameras", Endpoint::Cameras),
        ("/api/v1/cameras/{camera_id}/state", Endpoint::State),
        ("/api/v1/cameras/{camera_id}/snapshot.jpg", Endpoint::Snapshot),
        ("/api/v1/cameras/{camera_id}/stream.mjpeg", Endpoint::Stream),
        ("/{camera_id}/state", Endpoint::State),
        ("/{camera_id}/snapshot", Endpoint::Snapshot),
        ("/{camera_id}/stream", Endpoint::Stream),
        ("/{camera_id}", Endpoint::Root),
        ("/{camera_id}/", Endpoint::Root),
    ]
}

/// What the query parameter `action` asks for.
pub open spec fn action_endpoint(query: Map<Seq<char>, Seq<char>>) -> Option<Endpoint> {
    if !query.contains_key("action"@) {
        None
    } else if query["action"@] == "snapshot"@ {
        Some(Endpoint::Snapshot)
    } else if query["action"@] == "stream"@ {
        Some(Endpoint::Stream)
    } else if query["action"@] == "state"@ {
        Some(Endpoint::State)
    } else {
        None
    }
}

/// What the query parameter `action` asks for; nothing where it is missing or
/// unknown.
pub fn compat_root(query: &Query) -> (r: Option<Endpoint>)
    ensures
        r == action_endpoint(query@),
{
    match query.get("action") {
        Some(action) => if same_text(action, "snapshot") {
            Some(Endpoint::Snapshot)
        } else if same_text(action, "stream") {
            Some(Endpoint::Stream)
        } else if same_text(action, "state") {
            Some(Endpoint::State)
        } else {
            None
        },
        None => None,
    }
}

/// An answer that tells of an error.
#[derive(Debug)]
pub struct ErrorReply {
    pub status: u16,
    pub error: String,
}

/// The HTTP status of an error: an unknown camera is not found, a configuration
/// that cannot be used is a bad request, and a worker that cannot be started is
/// a fault of the server.
pub open spec fn error_status(error: ErrorModel) -> u16 {
    match error {
        ErrorModel::CameraNotFound(_) => 404,
        ErrorModel::InvalidBootstrapField(_) => 400,
        ErrorModel::MissingBootstrapField(_) => 400,
        ErrorModel::UnsupportedCaptureEncoding(_) => 400,
        ErrorModel::WorkerInitialization(_) => 500,
    }
}

/// The answer to a request that failed.
pub fn error_response(error: &CameraManagerError) -> (r: ErrorReply)
    ensures
        r.status == error_status(error@),
        r.error@ == error@.text(),
{
    let status: u16 = match error {
        CameraManagerError::CameraNotFound(_) => 404,
        CameraManagerError::InvalidBootstrapField(_) => 400,
        CameraManagerError::MissingBootstrapField(_) => 400,
        CameraManagerError::UnsupportedCaptureEncoding(_) => 400,
        CameraManagerError::WorkerInitialization(_) => 500,
    };
    ErrorReply { status, error: error.message() }
}

/// The answer to an action that is missing or unknown.
pub fn unsupported_action() -> (r: ErrorReply)
    ensures
        r.status == 404,
        r.error@ == "Unsupported compatibility action"@,
{
    ErrorReply { status: 404, error: "Unsupported compatibility action".to_owned() }
}

/// The headers of an answer with a JPEG image.
pub fn jpeg_headers() -> (r: Vec<(&'static str, &'static str)>)
    ensures
        r@ == seq![("content-type", "image/jpeg")],
{
    vec![("content-type", "image/jpeg")]
}

/// The content type of a stream of JPEG images.
pub open spec fn stream_content_type() -> Seq<char> {
    "multipart/x-mixed-replace; boundary=frame"@
}

/// The headers of an answer with a stream of JPEG images.
pub fn stream_headers() -> (r: Vec<(&'static str, &'static str)>)
    ensures
        r@ == seq![
            ("content-type", "multipart/x-mixed-replace; boundary=frame"),
            ("x-accel-buffering", "no"),
        ],
        r@[0].1@ == stream_content_type(),
{
    vec![
        ("content-type", "multipart/x-mixed-replace; boundary=frame"),
        ("x-accel-buffering", "no"),
    ]
}

/// What happens to a stream of frames.
pub enum StreamEvent {
    /// The stream begins, at a time when this is the latest frame.
    Subscribed(Bytes),
    /// This frame has become the latest one.
    Changed(Bytes),
    /// There will be no more frames.
    Closed,
}

/// What a stream does next.
pub struct StreamStep {
    /// Whether to tell the worker that a frame is being taken.
    pub mark_consumed: bool,
    /// What to send.
    pub output: Option<Bytes>,
    /// Whether the stream ends.
    pub done: bool,
}

/// The value of a stream event.
pub enum StreamEventModel {
    Subscribed(Seq<u8>),
    Changed(Seq<u8>),
    Closed,
}

/// The value of what a stream does next.
pub struct StreamStepModel {
    pub mark_consumed: bool,
    pub output: Option<Seq<u8>>,
    pub done: bool,
}

impl View for StreamEvent {
    type V = StreamEventModel;

    open spec fn view(&self) -> StreamEventModel {
        match self {
            StreamEvent::Subscribed(frame) => StreamEventModel::Subscribed(
                crate::frame::content(*frame),
            ),
            StreamEvent::Changed(frame) => StreamEventModel::Changed(
                crate::frame::content(*frame),
            ),
            StreamEvent::Closed => StreamEventModel::Closed,
        }
    }
}

impl View for StreamStep {
    type V = StreamStepModel;

    open spec fn view(&self) -> StreamStepModel {
        StreamStepModel {
            mark_consumed: self.mark_consumed,
            output: match self.output {
                Some(chunk) => Some(crate::frame::content(chunk)),
                None => None,
            },
            done: self.done,
        }
    }
}

/// The part that a frame is sent as; an empty frame is not sent.
pub open spec fn part_of(frame: Seq<u8>) -> Option<Seq<u8>> {
    if frame.len() == 0 {
        None
    } else {
        Some(crate::frame::mjpeg_part(frame))
    }
}

/// What a stream does on an event. At its beginning it tells the worker that it
/// is ready, with or without a frame; later only when it takes one.
pub open spec fn stream_transition(event: StreamEventModel) -> StreamStepModel {
    match event {
        StreamEventModel::Subscribed(frame) => StreamStepModel {
            mark_consumed: true,
            output: part_of(frame),
            done: false,
        },
        StreamEventModel::Changed(frame) => StreamStepModel {
            mark_consumed: frame.len() != 0,
            output: part_of(frame),
            done: false,
        },
        StreamEventModel::Closed => StreamStepModel {
            mark_consumed: false,
            output: None,
            done: true,
        },
    }
}

/// The part that a frame is sent as.
fn stream_part(frame: &Bytes) -> (r: Option<Bytes>)
    ensures
        match r {
            Some(chunk) => part_of(crate::frame::content(*frame)) == Some(
                crate::frame::content(chunk),
            ),
            None => part_of(crate::frame::content(*frame)) is None,
        },
{
    if slice_of(frame).len() == 0 {
        None
    } else {
        Some(build_mjpeg_chunk(frame))
    }
}

/// Decides what a stream does on an event.
pub fn stream_step(event: &StreamEvent) -> (r: StreamStep)
    ensures
        r@ == stream_transition(event@),
{
    match event {
        StreamEvent::Subscribed(frame) => StreamStep {
            mark_consumed: true,
            output: stream_part(frame),
            done: false,
        },
        StreamEvent::Changed(frame) => {
            let output: Option<Bytes> = stream_part(frame);
            StreamStep { mark_consumed: output.is_some(), output, done: false }
        },
        StreamEvent::Closed => StreamStep { mark_consumed: false, output: None, done: true },
    }
}

/// A stream sends every frame that is not empty, as one part, and nothing else;
/// what it sends it marks as taken; and it ends only where no more frames come.
pub proof fn law_stream_sends_every_frame(event: StreamEventModel)
    ensures
        ({
            let step = stream_transition(event);
            &&& step.done == (event is Closed)
            &&& step.output is Some ==> step.mark_consumed
            &&& event matches StreamEventModel::Subscribed(frame) ==> frame.len() > 0
                ==> step.output == Some(crate::frame::mjpeg_part(frame))
            &&& event matches StreamEventModel::Changed(frame) ==> frame.len() > 0 ==> step.output
                == Some(crate::frame::mjpeg_part(frame))
        }),
{
}

/// A request that is refused for what it asks is answered as a fault of the
/// client: an unknown camera that it does not configure is not found, anything
/// else is a bad request.
pub proof fn law_refusals_blame_the_client(
    cameras: Map<Seq<char>, crate::worker::WorkerModel>,
    camera_id: Seq<char>,
    query: Map<Seq<char>, Seq<char>>,
    headers: Map<Seq<char>, Seq<u8>>,
    reading: Option<u32>,
)
    ensures
        crate::manager::ensured_or_existing(cameras, camera_id, query, headers, reading).1 matches
            crate::manager::EnsureModel::Failed(error) ==> error_status(error) == (if
            !cameras.contains_key(camera_id) && !crate::request::names_bootstrap(query, headers) {
            404u16
        } else {
            400u16
        }),
{
}

/// Every camera has its state, its latest frame and its stream under both kinds of
/// path, and its actions under its own; the service has its health and the list of
/// cameras; and there is nothing else.
pub proof fn law_every_path_is_served()
    ensures
        serves(route_table(), "/api/v1/health"@, Endpoint::Health),
        serves(route_table(), "/api/v1/cameras"@, Endpoint::Cameras),
        serves(route_table(), "/api/v1/cameras/{camera_id}/state"@, Endpoint::State),
        serves(route_table(), "/api/v1/cameras/{camera_id}/snapshot.jpg"@, Endpoint::Snapshot),
        serves(route_table(), "/api/v1/cameras/{camera_id}/stream.mjpeg"@, Endpoint::Stream),
        serves(route_table(), "/{camera_id}/state"@, Endpoint::State),
        serves(route_table(), "/{camera_id}/snapshot"@, Endpoint::Snapshot),
        serves(route_table(), "/{camera_id}/stream"@, Endpoint::Stream),
        serves(route_table(), "/{camera_id}"@, Endpoint::Root),
        serves(route_table(), "/{camera_id}/"@, Endpoint::Root),
        route_table().len() == 10,
{
    let table = route_table();
    assert(table[0].0@ == "/api/v1/health"@);
    assert(table[1].0@ == "/api/v1/cameras"@);
    assert(table[2].0@ == "/api/v1/cameras/{camera_id}/state"@);
    assert(table[3].0@ == "/api/v1/cameras/{camera_id}/snapshot.jpg"@);
    assert(table[4].0@ == "/api/v1/cameras/{camera_id}/stream.mjpeg"@);
    assert(table[5].0@ == "/{camera_id}/state"@);
    assert(table[6].0@ == "/{camera_id}/snapshot"@);
    assert(table[7].0@ == "/{camera_id}/stream"@);
    assert(table[8].0@ == "/{camera_id}"@);
    assert(table[9].0@ == "/{camera_id}/"@);
}

/// The boundary that the content type of a stream names is the one that every part
/// of the stream starts with, behind two hyphens and before a line end.
pub proof fn law_parts_start_with_the_boundary(frame: Seq<u8>)
    ensures
        ({
            let announced = stream_content_type();
            let start = "multipart/x-mixed-replace; boundary="@;
            let boundary = announced.skip(start.len() as int);
            let part = crate::frame::mjpeg_part(frame);
            &&& announced.take(start.len() as int) == start
            &&& boundary.len() > 0
            &&& part.len() > boundary.len() + 4
            &&& part[0] == 45 && part[1] == 45
            &&& forall|i: int|
                0 <= i < boundary.len() ==> part[i + 2] as int == #[trigger] boundary[i] as int
            &&& part[boundary.len() + 2int] == 13 && part[boundary.len() + 3int] == 10
        }),
{
    reveal_strlit("multipart/x-mixed-replace; boundary=frame");
    reveal_strlit("multipart/x-mixed-replace; boundary=");
    reveal_strlit("--frame\r\nContent-Type: image/jpeg\r\nContent-Length: ");
    let start = "multipart/x-mixed-replace; boundary="@;
    let announced = stream_content_type();
    assert(announced.take(start.len() as int) =~= start);
    crate::frame::law_part_announces_its_length(frame);
}

/// The parameter `action` alone decides what the path of a camera serves: the
/// latest frame, the stream or the state, each by its name; without it, and for any
/// other name, nothing.
pub proof fn law_action_decides(
    query: Map<Seq<char>, Seq<char>>,
    action: Seq<char>,
    name: Seq<char>,
    value: Seq<char>,
)
    ensures
        action_endpoint(query.insert("action"@, "snapshot"@)) == Some(Endpoint::Snapshot),
        action_endpoint(query.insert("action"@, "stream"@)) == Some(Endpoint::Stream),
        action_endpoint(query.insert("action"@, "state"@)) == Some(Endpoint::State),
        action != "snapshot"@ && action != "stream"@ && action != "state"@ ==> action_endpoint(
            query.insert("action"@, action),
        ) is None,
        action_endpoint(query.remove("action"@)) is None,
        name != "action"@ ==> action_endpoint(query.insert(name, value)) == action_endpoint(query),
{
    reveal_strlit("snapshot");
    reveal_strlit("stream");
    reveal_strlit("state");
    assert("snapshot"@.len() == 8 && "stream"@.len() == 6 && "state"@.len() == 5);
    assert(query.insert("action"@, "snapshot"@)["action"@] == "snapshot"@);
    assert(query.insert("action"@, "stream"@)["action"@] == "stream"@);
    assert(query.insert("action"@, "state"@)["action"@] == "state"@);
    assert(query.insert("action"@, action)["action"@] == action);
}

/// A camera that is not found is answered with 404, a request that cannot be met as
/// it stands with 400, and a worker that cannot be started with 500, whatever the
/// errors tell of.
pub proof fn law_status_of_errors(detail: Seq<char>)
    ensures
        error_status(ErrorModel::CameraNotFound(detail)) == 404,
        error_status(ErrorModel::InvalidBootstrapField(detail)) == 400,
        error_status(ErrorModel::MissingBootstrapField(detail)) == 400,
        error_status(ErrorModel::UnsupportedCaptureEncoding(detail)) == 400,
        error_status(ErrorModel::WorkerInitialization(detail)) == 500,
{
}

/// The values of events and steps of a stream have the bytes of their buffers.
pub proof fn law_stream_values(event: StreamEvent, step: StreamStep)
    ensures
        match event {
            StreamEvent::Subscribed(frame) => event@ == StreamEventModel::Subscribed(
                crate::frame::content(frame),
            ),
            StreamEvent::Changed(frame) => event@ == StreamEventModel::Changed(
                crate::frame::content(frame),
            ),
            StreamEvent::Closed => event@ is Closed,
        },
        step@.mark_consumed == step.mark_consumed,
        step@.done == step.done,
        step.output matches Some(chunk) ==> step@.output == Some(crate::frame::content(chunk)),
        step.output is None ==> step@.output is None,
{
}

/// A stream tells its worker that it is ready when it begins, and later with every
/// frame that it takes. It sends each frame that holds anything, framed as one part,
/// and no empty one; and it goes on until no more frames come.
pub proof fn law_stream_goes_on(frame: Seq<u8>)
    ensures
        ({
            let step = stream_transition(StreamEventModel::Subscribed(frame));
            &&& step.mark_consumed
            &&& !step.done
            &&& frame.len() > 0 ==> step.output == Some(crate::frame::mjpeg_part(frame))
            &&& frame.len() == 0 ==> step.output is None
        }),
        ({
            let step = stream_transition(StreamEventModel::Changed(frame));
            &&& step.mark_consumed <==> frame.len() > 0
            &&& !step.done
            &&& frame.len() > 0 ==> step.output == Some(crate::frame::mjpeg_part(frame))
            &&& frame.len() == 0 ==> step.output is None
        }),
        ({
            let step = stream_transition(StreamEventModel::Closed);
            &&& !step.mark_consumed
            &&& step.done
            &&& step.output is None
        }),
{
}

} // verus!
