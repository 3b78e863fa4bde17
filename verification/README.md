# yv-streamer-software

A software MJPEG streamer for UVC cameras that deliver raw formats such as
`YUYV` instead of a stream that a browser can show.

## Layout

- `src/` is the library, verified with Verus.
  - `request`, `config`, `error`: what a request says of a camera, and the
    configuration that it asks for.
  - `worker`, `channel`, `capture`: the worker of a camera, the channel with its
    latest frame, and its capture loop as a machine of steps.
  - `manager`, `roster`: the cameras by id; when a worker is used again, replaced
    or refused, and the replaced workers whose capture loops still run.
  - `color`, `jpeg`, `frame`: conversion of frames to RGB and JPEG, and their
    framing in a multipart stream.
  - `app`: the routes, and what the endpoints answer.
  - `startup`: log filter, listen address, device names and the report at the
    start.
  - `text`, `decimal`: text as sequences of characters.
- `tests/` runs the library, with the outside crates that it calls.
- `app/` is the service: HTTP endpoints, capture threads and V4L2 devices.

## Laws

The public proof functions named `law_..` state what holds of the library as a
whole: for instance that a request repeated finds the worker that it started,
that a worker told to stop finishes, that replacing a worker loses no capture,
and that a published frame is the one that is shown.

## Frame rates

A frame rate that is a whole number is read by the library. Any other text, such
as `29.97`, is read with floating point by the service, which hands the outcome
to the library.
