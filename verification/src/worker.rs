//! The decisions of the camera worker: what it sends to the viewer on each
//! outcome of the camera, whether it goes on, and how it pairs each frame
//! with the previous one to difference them.
use vstd::prelude::*;

use crate::frames::{
    absolute_frame_difference,
    copy_bytes,
    frame_difference,
    ProcessedFrame,
    RgbFrame,
};
use crate::messages::{
    create_camera_failed_text,
    decode_frame_failed_text,
    open_stream_failed_text,
    read_frame_failed_text,
    streaming_text,
    streaming_text_spec,
};

verus! {

/// What the worker sends to the viewer.
pub enum StreamMessage {
    /// A status line to show.
    Status(String),
    /// A new frame.
    Frame(ProcessedFrame),
    /// An error that ended the stream.
    Error(String),
}

/// What happened at the camera, as the worker saw it.
pub enum WorkerEvent {
    /// The camera could not be created; the text describes the error.
    CameraCreateFailed(String),
    /// The stream could not be opened; the text describes the error.
    StreamOpenFailed(String),
    /// The stream opened with this format.
    StreamOpened { width: u32, height: u32, frame_rate: u32 },
    /// A frame could not be read; the text describes the error.
    FrameReadFailed(String),
    /// A frame could not be decoded; the text describes the error.
    FrameDecodeFailed(String),
    /// A frame was read and decoded to RGB.
    FrameDecoded { width: u32, height: u32, pixels: Vec<u8> },
}

/// What the worker does next: the message it sends, and whether it goes on.
pub struct WorkerAction {
    pub message: StreamMessage,
    pub keep_running: bool,
}

/// The camera worker's state: the camera's label and the last frame read.
pub struct CameraWorker {
    pub label: String,
    pub previous_frame: Option<RgbFrame>,
}

/// Whether a new frame of the given size and pixels is differenced against
/// `previous`: it must exist and have the same size and byte count.
pub open spec fn differs_from_previous(
    previous: Option<RgbFrame>,
    width: usize,
    height: usize,
    pixels: Seq<u8>,
) -> bool {
    match previous {
        Some(p) => p.width == width && p.height == height && p.pixels@.len() == pixels.len(),
        None => false,
    }
}

/// A new frame is differenced exactly when a previous frame exists with the
/// same width, height and byte count, whatever the pixel values.
pub proof fn lemma_same_size_frames_are_differenced(
    previous: Option<RgbFrame>,
    width: usize,
    height: usize,
    pixels: Seq<u8>,
)
    ensures
        differs_from_previous(previous, width, height, pixels) <==> (previous matches Some(p)
            && p.width == width && p.height == height && p.pixels@.len() == pixels.len()),
{
}

/// The time the worker waits after a frame that took `elapsed_nanos`, so that
/// frames are at least 16 ms apart.
pub fn frame_pacing_delay_nanos(elapsed_nanos: u128) -> (d: u128)
    ensures
        d == if elapsed_nanos < 16_000_000 {
            16_000_000 - elapsed_nanos
        } else {
            0
        },
{
    if elapsed_nanos < 16_000_000 {
        16_000_000 - elapsed_nanos
    } else {
        0
    }
}

impl CameraWorker {
    /// A worker for the camera labelled `label`, with no frame yet.
    pub fn new(label: String) -> (w: Self)
        ensures
            w.label == label,
            w.previous_frame.is_none(),
    {
        CameraWorker { label, previous_frame: None }
    }

    /// Decides what to send and whether to go on after `event`. Errors end the
    /// stream with their text; an opened stream reports its format; a decoded
    /// frame is sent with its difference to the previous frame when the sizes
    /// match, and becomes the previous frame.
    pub fn step(&mut self, event: WorkerEvent) -> (action: WorkerAction)
        ensures
            final(self).label == old(self).label,
            match event {
                WorkerEvent::CameraCreateFailed(e) => {
                    &&& action.message matches StreamMessage::Error(s) && s@
                        == "Could not create camera: "@ + e@
                    &&& !action.keep_running
                    &&& final(self).previous_frame == old(self).previous_frame
                },
                WorkerEvent::StreamOpenFailed(e) => {
                    &&& action.message matches StreamMessage::Error(s) && s@
                        == "Could not open camera stream: "@ + e@
                    &&& !action.keep_running
                    &&& final(self).previous_frame == old(self).previous_frame
                },
                WorkerEvent::StreamOpened { width, height, frame_rate } => {
                    &&& action.message matches StreamMessage::Status(s) && s@ == streaming_text_spec(
                        old(self).label@,
                        width as nat,
                        height as nat,
                        frame_rate as nat,
                    )
                    &&& action.keep_running
                    &&& final(self).previous_frame == old(self).previous_frame
                },
                WorkerEvent::FrameReadFailed(e) => {
                    &&& action.message matches StreamMessage::Error(s) && s@
                        == "Could not read frame: "@ + e@
                    &&& !action.keep_running
                    &&& final(self).previous_frame == old(self).previous_frame
                },
                WorkerEvent::FrameDecodeFailed(e) => {
                    &&& action.message matches StreamMessage::Error(s) && s@
                        == "Could not decode frame: "@ + e@
                    &&& !action.keep_running
                    &&& final(self).previous_frame == old(self).previous_frame
                },
                WorkerEvent::FrameDecoded { width, height, pixels } => {
                    &&& action.keep_running
                    &&& action.message matches StreamMessage::Frame(f) && {
                        &&& f.width == width as usize
                        &&& f.height == height as usize
                        &&& f.pixels@ == pixels@
                        &&& if differs_from_previous(
                            old(self).previous_frame,
                            width as usize,
                            height as usize,
                            pixels@,
                        ) {
                            f.diff_pixels matches Some(d) && d@ == frame_difference(
                                pixels@,
                                old(self).previous_frame.unwrap().pixels@,
                            )
                        } else {
                            f.diff_pixels is None
                        }
                    }
                    &&& (old(self).previous_frame matches Some(p) && p.width == width as usize
                        && p.height == height as usize && p.pixels@.len() == pixels@.len()) ==> (
                    action.message matches StreamMessage::Frame(f) && f.diff_pixels matches Some(d)
                        && d@ == frame_difference(
                        pixels@,
                        old(self).previous_frame.unwrap().pixels@,
                    ))
                    &&& final(self).previous_frame matches Some(p) && p.width == width as usize
                        && p.height == height as usize && p.pixels@ == pixels@
                },
            },
    {
        match event {
            WorkerEvent::CameraCreateFailed(e) => WorkerAction {
                message: StreamMessage::Error(create_camera_failed_text(e.as_str())),
                keep_running: false,
            },
            WorkerEvent::StreamOpenFailed(e) => WorkerAction {
                message: StreamMessage::Error(open_stream_failed_text(e.as_str())),
                keep_running: false,
            },
            WorkerEvent::StreamOpened { width, height, frame_rate } => WorkerAction {
                message: StreamMessage::Status(
                    streaming_text(self.label.as_str(), width, height, frame_rate),
                ),
                keep_running: true,
            },
            WorkerEvent::FrameReadFailed(e) => WorkerAction {
                message: StreamMessage::Error(read_frame_failed_text(e.as_str())),
                keep_running: false,
            },
            WorkerEvent::FrameDecodeFailed(e) => WorkerAction {
                message: StreamMessage::Error(decode_frame_failed_text(e.as_str())),
                keep_running: false,
            },
            WorkerEvent::FrameDecoded { width, height, pixels } => {
                let width = width as usize;
                let height = height as usize;
                let diff_pixels = match &self.previous_frame {
                    Some(previous) => {
                        if previous.width == width && previous.height == height
                            && previous.pixels.len() == pixels.len() {
                            Some(
                                absolute_frame_difference(
                                    pixels.as_slice(),
                                    previous.pixels.as_slice(),
                                ),
                            )
                        } else {
                            None
                        }
                    },
                    None => None,
                };
                self.previous_frame = Some(
                    RgbFrame { width, height, pixels: copy_bytes(&pixels) },
                );
                WorkerAction {
                    message: StreamMessage::Frame(
                        ProcessedFrame { width, height, pixels, diff_pixels },
                    ),
                    keep_running: true,
                }
            },
        }
    }
}

} // verus!
