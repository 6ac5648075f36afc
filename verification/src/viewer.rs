//! The camera viewer's state and its decisions: which camera is selected,
//! whether a stream runs, which images are shown, what the status line says,
//! and what to do with each message from the camera worker.
use vstd::prelude::*;

use crate::devices::{device_label, device_label_spec, CameraDevice, DeviceIndex};
use crate::frames::ProcessedFrame;
use crate::messages::{found_cameras_text, query_failed_text};
use crate::tracker::{pushed, ChiSquareTracker};
use crate::worker::StreamMessage;

verus! {

/// The most messages the viewer takes from the worker per repaint.
pub const MAX_MESSAGES_PER_DRAIN: usize = 8;

/// What polling the worker's channel gave.
pub enum ChannelPoll {
    /// A message.
    Received(StreamMessage),
    /// Nothing waiting.
    Empty,
    /// The worker has gone.
    Disconnected,
}

/// The progress of taking the waiting messages from the worker.
pub struct Drain {
    /// How many times the channel was polled.
    pub polls: usize,
    /// The newest frame received.
    pub latest_frame: Option<ProcessedFrame>,
    /// Whether the worker turned out to be gone.
    pub disconnected: bool,
    /// Whether polling has stopped before the limit.
    pub finished: bool,
}

/// A camera to start: whether a running stream must be told to stop first,
/// and the index and label of the camera.
pub struct StartRequest {
    pub stop_previous: bool,
    pub index: DeviceIndex,
    pub label: String,
}

/// The viewer: the cameras found, the selection, whether a stream runs,
/// whether a camera image and a difference image are shown, the chi-square
/// tracker over the differences, and the status line.
pub struct CameraViewer {
    pub devices: Vec<CameraDevice>,
    pub selected_device: Option<usize>,
    pub streaming: bool,
    pub has_frame_texture: bool,
    pub has_difference_texture: bool,
    pub difference_chi_square: ChiSquareTracker,
    pub status: String,
}

/// The selection after the device list was refreshed to `n` devices: none
/// without devices, the previous one if still in range, else the first.
pub open spec fn selection_after_refresh(previous: Option<usize>, n: nat) -> Option<usize> {
    if n == 0 {
        None
    } else {
        match previous {
            Some(i) => if i < n {
                Some(i)
            } else {
                Some(0)
            },
            None => Some(0),
        }
    }
}

/// Whether `selection` is none or an index into `n` devices.
pub open spec fn selection_in_range(selection: Option<usize>, n: nat) -> bool {
    match selection {
        Some(i) => i < n,
        None => true,
    }
}

/// A refresh that still lists the selected device keeps it selected; the
/// first device is selected only when nothing was selected or the selection
/// is no longer listed.
pub proof fn lemma_refresh_keeps_listed_selection(previous: Option<usize>, n: nat)
    requires
        n > 0,
    ensures
        previous matches Some(i) && i < n ==> selection_after_refresh(previous, n) == previous,
        selection_after_refresh(previous, n) == Some(0usize) ==> (previous is None || previous
            == Some(0usize) || previous->0 >= n),
        selection_after_refresh(previous, n) is Some,
{
}

/// The refreshed selection is in range, and is none exactly when no device
/// was found.
pub proof fn lemma_refresh_selection_in_range(previous: Option<usize>, n: nat)
    ensures
        selection_in_range(selection_after_refresh(previous, n), n),
        selection_after_refresh(previous, n) is None <==> n == 0,
{
}

impl CameraViewer {
    /// The tracker is well formed and the selection is in range.
    pub open spec fn well_formed(&self) -> bool {
        &&& self.difference_chi_square.well_formed()
        &&& selection_in_range(self.selected_device, self.devices@.len())
    }

    /// Whether the "Start camera" button is enabled.
    pub open spec fn can_start_spec(&self) -> bool {
        self.selected_device.is_some() && self.devices@.len() > 0
    }

    /// The state after the stream is stopped: no stream, no images, an empty
    /// tracker; devices, selection and status as in `before`.
    pub open spec fn stopped_from(&self, before: CameraViewer) -> bool {
        &&& !self.streaming
        &&& !self.has_frame_texture
        &&& !self.has_difference_texture
        &&& self.difference_chi_square.well_formed()
        &&& self.difference_chi_square.pending@.len() == 0
        &&& self.difference_chi_square.history@.len() == 0
        &&& self.devices@ == before.devices@
        &&& self.selected_device == before.selected_device
        &&& self.status@ == before.status@
    }

    /// A viewer with no devices, no selection, no stream and an empty status.
    pub fn new() -> (v: Self)
        ensures
            v.well_formed(),
            v.devices@.len() == 0,
            v.selected_device.is_none(),
            !v.streaming,
            !v.has_frame_texture,
            !v.has_difference_texture,
            v.difference_chi_square.pending@.len() == 0,
            v.difference_chi_square.history@.len() == 0,
            v.status@.len() == 0,
    {
        CameraViewer {
            devices: Vec::new(),
            selected_device: None,
            streaming: false,
            has_frame_texture: false,
            has_difference_texture: false,
            difference_chi_square: ChiSquareTracker::new(),
            status: String::new(),
        }
    }

    /// Whether a camera can be started: one is selected and some are listed.
    pub fn can_start(&self) -> (b: bool)
        ensures
            b == self.can_start_spec(),
            b == (self.selected_device.is_some() && self.devices@.len() >= 1),
    {
        self.selected_device.is_some() && !self.devices.is_empty()
    }

    /// The text of the device selector: the selected device's label, or
    /// "No camera selected".
    pub fn selected_device_text(&self) -> (s: String)
        ensures
            s@ == match self.selected_device {
                Some(i) => if i < self.devices@.len() {
                    device_label_spec(self.devices@[i as int])
                } else {
                    "No camera selected"@
                },
                None => "No camera selected"@,
            },
    {
        match self.selected_device {
            Some(i) => {
                if i < self.devices.len() {
                    device_label(&self.devices[i])
                } else {
                    String::from_str("No camera selected")
                }
            },
            None => String::from_str("No camera selected"),
        }
    }

    /// Selects the device at `index`, one of those listed.
    pub fn select_device(&mut self, index: usize)
        requires
            old(self).well_formed(),
            index < old(self).devices@.len(),
        ensures
            final(self).well_formed(),
            final(self).selected_device == Some(index),
            final(self).devices@ == old(self).devices@,
            final(self).streaming == old(self).streaming,
            final(self).has_frame_texture == old(self).has_frame_texture,
            final(self).has_difference_texture == old(self).has_difference_texture,
            final(self).difference_chi_square == old(self).difference_chi_square,
            final(self).status@ == old(self).status@,
    {
        self.selected_device = Some(index);
    }

    /// Stops the stream, if any, and drops the shown images and the tracker's
    /// data. Returns whether a stream was running, which must then be told to
    /// stop.
    pub fn stop_camera(&mut self) -> (was_streaming: bool)
        requires
            old(self).well_formed(),
        ensures
            final(self).well_formed(),
            was_streaming == old(self).streaming,
            final(self).stopped_from(*old(self)),
    {
        let was_streaming = self.streaming;
        self.streaming = false;
        self.has_frame_texture = false;
        self.has_difference_texture = false;
        self.difference_chi_square.clear();
        was_streaming
    }

    /// Takes the result of looking for cameras. With a list, it replaces the
    /// devices, refreshes the selection and reports how many were found; with
    /// an error, it clears the devices and the selection, stops the stream and
    /// reports the error. Returns whether a running stream must be told to stop.
    pub fn apply_device_query(&mut self, result: Result<Vec<CameraDevice>, String>) -> (stop_stream: bool)
        requires
            old(self).well_formed(),
        ensures
            final(self).well_formed(),
            match result {
                Ok(devices) => {
                    &&& !stop_stream
                    &&& final(self).devices@ == devices@
                    &&& final(self).selected_device == selection_after_refresh(
                        old(self).selected_device,
                        devices@.len(),
                    )
                    &&& (old(self).selected_device matches Some(i) && i < devices@.len()
                        ==> final(self).selected_device == old(self).selected_device)
                    &&& final(self).status@ == if devices@.len() == 0 {
                        "No cameras found."@
                    } else {
                        "Found "@ + crate::decimal::decimal(devices@.len()) + " camera(s)."@
                    }
                    &&& final(self).streaming == old(self).streaming
                    &&& final(self).has_frame_texture == old(self).has_frame_texture
                    &&& final(self).has_difference_texture == old(self).has_difference_texture
                    &&& final(self).difference_chi_square == old(self).difference_chi_square
                },
                Err(e) => {
                    &&& stop_stream == old(self).streaming
                    &&& final(self).devices@.len() == 0
                    &&& final(self).selected_device.is_none()
                    &&& final(self).status@ == "Could not query cameras: "@ + e@
                    &&& !final(self).streaming
                    &&& !final(self).has_frame_texture
                    &&& !final(self).has_difference_texture
                    &&& final(self).difference_chi_square.pending@.len() == 0
                    &&& final(self).difference_chi_square.history@.len() == 0
                },
            },
    {
        match result {
            Ok(devices) => {
                let n = devices.len();
                self.devices = devices;
                self.selected_device = if n == 0 {
                    None
                } else {
                    match self.selected_device {
                        Some(i) => if i < n {
                            Some(i)
                        } else {
                            Some(0)
                        },
                        None => Some(0),
                    }
                };
                self.status = if n == 0 {
                    String::from_str("No cameras found.")
                } else {
                    found_cameras_text(n)
                };
                false
            },
            Err(error) => {
                self.devices.clear();
                self.selected_device = None;
                let stop_stream = self.stop_camera();
                self.status = query_failed_text(error.as_str());
                stop_stream
            },
        }
    }

    /// Starts the selected camera. Without a selection, or with one no longer
    /// listed, it only says so in the status line and returns `None`.
    /// Otherwise it stops any running stream, drops the images and the
    /// tracker's data, marks a stream as running, says "Starting camera..."
    /// and returns the camera to start.
    pub fn start_selected_camera(&mut self) -> (request: Option<StartRequest>)
        requires
            old(self).well_formed(),
        ensures
            final(self).well_formed(),
            final(self).devices@ == old(self).devices@,
            final(self).selected_device == old(self).selected_device,
            match old(self).selected_device {
                None => {
                    &&& request is None
                    &&& final(self).status@ == "Choose a camera first."@
                    &&& final(self).streaming == old(self).streaming
                    &&& final(self).has_frame_texture == old(self).has_frame_texture
                    &&& final(self).has_difference_texture == old(self).has_difference_texture
                    &&& final(self).difference_chi_square == old(self).difference_chi_square
                },
                Some(i) => if i >= old(self).devices@.len() {
                    &&& request is None
                    &&& final(self).status@ == "Selected camera is no longer available."@
                    &&& final(self).streaming == old(self).streaming
                    &&& final(self).has_frame_texture == old(self).has_frame_texture
                    &&& final(self).has_difference_texture == old(self).has_difference_texture
                    &&& final(self).difference_chi_square == old(self).difference_chi_square
                } else {
                    &&& request matches Some(r) && {
                        &&& r.stop_previous == old(self).streaming
                        &&& r.index == old(self).devices@[i as int].index
                        &&& r.label@ == device_label_spec(old(self).devices@[i as int])
                    }
                    &&& final(self).status@ == "Starting camera..."@
                    &&& final(self).streaming
                    &&& !final(self).has_frame_texture
                    &&& !final(self).has_difference_texture
                    &&& final(self).difference_chi_square.pending@.len() == 0
                    &&& final(self).difference_chi_square.history@.len() == 0
                },
            },
    {
        let device_index = match self.selected_device {
            Some(i) => i,
            None => {
                self.status = String::from_str("Choose a camera first.");
                return None;
            },
        };
        if device_index >= self.devices.len() {
            self.status = String::from_str("Selected camera is no longer available.");
            return None;
        }
        let index = self.devices[device_index].index.duplicate();
        let label = device_label(&self.devices[device_index]);
        let stop_previous = self.stop_camera();
        self.streaming = true;
        self.has_frame_texture = false;
        self.has_difference_texture = false;
        self.difference_chi_square.clear();
        self.status = String::from_str("Starting camera...");
        Some(StartRequest { stop_previous, index, label })
    }

    /// A drain that has polled nothing yet.
    pub fn begin_drain(&self) -> (d: Drain)
        ensures
            d.polls == 0,
            d.latest_frame.is_none(),
            !d.disconnected,
            !d.finished,
    {
        Drain { polls: 0, latest_frame: None, disconnected: false, finished: false }
    }

    /// Whether to poll the worker's channel again: a stream runs, polling has
    /// not stopped, and fewer than the limit of polls were made.
    pub fn should_poll(&self, drain: &Drain) -> (b: bool)
        ensures
            b == (self.streaming && !drain.finished && drain.polls < MAX_MESSAGES_PER_DRAIN),
    {
        self.streaming && !drain.finished && drain.polls < MAX_MESSAGES_PER_DRAIN
    }

    /// Takes one poll of the worker's channel. A status replaces the status
    /// line; a frame replaces the newest frame; an error replaces the status
    /// line, ends the stream, drops the images and stops polling; an empty
    /// channel stops polling; a gone worker stops polling and is remembered.
    pub fn drain_step(&mut self, drain: &mut Drain, poll: ChannelPoll)
        requires
            old(self).well_formed(),
            old(drain).polls < MAX_MESSAGES_PER_DRAIN,
        ensures
            final(self).well_formed(),
            final(drain).polls == old(drain).polls + 1,
            final(self).devices@ == old(self).devices@,
            final(self).selected_device == old(self).selected_device,
            final(self).difference_chi_square == old(self).difference_chi_square,
            match poll {
                ChannelPoll::Empty => {
                    &&& final(drain).finished
                    &&& final(drain).disconnected == old(drain).disconnected
                    &&& final(drain).latest_frame == old(drain).latest_frame
                    &&& final(self).status@ == old(self).status@
                    &&& final(self).streaming == old(self).streaming
                    &&& final(self).has_frame_texture == old(self).has_frame_texture
                    &&& final(self).has_difference_texture == old(self).has_difference_texture
                },
                ChannelPoll::Disconnected => {
                    &&& final(drain).finished
                    &&& final(drain).disconnected
                    &&& final(drain).latest_frame == old(drain).latest_frame
                    &&& final(self).status@ == old(self).status@
                    &&& final(self).streaming == old(self).streaming
                    &&& final(self).has_frame_texture == old(self).has_frame_texture
                    &&& final(self).has_difference_texture == old(self).has_difference_texture
                },
                ChannelPoll::Received(StreamMessage::Status(s)) => {
                    &&& final(drain).finished == old(drain).finished
                    &&& final(drain).disconnected == old(drain).disconnected
                    &&& final(drain).latest_frame == old(drain).latest_frame
                    &&& final(self).status@ == s@
                    &&& final(self).streaming == old(self).streaming
                    &&& final(self).has_frame_texture == old(self).has_frame_texture
                    &&& final(self).has_difference_texture == old(self).has_difference_texture
                },
                ChannelPoll::Received(StreamMessage::Frame(f)) => {
                    &&& final(drain).finished == old(drain).finished
                    &&& final(drain).disconnected == old(drain).disconnected
                    &&& final(drain).latest_frame == Some(f)
                    &&& final(self).status@ == old(self).status@
                    &&& final(self).streaming == old(self).streaming
                    &&& final(self).has_frame_texture == old(self).has_frame_texture
                    &&& final(self).has_difference_texture == old(self).has_difference_texture
                },
                ChannelPoll::Received(StreamMessage::Error(e)) => {
                    &&& final(drain).finished
                    &&& final(drain).disconnected == old(drain).disconnected
                    &&& final(drain).latest_frame == old(drain).latest_frame
                    &&& final(self).status@ == e@
                    &&& !final(self).streaming
                    &&& !final(self).has_frame_texture
                    &&& !final(self).has_difference_texture
                },
            },
    {
        drain.polls = drain.polls + 1;
        match poll {
            ChannelPoll::Empty => {
                drain.finished = true;
            },
            ChannelPoll::Disconnected => {
                drain.disconnected = true;
                drain.finished = true;
            },
            ChannelPoll::Received(message) => match message {
                StreamMessage::Status(status) => {
                    self.status = status;
                },
                StreamMessage::Frame(frame) => {
                    drain.latest_frame = Some(frame);
                },
                StreamMessage::Error(error) => {
                    self.status = error;
                    self.streaming = false;
                    self.has_frame_texture = false;
                    self.has_difference_texture = false;
                    drain.finished = true;
                },
            },
        }
    }

    /// Ends a drain: the stream ends if the worker has gone, and the newest
    /// frame, if any, is returned to be shown.
    pub fn finish_drain(&mut self, drain: Drain) -> (frame: Option<ProcessedFrame>)
        requires
            old(self).well_formed(),
        ensures
            final(self).well_formed(),
            frame == drain.latest_frame,
            final(self).streaming == (old(self).streaming && !drain.disconnected),
            final(self).devices@ == old(self).devices@,
            final(self).selected_device == old(self).selected_device,
            final(self).has_frame_texture == old(self).has_frame_texture,
            final(self).has_difference_texture == old(self).has_difference_texture,
            final(self).difference_chi_square == old(self).difference_chi_square,
            final(self).status@ == old(self).status@,
    {
        if drain.disconnected {
            self.streaming = false;
        }
        drain.latest_frame
    }

    /// Records that `frame` is shown: the camera image is present; with a
    /// difference, the difference image is present and its bytes are pushed
    /// onto the chi-square tracker; without one, the difference image is
    /// dropped.
    pub fn record_frame_upload(&mut self, frame: &ProcessedFrame)
        requires
            old(self).well_formed(),
        ensures
            final(self).well_formed(),
            final(self).has_frame_texture,
            final(self).devices@ == old(self).devices@,
            final(self).selected_device == old(self).selected_device,
            final(self).streaming == old(self).streaming,
            final(self).status@ == old(self).status@,
            match frame.diff_pixels {
                Some(d) => {
                    &&& final(self).has_difference_texture
                    &&& (final(self).difference_chi_square.pending@,
                        final(self).difference_chi_square.history@) == pushed(
                        old(self).difference_chi_square.pending@,
                        old(self).difference_chi_square.history@,
                        d@,
                    )
                },
                None => {
                    &&& !final(self).has_difference_texture
                    &&& final(self).difference_chi_square == old(self).difference_chi_square
                },
            },
    {
        self.has_frame_texture = true;
        match &frame.diff_pixels {
            Some(diff) => {
                self.difference_chi_square.push_bytes(diff.as_slice());
                self.has_difference_texture = true;
            },
            None => {
                self.has_difference_texture = false;
            },
        }
    }
}

/// In a well-formed viewer, "Start camera" is enabled exactly when starting
/// would open a camera: a device is selected and it is listed. With a single
/// listed and selected camera the button is enabled.
pub proof fn lemma_can_start_iff_start_opens(v: CameraViewer)
    requires
        v.well_formed(),
    ensures
        v.can_start_spec() <==> (v.selected_device matches Some(i) && i < v.devices@.len()),
        v.devices@.len() == 1 && v.selected_device == Some(0usize) ==> v.can_start_spec(),
{
}

/// With a well-formed viewer, an enabled "Start camera" button always starts
/// a camera: the selection is listed.
pub proof fn lemma_can_start_selects_listed(v: CameraViewer)
    requires
        v.well_formed(),
        v.can_start_spec(),
    ensures
        v.selected_device matches Some(i) && i < v.devices@.len(),
{
}

} // verus!
