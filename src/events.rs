//! Event notifications from the browser to the engine: ordered queues that
//! browser callbacks append to and the engine drains once per frame, and the
//! state those events update.
use vstd::prelude::*;
use crate::frame::DragState;

verus! {

/// A page-loading notification.
#[derive(Clone, Debug)]
pub enum LoadingStateEvent {
    Started { url: String },
    Finished { url: String, http_status_code: i32 },
    Error { url: String, error_code: i32, error_text: String },
}

/// Where the IME caret is, for positioning the candidate window.
#[derive(Clone, Copy, Debug, PartialEq, Eq, Structural)]
pub struct ImeCompositionRange {
    pub caret_x: i32,
    pub caret_y: i32,
    pub caret_height: i32,
}

#[derive(Clone, Debug)]
pub struct ConsoleMessageEvent {
    pub level: u32,
    pub message: String,
    pub source: String,
    pub line: i32,
}

/// What is being dragged.
#[derive(Clone, Debug, Default)]
pub struct DragDataInfo {
    pub is_link: bool,
    pub is_file: bool,
    pub is_fragment: bool,
    pub link_url: String,
    pub link_title: String,
    pub fragment_text: String,
    pub fragment_html: String,
    pub file_names: Vec<String>,
}

#[derive(Clone, Debug)]
pub enum DragEvent {
    Started { drag_data: DragDataInfo, x: i32, y: i32, allowed_ops: u32 },
    UpdateCursor { operation: u32 },
    Entered { drag_data: DragDataInfo, mask: u32 },
}

#[derive(Clone, Debug)]
pub struct DownloadRequestEvent {
    pub id: u32,
    pub url: String,
    pub original_url: String,
    pub suggested_file_name: String,
    pub mime_type: String,
    pub total_bytes: i64,
}

#[derive(Clone, Debug)]
pub struct DownloadUpdateEvent {
    pub id: u32,
    pub url: String,
    pub full_path: String,
    pub received_bytes: i64,
    pub total_bytes: i64,
    pub current_speed: i64,
    pub percent_complete: i32,
    pub is_in_progress: bool,
    pub is_complete: bool,
    pub is_canceled: bool,
}

/// The browser-to-engine event queues, oldest event first. Callbacks
/// append; the engine drains all of them at once, once per frame. The IME
/// composition range is a last-value-wins cell, not a queue.
#[derive(Debug, Default)]
pub struct EventQueues {
    pub messages: Vec<String>,
    pub binary_messages: Vec<Vec<u8>>,
    pub url_changes: Vec<String>,
    pub title_changes: Vec<String>,
    pub loading_states: Vec<LoadingStateEvent>,
    pub ime_enables: Vec<bool>,
    pub ime_composition_range: Option<ImeCompositionRange>,
    pub console_messages: Vec<ConsoleMessageEvent>,
    pub drag_events: Vec<DragEvent>,
    pub download_requests: Vec<DownloadRequestEvent>,
    pub download_updates: Vec<DownloadUpdateEvent>,
}

impl EventQueues {
    pub fn new() -> (r: EventQueues)
        ensures
            r.is_empty_spec(),
    {
        EventQueues {
            messages: Vec::new(),
            binary_messages: Vec::new(),
            url_changes: Vec::new(),
            title_changes: Vec::new(),
            loading_states: Vec::new(),
            ime_enables: Vec::new(),
            ime_composition_range: None,
            console_messages: Vec::new(),
            drag_events: Vec::new(),
            download_requests: Vec::new(),
            download_updates: Vec::new(),
        }
    }

    /// No event is queued.
    pub open spec fn is_empty_spec(&self) -> bool {
        &&& self.messages@.len() == 0
        &&& self.binary_messages@.len() == 0
        &&& self.url_changes@.len() == 0
        &&& self.title_changes@.len() == 0
        &&& self.loading_states@.len() == 0
        &&& self.ime_enables@.len() == 0
        &&& self.ime_composition_range is None
        &&& self.console_messages@.len() == 0
        &&& self.drag_events@.len() == 0
        &&& self.download_requests@.len() == 0
        &&& self.download_updates@.len() == 0
    }
}

fn take_all<T>(v: &mut Vec<T>) -> (r: Vec<T>)
    ensures
        r@ == old(v)@,
        final(v)@.len() == 0,
{
    let mut out: Vec<T> = Vec::new();
    std::mem::swap(&mut out, v);
    out
}

/// Every event drained from the queues in one go, so that the lock on them
/// can be released before the events are handled.
#[derive(Debug, Default)]
pub struct DrainedEvents {
    pub messages: Vec<String>,
    pub binary_messages: Vec<Vec<u8>>,
    pub url_changes: Vec<String>,
    pub title_changes: Vec<String>,
    pub loading_states: Vec<LoadingStateEvent>,
    pub ime_enables: Vec<bool>,
    pub ime_composition_range: Option<ImeCompositionRange>,
    pub console_messages: Vec<ConsoleMessageEvent>,
    pub drag_events: Vec<DragEvent>,
    pub download_requests: Vec<DownloadRequestEvent>,
    pub download_updates: Vec<DownloadUpdateEvent>,
}

impl DrainedEvents {
    /// Takes every queued event, in order, leaving the queues empty.
    pub fn drain_from(queues: &mut EventQueues) -> (r: DrainedEvents)
        ensures
            r.messages@ == old(queues).messages@,
            r.binary_messages@ == old(queues).binary_messages@,
            r.url_changes@ == old(queues).url_changes@,
            r.title_changes@ == old(queues).title_changes@,
            r.loading_states@ == old(queues).loading_states@,
            r.ime_enables@ == old(queues).ime_enables@,
            r.ime_composition_range == old(queues).ime_composition_range,
            r.console_messages@ == old(queues).console_messages@,
            r.drag_events@ == old(queues).drag_events@,
            r.download_requests@ == old(queues).download_requests@,
            r.download_updates@ == old(queues).download_updates@,
            final(queues).is_empty_spec(),
    {
        let ime_composition_range = queues.ime_composition_range;
        queues.ime_composition_range = None;
        DrainedEvents {
            messages: take_all(&mut queues.messages),
            binary_messages: take_all(&mut queues.binary_messages),
            url_changes: take_all(&mut queues.url_changes),
            title_changes: take_all(&mut queues.title_changes),
            loading_states: take_all(&mut queues.loading_states),
            ime_enables: take_all(&mut queues.ime_enables),
            ime_composition_range,
            console_messages: take_all(&mut queues.console_messages),
            drag_events: take_all(&mut queues.drag_events),
            download_requests: take_all(&mut queues.download_requests),
            download_updates: take_all(&mut queues.download_updates),
        }
    }
}

/// What the IME should do after a frame's enable/disable requests.
#[derive(Clone, Copy, Debug, PartialEq, Eq, Structural)]
pub enum ImeAction {
    Activate,
    Deactivate,
    Stay,
}

/// The latest request wins: it activates an inactive IME or deactivates an
/// active one; with no request, or one that matches the current state,
/// nothing changes.
pub fn ime_action(requests: &[bool], active: bool) -> (r: ImeAction)
    ensures
        requests@.len() == 0 ==> r == ImeAction::Stay,
        requests@.len() > 0 && requests@.last() && !active ==> r == ImeAction::Activate,
        requests@.len() > 0 && !requests@.last() && active ==> r == ImeAction::Deactivate,
        requests@.len() > 0 && requests@.last() == active ==> r == ImeAction::Stay,
{
    let n = requests.len();
    if n == 0 {
        return ImeAction::Stay;
    }
    let enable = requests[n - 1];
    if enable && !active {
        ImeAction::Activate
    } else if !enable && active {
        ImeAction::Deactivate
    } else {
        ImeAction::Stay
    }
}

impl DragState {
    /// Applies a drag event: a drag started in the browser records that
    /// and its allowed operations; a drag entering the browser marks it as
    /// dragged over; a cursor update changes nothing.
    pub fn apply(&mut self, event: &DragEvent)
        ensures
            event matches DragEvent::Started { allowed_ops, .. } ==> *final(self) == (DragState {
                is_dragging_from_browser: true,
                allowed_ops: *allowed_ops,
                ..*old(self)
            }),
            event matches DragEvent::Entered { .. } ==> *final(self) == (DragState {
                is_drag_over: true,
                ..*old(self)
            }),
            event matches DragEvent::UpdateCursor { .. } ==> *final(self) == *old(self),
    {
        match event {
            DragEvent::Started { allowed_ops, .. } => {
                self.is_dragging_from_browser = true;
                self.allowed_ops = *allowed_ops;
            },
            DragEvent::Entered { .. } => {
                self.is_drag_over = true;
            },
            DragEvent::UpdateCursor { .. } => {},
        }
    }
}

} // verus!
