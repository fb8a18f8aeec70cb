//! Decisions of the clipboard change monitor: what each detection cycle emits and
//! whether watching goes on.
//!
//! The blocking wait for the next change belongs to the caller, which hands each
//! outcome to `ClipboardMonitor` and delivers the notification it returns.

use vstd::prelude::*;

verus! {

/// The topic of the notification sent on a clipboard change.
pub const UPDATE_TOPIC: &'static str = "plugin:clipboard://clipboard-monitor/update";

/// The topic of the notification sent when change detection fails.
pub const ERROR_TOPIC: &'static str = "plugin:clipboard://clipboard-monitor/error";

/// The fixed payload of an update notification.
pub const UPDATE_PAYLOAD: &'static str = "clipboard update";

/// The outcome of one detection cycle.
#[derive(Debug, Clone, PartialEq, Eq)]
pub enum Detection {
    /// The clipboard content changed.
    Changed,
    /// Detection failed; the text describes the failure.
    Failed(String),
}

/// A notification for the host's event sink.
#[derive(Debug, Clone, PartialEq, Eq)]
pub enum Notification {
    /// The clipboard content changed; the payload is fixed.
    Update,
    /// Detection failed; the payload is the failure's description.
    Error(String),
}

impl Notification {
    /// The topic under which the notification is sent.
    pub fn topic(&self) -> (r: &'static str)
        ensures
            self is Update ==> r@ == UPDATE_TOPIC@,
            self is Error ==> r@ == ERROR_TOPIC@,
    {
        match self {
            Notification::Update => UPDATE_TOPIC,
            Notification::Error(_) => ERROR_TOPIC,
        }
    }

    /// The payload sent with the notification.
    pub fn payload(&self) -> (r: String)
        ensures
            self is Update ==> r@ == UPDATE_PAYLOAD@,
            self matches Notification::Error(d) ==> r@ == d@,
    {
        match self {
            Notification::Update => UPDATE_PAYLOAD.to_owned(),
            Notification::Error(d) => d.clone(),
        }
    }
}

/// Whether the detection loop goes on after a cycle.
#[derive(Debug, Clone, Copy, PartialEq, Eq, Structural)]
pub enum Flow {
    /// Wait for the next change.
    Next,
    /// End the detection loop.
    Stop,
}

/// What the monitor does after one detection cycle.
#[derive(Debug, Clone, PartialEq, Eq)]
pub struct Reaction {
    /// The notification to send, if any.
    pub notification: Option<Notification>,
    /// Whether to keep watching.
    pub flow: Flow,
}

/// The monitor's run and terminate flags.
///
/// It is idle until `start`, then watching; a terminate request ends watching at
/// the next detection cycle.
#[derive(Debug, Clone, Copy, PartialEq, Eq, Structural)]
pub struct ClipboardMonitor {
    pub running: bool,
    pub terminate_requested: bool,
}

/// The monitor's flags after a detection cycle, the notification it sends, and
/// whether it keeps watching.
pub open spec fn react(m: ClipboardMonitor, d: Detection) -> (ClipboardMonitor, Option<Notification>, Flow) {
    if !m.running || m.terminate_requested {
        (ClipboardMonitor { running: false, terminate_requested: m.terminate_requested }, None, Flow::Stop)
    } else {
        match d {
            Detection::Changed => (m, Some(Notification::Update), Flow::Next),
            Detection::Failed(e) => (m, Some(Notification::Error(e)), Flow::Next),
        }
    }
}

/// The flags after a run of detection cycles, and the notifications sent, in
/// order. The run ends early at the first cycle that stops the loop.
pub open spec fn trace(m: ClipboardMonitor, events: Seq<Detection>) -> (ClipboardMonitor, Seq<Notification>)
    decreases events.len(),
{
    if events.len() == 0 {
        (m, Seq::empty())
    } else {
        let (m1, n, flow) = react(m, events[0]);
        let sent: Seq<Notification> = match n {
            Some(x) => seq![x],
            None => Seq::empty(),
        };
        if flow == Flow::Stop {
            (m1, sent)
        } else {
            let (mf, rest) = trace(m1, events.drop_first());
            (mf, sent + rest)
        }
    }
}

impl ClipboardMonitor {
    /// The monitor is watching and no terminate request is pending.
    pub open spec fn is_watching(self) -> bool {
        self.running && !self.terminate_requested
    }

    /// A monitor that is not yet started.
    pub fn new() -> (r: ClipboardMonitor)
        ensures
            !r.running,
            !r.terminate_requested,
    {
        ClipboardMonitor { running: false, terminate_requested: false }
    }

    /// Starts watching.
    pub fn start(&mut self)
        ensures
            final(self).running,
            final(self).terminate_requested == old(self).terminate_requested,
    {
        self.running = true;
    }

    /// Asks the monitor to stop at its next detection cycle.
    pub fn request_terminate(&mut self)
        ensures
            final(self).running == old(self).running,
            final(self).terminate_requested,
    {
        self.terminate_requested = true;
    }

    /// Whether the monitor is watching.
    pub fn is_running(&self) -> (r: bool)
        ensures
            r == self.running,
    {
        self.running
    }

    /// Reacts to one detection cycle.
    ///
    /// While watching, a change sends an update and a failure sends an error
    /// carrying its description, and watching goes on either way. A pending
    /// terminate request, or a monitor that never started, stops the loop
    /// instead, with nothing sent.
    pub fn observe(&mut self, d: Detection) -> (r: Reaction)
        ensures
            (*final(self), r.notification, r.flow) == react(*old(self), d),
    {
        if !self.running || self.terminate_requested {
            self.running = false;
            return Reaction { notification: None, flow: Flow::Stop };
        }
        match d {
            Detection::Changed => Reaction { notification: Some(Notification::Update), flow: Flow::Next },
            Detection::Failed(e) => Reaction {
                notification: Some(Notification::Error(e)),
                flow: Flow::Next,
            },
        }
    }

    /// Reacts to a clipboard change.
    pub fn on_clipboard_change(&mut self) -> (r: Reaction)
        ensures
            (*final(self), r.notification, r.flow) == react(*old(self), Detection::Changed),
    {
        self.observe(Detection::Changed)
    }

    /// Reacts to a failed detection cycle described by `description`.
    pub fn on_clipboard_error(&mut self, description: String) -> (r: Reaction)
        ensures
            (*final(self), r.notification, r.flow) == react(
                *old(self),
                Detection::Failed(description),
            ),
    {
        self.observe(Detection::Failed(description))
    }
}

/// A detection failure followed at once by a change sends exactly one error
/// notification, with the failure's description, then exactly one update, and
/// the monitor is still watching afterwards.
pub proof fn error_then_change(m: ClipboardMonitor, description: String)
    requires
        m.is_watching(),
    ensures
        trace(m, seq![Detection::Failed(description), Detection::Changed]) == (
            m,
            seq![Notification::Error(description), Notification::Update],
        ),
        trace(m, seq![Detection::Failed(description), Detection::Changed]).0.is_watching(),
{
    let events = seq![Detection::Failed(description), Detection::Changed];
    let tail = events.drop_first();
    assert(tail =~= seq![Detection::Changed]);
    assert(tail.drop_first() =~= Seq::<Detection>::empty());
    assert(trace(m, tail.drop_first()) == (m, Seq::<Notification>::empty()));
    assert(seq![Notification::Update] + Seq::<Notification>::empty() =~= seq![Notification::Update]);
    assert(trace(m, tail) == (m, seq![Notification::Update]));
    assert(seq![Notification::Error(description)] + seq![Notification::Update] =~= seq![
        Notification::Error(description),
        Notification::Update,
    ]);
}

/// Without clipboard activity no notification is sent, and each detection cycle
/// sends at most one.
pub proof fn idle_sends_nothing(m: ClipboardMonitor, events: Seq<Detection>)
    ensures
        trace(m, Seq::empty()).1.len() == 0,
        trace(m, events).1.len() <= events.len(),
    decreases events.len(),
{
    if events.len() > 0 {
        let (m1, n, flow) = react(m, events[0]);
        idle_sends_nothing(m1, events.drop_first());
    }
}

} // verus!
