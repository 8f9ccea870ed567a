use vstd::prelude::*;
use crate::content::{PageSource, classified_is, classify_content};

verus! {

/// Event code handed to the event callback when the window is asked to close.
pub const CLOSE_REQUESTED_EVENT: i32 = 1;

/// Where a host is in its life: before its first run, inside the blocking
/// run, or after the window was closed.
#[derive(Clone, Copy, Debug, PartialEq, Eq, Structural)]
pub enum Phase {
    Idle,
    Running,
    Closed,
}

/// The window events that the host reacts to.
#[derive(Clone, Copy, Debug, PartialEq, Eq, Structural)]
pub enum WindowSignal {
    CloseRequested,
    RightMouseDown,
    Other,
}

/// Whether the event loop waits for the next event or ends.
#[derive(Clone, Copy, Debug, PartialEq, Eq, Structural)]
pub enum Flow {
    Wait,
    Exit,
}

/// What the event loop does after one event: how it goes on, which callback
/// it calls with which event code, and whether it opens the devtools.
pub struct LoopStep<C> {
    pub flow: Flow,
    pub notify: Option<(i32, C)>,
    pub open_devtools: bool,
}

/// The state behind the entry points: the one registered event callback (a
/// function with its context), the webview of the current run, if one was
/// built, and the phase of the run.
pub struct WebviewHost<C, W> {
    event_callback: Option<C>,
    webview: Option<W>,
    phase: Phase,
    devtools_enabled: bool,
}

impl<C: Copy, W> WebviewHost<C, W> {
    pub closed spec fn callback(&self) -> Option<C> {
        self.event_callback
    }

    pub closed spec fn active_webview(&self) -> Option<W> {
        self.webview
    }

    pub closed spec fn phase(&self) -> Phase {
        self.phase
    }

    /// A host that has neither run nor registered a callback.
    pub closed spec fn fresh(devtools_enabled: bool) -> Self {
        WebviewHost { event_callback: None, webview: None, phase: Phase::Idle, devtools_enabled }
    }

    /// The host after `callback` was registered: it takes the place of any
    /// earlier one.
    pub closed spec fn with_callback(self, callback: C) -> Self {
        WebviewHost { event_callback: Some(callback), ..self }
    }

    /// The host once a run has begun.
    pub closed spec fn begun(self) -> Self {
        WebviewHost { phase: Phase::Running, ..self }
    }

    /// The host once the webview of the run is in its slot.
    pub closed spec fn attached(self, webview: W) -> Self {
        WebviewHost { webview: Some(webview), ..self }
    }

    /// The host after it handled `signal`.
    pub closed spec fn after(self, signal: WindowSignal) -> Self {
        match signal {
            WindowSignal::CloseRequested => WebviewHost { phase: Phase::Closed, ..self },
            _ => self,
        }
    }

    /// What the event loop does on `signal`.
    pub closed spec fn step_of(self, signal: WindowSignal) -> LoopStep<C> {
        match signal {
            WindowSignal::CloseRequested => LoopStep {
                flow: Flow::Exit,
                notify: match self.event_callback {
                    Some(c) => Some((CLOSE_REQUESTED_EVENT, c)),
                    None => None,
                },
                open_devtools: false,
            },
            WindowSignal::RightMouseDown => LoopStep {
                flow: Flow::Wait,
                notify: None,
                open_devtools: self.devtools_enabled && self.webview is Some,
            },
            WindowSignal::Other => LoopStep { flow: Flow::Wait, notify: None, open_devtools: false },
        }
    }

    /// Registering an event callback twice keeps only the second: the host is
    /// as if the first had never been registered, and a close request, before
    /// or after a run begins, calls the second alone.
    pub proof fn lemma_registration_replaces(h: Self, first: C, second: C)
        ensures
            h.with_callback(first).with_callback(second) == h.with_callback(second),
            h.with_callback(first).with_callback(second).step_of(WindowSignal::CloseRequested).notify
                == Some((CLOSE_REQUESTED_EVENT, second)),
            h.with_callback(first).with_callback(second).begun().step_of(
                WindowSignal::CloseRequested,
            ).notify == Some((CLOSE_REQUESTED_EVENT, second)),
    {
    }

    /// Until a webview is attached there is none to act on: a fresh host has
    /// none, registering a callback, beginning a run and handling events keep
    /// it so, and no event opens the devtools.
    pub proof fn lemma_no_webview_guard(h: Self, devtools_enabled: bool, callback: C, signal: WindowSignal)
        requires
            h.active_webview() is None,
        ensures
            Self::fresh(devtools_enabled).active_webview() is None,
            h.with_callback(callback).active_webview() is None,
            h.begun().active_webview() is None,
            h.after(signal).active_webview() is None,
            !h.step_of(signal).open_devtools,
    {
    }

    /// A host with no callback and no webview. `devtools_enabled` says
    /// whether a right click opens the devtools.
    pub fn new(devtools_enabled: bool) -> (r: Self)
        ensures
            r == Self::fresh(devtools_enabled),
    {
        WebviewHost { event_callback: None, webview: None, phase: Phase::Idle, devtools_enabled }
    }

    /// Registers the event callback; an earlier registration is dropped.
    pub fn set_event_callback(&mut self, callback: C)
        ensures
            *final(self) == old(self).with_callback(callback),
    {
        self.event_callback = Some(callback);
    }

    /// Begins a run on `content` and says what the webview is to show.
    pub fn begin_run(&mut self, content: Option<&str>) -> (r: PageSource)
        ensures
            *final(self) == old(self).begun(),
            classified_is(
                match content {
                    Some(s) => Some(s@),
                    None => None,
                },
                r,
            ),
    {
        self.phase = Phase::Running;
        classify_content(content)
    }

    /// Puts the webview of the current run in the slot.
    pub fn attach_webview(&mut self, webview: W)
        ensures
            *final(self) == old(self).attached(webview),
    {
        self.webview = Some(webview);
    }

    /// The webview that `script` is to be evaluated in: none while no
    /// webview is active or when there is no script, so that the call is
    /// then a no-op.
    pub fn script_target(&self, script: Option<&str>) -> (r: Option<&W>)
        ensures
            r is Some <==> (self.active_webview() is Some && script is Some),
            r matches Some(w) ==> self.active_webview() == Some(*w),
    {
        match script {
            None => None,
            Some(_) => match &self.webview {
                Some(w) => Some(w),
                None => None,
            },
        }
    }

    /// The webview whose devtools are to be opened: none while no webview is
    /// active.
    pub fn devtools_target(&self) -> (r: Option<&W>)
        ensures
            r is Some <==> self.active_webview() is Some,
            r matches Some(w) ==> self.active_webview() == Some(*w),
    {
        match &self.webview {
            Some(w) => Some(w),
            None => None,
        }
    }

    /// Handles one window event: a close request ends the loop and calls the
    /// registered event callback with `CLOSE_REQUESTED_EVENT`; a right click
    /// opens the devtools where they are enabled and a webview is active.
    pub fn on_event(&mut self, signal: WindowSignal) -> (r: LoopStep<C>)
        ensures
            r == old(self).step_of(signal),
            *final(self) == old(self).after(signal),
    {
        match signal {
            WindowSignal::CloseRequested => {
                self.phase = Phase::Closed;
                let notify = match self.event_callback {
                    Some(c) => Some((CLOSE_REQUESTED_EVENT, c)),
                    None => None,
                };
                LoopStep { flow: Flow::Exit, notify, open_devtools: false }
            },
            WindowSignal::RightMouseDown => {
                let open = self.devtools_enabled && self.webview.is_some();
                LoopStep { flow: Flow::Wait, notify: None, open_devtools: open }
            },
            WindowSignal::Other => LoopStep { flow: Flow::Wait, notify: None, open_devtools: false },
        }
    }

    /// Where the host is in its life.
    pub fn current_phase(&self) -> (r: Phase)
        ensures
            r == self.phase(),
    {
        self.phase
    }
}

} // verus!
