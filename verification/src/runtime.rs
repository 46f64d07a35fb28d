use crate::behavior::{
    pass, passes, update_pass, update_passes, BehaviorRegistry, ScriptBehaviorCore,
};
use crate::error::CoreError;
use crate::registry::{resized_records, valid_records, WindowRegistry};
use crate::window::{
    destroy_plan, disciplined, draw_plan, has_area, lemma_disciplined_both,
    lemma_plans_are_disciplined, resize_plan, Command, GeoWindow, WindowView,
};
use vstd::prelude::*;

verus! {

/// The process-wide lifecycle flag: whether a runtime was created in this
/// process. It goes from `Uninitialized` to `Initialized` once and never back.
#[derive(Clone, Copy, Debug, PartialEq, Eq, Structural)]
pub enum RuntimeState {
    Uninitialized,
    Initialized,
}

impl RuntimeState {
    /// Whether a runtime may still be created under this flag.
    pub open spec fn admits_init(self) -> bool {
        self == RuntimeState::Uninitialized
    }

    /// The flag after a call of [`GeoCore::init`], whether it succeeded or
    /// not.
    pub open spec fn after_init(self) -> RuntimeState {
        RuntimeState::Initialized
    }

    /// The flag of a process in which no runtime was created yet.
    pub fn new() -> (state: Self)
        ensures
            state == RuntimeState::Uninitialized,
    {
        RuntimeState::Uninitialized
    }

    /// A runtime is created at most once under one flag: whatever the flag
    /// was, once `init` has been called on it a further call is refused, and
    /// the flag stays set.
    pub proof fn lemma_init_only_once(self)
        ensures
            !self.after_init().admits_init(),
            self.after_init().after_init() == self.after_init(),
    {
    }
}

/// What `init` reads of the process it runs in.
#[derive(Clone, Copy, Debug, PartialEq, Eq, Structural)]
pub struct Host {
    /// Whether the process runs on Linux.
    pub linux: bool,
    /// Whether the caller has already set the toggle for vertical sync.
    pub vsync_configured: bool,
}

/// The commands that a new runtime starts with: on Linux vertical sync is
/// switched off, unless the caller has configured it.
pub open spec fn startup_plan(host: Host) -> Seq<Command> {
    if host.linux && !host.vsync_configured {
        seq![Command::DisableVsync]
    } else {
        Seq::<Command>::empty()
    }
}

/// The keys that the runtime tells apart.
#[derive(Clone, Copy, Debug, PartialEq, Eq, Structural)]
pub enum Key {
    Escape,
    Other,
}

/// A platform event, as the runtime sees it.
#[derive(Clone, Copy, Debug, PartialEq, Eq, Structural)]
pub enum Event {
    /// The platform asks for the window to be drawn again.
    RedrawRequested { window: u64 },
    /// The window has a new inner size.
    Resized { window: u64, width: u32, height: u32 },
    /// The user asked for the window to be closed.
    CloseRequested { window: u64 },
    /// A key changed state while the window had the focus.
    KeyboardInput { window: u64, key: Key, pressed: bool, synthetic: bool },
    /// Every event that was pending has been delivered: one turn of the event
    /// loop is over. This is the tick of the runtime, at which it updates the
    /// behaviors.
    MainEventsCleared,
    /// Any other event.
    Other,
}

impl Event {
    /// The window that this event asks to close, if it asks for that: a close
    /// request, or Escape going down by the user's hand.
    pub open spec fn closes(self) -> Option<u64> {
        match self {
            Event::CloseRequested { window } => Some(window),
            Event::KeyboardInput { window, key, pressed, synthetic } => if key == Key::Escape
                && pressed && !synthetic {
                Some(window)
            } else {
                None
            },
            _ => None,
        }
    }

    /// The window that this event asks to close, if any.
    pub fn close_target(&self) -> (target: Option<u64>)
        ensures
            target == self.closes(),
    {
        match self {
            Event::CloseRequested { window } => Some(*window),
            Event::KeyboardInput { window, key: Key::Escape, pressed: true, synthetic: false } => {
                Some(*window)
            },
            _ => None,
        }
    }
}

/// The runtime as a mathematical value: the records of the live windows,
/// whether the runtime has terminated, and the commands that were planned and
/// not yet handed to the platform shell.
pub struct RuntimeView {
    pub windows: Map<u64, WindowView>,
    pub closed: bool,
    pub pending: Seq<Command>,
}

impl RuntimeView {
    /// The records are valid, and a runtime that has terminated has no window
    /// left.
    pub open spec fn wf(self) -> bool {
        &&& valid_records(self.windows)
        &&& self.closed ==> self.windows.is_empty()
    }

    /// The runtime as `init` makes it.
    pub open spec fn fresh(host: Host) -> RuntimeView {
        RuntimeView {
            windows: Map::<u64, WindowView>::empty(),
            closed: false,
            pending: startup_plan(host),
        }
    }

    /// Why a window of this size is refused, if it is: a runtime that has
    /// terminated takes no window, and a window needs an area.
    pub open spec fn window_refusal(self, width: u32, height: u32) -> Option<CoreError> {
        if self.closed {
            Some(CoreError::Terminated)
        } else if !has_area(width, height) {
            Some(CoreError::ZeroSize)
        } else {
            None
        }
    }

    /// The runtime after it took the window `id`: one redraw is planned, and
    /// the record is filed under `id`, in the place of any record that was
    /// there.
    pub open spec fn with_window(
        self,
        id: u64,
        title: Seq<char>,
        width: u32,
        height: u32,
    ) -> RuntimeView {
        RuntimeView {
            windows: self.windows.insert(id, WindowView { id, title, width, height }),
            closed: self.closed,
            pending: self.pending + draw_plan(id),
        }
    }

    /// The runtime with more commands planned.
    pub open spec fn planning(self, plan: Seq<Command>) -> RuntimeView {
        RuntimeView { windows: self.windows, closed: self.closed, pending: self.pending + plan }
    }

    /// The runtime after the live window `id` was closed: its record is gone
    /// and its resources are released; where it was the last window, the
    /// runtime terminates and leaves the event loop.
    pub open spec fn closing(self, id: u64) -> RuntimeView {
        let windows = self.windows.remove(id);
        if windows.is_empty() {
            RuntimeView {
                windows,
                closed: true,
                pending: self.pending + destroy_plan(id) + seq![Command::Exit],
            }
        } else {
            RuntimeView { windows, closed: false, pending: self.pending + destroy_plan(id) }
        }
    }

    /// Whether the runtime refuses `event`: it is running, and the event
    /// gives a live window a size without an area.
    pub open spec fn rejects(self, event: Event) -> bool {
        &&& !self.closed
        &&& event matches Event::Resized { window, width, height }
        &&& self.windows.contains_key(window)
        &&& !has_area(width, height)
    }

    /// Whether `event` is a tick for the runtime: it is running, and a turn
    /// of the event loop is over. The behaviors are updated at every tick, and
    /// at no other time: not for each redraw, and not by a timer.
    pub open spec fn ticks(self, event: Event) -> bool {
        !self.closed && event == Event::MainEventsCleared
    }

    /// The runtime after `event`.
    ///
    /// A runtime that has terminated ignores every event. A running one
    /// redraws, resizes or closes the window that the event names, if that
    /// window is live, and it ignores every other event, as well as one that
    /// it refuses. A tick changes the behaviors and leaves the runtime as it
    /// is.
    pub open spec fn step(self, event: Event) -> RuntimeView {
        if self.closed {
            self
        } else {
            match event {
                Event::RedrawRequested { window } => if self.windows.contains_key(window) {
                    self.planning(draw_plan(window))
                } else {
                    self
                },
                Event::Resized { window, width, height } => if self.windows.contains_key(window)
                    && has_area(width, height) {
                    RuntimeView {
                        windows: resized_records(self.windows, window, width, height),
                        closed: self.closed,
                        pending: self.pending + resize_plan(window, width, height),
                    }
                } else {
                    self
                },
                _ => match event.closes() {
                    Some(window) => if self.windows.contains_key(window) {
                        self.closing(window)
                    } else {
                        self
                    },
                    None => self,
                },
            }
        }
    }

    /// What becomes of the runtime when it is given `events[from..]` one
    /// after the other: it stops at the first event that it refuses, when it
    /// has terminated, or when the events run out, whichever comes first.
    pub open spec fn replay_from(self, events: Seq<Event>, from: int) -> Replay
        decreases events.len() - from,
    {
        if self.closed || from < 0 || from >= events.len() {
            Replay { state: self, handled: from, failure: None }
        } else if self.rejects(events[from]) {
            Replay { state: self, handled: from, failure: Some(CoreError::ZeroSize) }
        } else {
            self.step(events[from]).replay_from(events, from + 1)
        }
    }

    /// What becomes of the runtime when it is given `events` one after the
    /// other.
    pub open spec fn replay(self, events: Seq<Event>) -> Replay {
        self.replay_from(events, 0)
    }
}

/// One call on the runtime, as a value: a window that is handed to
/// [`GeoCore::create_window`], or an event that is handed to
/// [`GeoCore::handle_event`].
pub enum Call {
    CreateWindow { id: u64, title: Seq<char>, width: u32, height: u32 },
    HandleEvent { event: Event },
}

/// What a sequence of calls amounts to, counted without a registry: the
/// windows that it has opened and not yet closed, and whether it has closed
/// the last one.
pub struct Tally {
    pub open: Set<u64>,
    pub terminated: bool,
}

/// Counts the windows that `calls` leave open, call by call.
///
/// A window with an area is opened when it is created; an open window is
/// closed when it is asked to close; and once the last open window is closed,
/// nothing is opened or closed any more.
pub open spec fn tally(calls: Seq<Call>) -> Tally
    decreases calls.len(),
{
    if calls.len() == 0 {
        Tally { open: Set::<u64>::empty(), terminated: false }
    } else {
        let before = tally(calls.drop_last());
        if before.terminated {
            before
        } else {
            match calls.last() {
                Call::CreateWindow { id, title, width, height } => if has_area(width, height) {
                    Tally { open: before.open.insert(id), terminated: false }
                } else {
                    before
                },
                Call::HandleEvent { event } => match event.closes() {
                    Some(id) => if before.open.contains(id) {
                        Tally {
                            open: before.open.remove(id),
                            terminated: before.open.remove(id).is_empty(),
                        }
                    } else {
                        before
                    },
                    None => before,
                },
            }
        }
    }
}

impl RuntimeView {
    /// The runtime after one call. A call that is refused changes nothing.
    pub open spec fn after_call(self, call: Call) -> RuntimeView {
        match call {
            Call::CreateWindow { id, title, width, height } => if self.window_refusal(width, height)
                is None {
                self.with_window(id, title, width, height)
            } else {
                self
            },
            Call::HandleEvent { event } => self.step(event),
        }
    }

    /// The runtime after `calls`, made one after the other.
    pub open spec fn after_calls(self, calls: Seq<Call>) -> RuntimeView
        decreases calls.len(),
    {
        if calls.len() == 0 {
            self
        } else {
            self.after_calls(calls.drop_last()).after_call(calls.last())
        }
    }

    /// A valid runtime is valid after any call.
    pub proof fn lemma_call_keeps_valid(self, call: Call)
        requires
            self.wf(),
        ensures
            self.after_call(call).wf(),
    {
    }

    /// The registry holds exactly the windows that are open. Whatever calls
    /// are made on a new runtime, the live windows are those that the calls
    /// have opened and not yet closed, the size of the registry is their
    /// number, and the runtime has terminated exactly when the calls have
    /// closed the last open window.
    pub proof fn lemma_registry_holds_open_windows(host: Host, calls: Seq<Call>)
        ensures
            RuntimeView::fresh(host).after_calls(calls).wf(),
            RuntimeView::fresh(host).after_calls(calls).windows.dom() == tally(calls).open,
            RuntimeView::fresh(host).after_calls(calls).windows.len() == tally(calls).open.len(),
            RuntimeView::fresh(host).after_calls(calls).closed == tally(calls).terminated,
        decreases calls.len(),
    {
        if calls.len() > 0 {
            RuntimeView::lemma_registry_holds_open_windows(host, calls.drop_last());
            RuntimeView::fresh(host).after_calls(calls.drop_last()).lemma_call_keeps_valid(
                calls.last(),
            );
        }
    }

    /// Termination is final: a runtime that has terminated takes no window
    /// and ignores every event, so it stays exactly as it is.
    pub proof fn lemma_terminated_is_final(self, call: Call)
        requires
            self.closed,
        ensures
            self.after_call(call) == self,
            call matches Call::HandleEvent { event } ==> !self.rejects(event) && !self.ticks(event),
            call matches Call::CreateWindow { id, title, width, height } ==> self.window_refusal(
                width,
                height,
            ) == Some(CoreError::Terminated),
    {
    }

    /// A call adds commands that keep the discipline of the graphics context
    /// to those that are planned.
    pub proof fn lemma_call_keeps_discipline(self, call: Call)
        requires
            disciplined(self.pending),
        ensures
            disciplined(self.after_call(call).pending),
    {
        match call {
            Call::CreateWindow { id, title, width, height } => {
                lemma_plans_are_disciplined(id, width, height);
                lemma_disciplined_both(self.pending, draw_plan(id));
            },
            Call::HandleEvent { event } => {
                match event {
                    Event::RedrawRequested { window } => {
                        lemma_plans_are_disciplined(window, 1, 1);
                        lemma_disciplined_both(self.pending, draw_plan(window));
                    },
                    Event::Resized { window, width, height } => {
                        lemma_plans_are_disciplined(window, width, height);
                        lemma_disciplined_both(self.pending, resize_plan(window, width, height));
                    },
                    _ => {
                        if let Some(window) = event.closes() {
                            lemma_plans_are_disciplined(window, 1, 1);
                            lemma_disciplined_both(self.pending, destroy_plan(window));
                            lemma_disciplined_both(
                                self.pending + destroy_plan(window),
                                seq![Command::Exit],
                            );
                        }
                    },
                }
            },
        }
    }

    /// The runtime draws on current contexts only. Whatever calls are made on
    /// a new runtime, and whatever context is current when the shell begins,
    /// the commands that the runtime has planned make the context of a window
    /// current before they clear it or present its frame.
    pub proof fn lemma_commands_keep_discipline(host: Host, calls: Seq<Call>)
        ensures
            disciplined(RuntimeView::fresh(host).after_calls(calls).pending),
        decreases calls.len(),
    {
        if calls.len() > 0 {
            RuntimeView::lemma_commands_keep_discipline(host, calls.drop_last());
            RuntimeView::fresh(host).after_calls(calls.drop_last()).lemma_call_keeps_discipline(
                calls.last(),
            );
        } else {
            lemma_plans_are_disciplined(0, 1, 1);
        }
    }

    /// Closing the last open window terminates the runtime: the record is
    /// gone, the window's resources are released, and the event loop is left.
    pub proof fn lemma_closing_last_terminates(self, event: Event, window: u64)
        requires
            self.wf(),
            !self.closed,
            event.closes() == Some(window),
            self.windows.dom() == set![window],
        ensures
            !self.rejects(event),
            self.step(event).closed,
            self.step(event).windows.is_empty(),
            self.step(event).pending == self.pending + seq![
                Command::DestroyWindow { window },
                Command::Exit,
            ],
    {
    }

    /// Closing a window while another one is open leaves the runtime running
    /// and takes away the record of the closed window only.
    pub proof fn lemma_closing_other_keeps_running(self, event: Event, window: u64, other: u64)
        requires
            self.wf(),
            !self.closed,
            event.closes() == Some(window),
            self.windows.contains_key(window),
            self.windows.contains_key(other),
            other != window,
        ensures
            !self.rejects(event),
            !self.step(event).closed,
            self.step(event).windows == self.windows.remove(window),
            self.step(event).windows.contains_key(other),
            self.step(event).windows[other] == self.windows[other],
            self.step(event).pending == self.pending + seq![Command::DestroyWindow { window }],
    {
    }
}

/// The number of turns of the event loop that end in `events`.
pub open spec fn tick_count(events: Seq<Event>) -> nat
    decreases events.len(),
{
    if events.len() == 0 {
        0
    } else if events.last() == Event::MainEventsCleared {
        tick_count(events.drop_last()) + 1
    } else {
        tick_count(events.drop_last())
    }
}

/// What one event does to the behaviors. At a tick they go through one update
/// pass; any other event leaves them and their history as they are.
pub open spec fn behaviors_step<B: ScriptBehaviorCore>(
    ticks: bool,
    before: BehaviorRegistry<B>,
    after: BehaviorRegistry<B>,
) -> bool {
    if ticks {
        &&& pass(before@, after@)
        &&& after.history() == before.history() + update_pass(before@.len())
    } else {
        &&& after@ == before@
        &&& after.history() == before.history()
    }
}

/// Where a run over a sequence of events ended.
pub struct Replay {
    /// The runtime at the end.
    pub state: RuntimeView,
    /// How many events were handled.
    pub handled: int,
    /// The refusal that stopped the run, if one did.
    pub failure: Option<CoreError>,
}

impl Replay {
    /// How the run ended.
    pub open spec fn outcome(self) -> Outcome {
        match self.failure {
            Some(error) => Outcome::Failed(error),
            None => if self.state.closed {
                Outcome::Terminated
            } else {
                Outcome::Waiting
            },
        }
    }
}

/// How a run of the event loop ended.
#[derive(Clone, Copy, Debug, PartialEq, Eq, Structural)]
pub enum Outcome {
    /// The last window was closed: the runtime has terminated.
    Terminated,
    /// The events ran out while windows were open: the loop waits for the
    /// next event.
    Waiting,
    /// The runtime refused an event.
    Failed(CoreError),
}

/// What a run of the event loop did.
#[derive(Debug)]
pub struct RunReport {
    /// How the run ended.
    pub outcome: Outcome,
    /// How many events were handled before the run ended.
    pub handled: usize,
    /// The commands that were planned and not yet taken, in order.
    pub commands: Vec<Command>,
}

/// The runtime: it owns the window registry and decides, event by event, what
/// the platform shell has to do.
///
/// The runtime never touches the platform itself. Every decision leaves it as
/// a [`Command`]; the commands wait in the runtime, in the order in which they
/// were planned, until the shell takes them with [`GeoCore::take_commands`]
/// and performs them on the thread that owns the event loop.
pub struct GeoCore {
    windows: WindowRegistry,
    closed: bool,
    pending: Vec<Command>,
}

impl GeoCore {
    pub closed spec fn view(&self) -> RuntimeView {
        RuntimeView { windows: self.windows@, closed: self.closed, pending: self.pending@ }
    }

    /// The invariant of the type: see [`RuntimeView::wf`].
    pub open spec fn wf(&self) -> bool {
        self@.wf()
    }

    /// Creates the runtime of this process and sets the process-wide flag.
    ///
    /// Under a flag that is already set no runtime is created, and the call
    /// fails with [`CoreError::AlreadyInitialized`]. The new runtime has no
    /// window; its first command, where there is one, switches vertical sync
    /// off, so it comes before any graphics context.
    pub fn init(state: &mut RuntimeState, host: Host) -> (made: Result<GeoCore, CoreError>)
        ensures
            *final(state) == old(state).after_init(),
            match made {
                Ok(core) => {
                    &&& old(state).admits_init()
                    &&& core.wf()
                    &&& core@ == RuntimeView::fresh(host)
                },
                Err(error) => {
                    &&& !old(state).admits_init()
                    &&& error == CoreError::AlreadyInitialized
                },
            },
    {
        match *state {
            RuntimeState::Initialized => Err(CoreError::AlreadyInitialized),
            RuntimeState::Uninitialized => {
                *state = RuntimeState::Initialized;
                let mut pending: Vec<Command> = Vec::new();
                if host.linux && !host.vsync_configured {
                    pending.push(Command::DisableVsync);
                }
                Ok(GeoCore { windows: WindowRegistry::new(), closed: false, pending })
            },
        }
    }

    /// Takes the window that the platform made under the identity `id`, with
    /// an inner size of `width` by `height`: plans its first redraw, files its
    /// record, and hands the record back.
    ///
    /// A runtime that has terminated refuses with [`CoreError::Terminated`];
    /// a running one refuses a size without an area with
    /// [`CoreError::ZeroSize`]. A refusal changes nothing.
    pub fn create_window(
        &mut self,
        id: u64,
        title: &str,
        width: u32,
        height: u32,
    ) -> (made: Result<&GeoWindow, CoreError>)
        requires
            old(self).wf(),
        ensures
            final(self).wf(),
            match made {
                Ok(window) => {
                    &&& old(self)@.window_refusal(width, height) is None
                    &&& final(self)@ == old(self)@.with_window(id, title@, width, height)
                    &&& window@ == final(self)@.windows[id]
                },
                Err(error) => {
                    &&& old(self)@.window_refusal(width, height) == Some(error)
                    &&& final(self)@ == old(self)@
                },
            },
    {
        if self.closed {
            return Err(CoreError::Terminated);
        }
        let window = match GeoWindow::new(id, title, width, height) {
            Ok(window) => window,
            Err(error) => {
                return Err(error);
            },
        };
        let mut plan = window.draw();
        self.pending.append(&mut plan);
        self.windows.insert(window);
        assert(self@.windows.contains_key(id));
        Ok(self.windows.get(id).unwrap())
    }

    /// Handles one platform event.
    ///
    /// At a tick the behaviors go through one update pass; no other event
    /// touches them. The runtime refuses an event that gives a live window a
    /// size without an area, with [`CoreError::ZeroSize`], and stays as it was.
    /// Every other event is handled as [`RuntimeView::step`] says.
    pub fn handle_event<B: ScriptBehaviorCore>(
        &mut self,
        behaviors: &mut BehaviorRegistry<B>,
        event: Event,
    ) -> (handled: Result<(), CoreError>)
        requires
            old(self).wf(),
            old(behaviors).wf(),
        ensures
            final(self).wf(),
            final(behaviors).wf(),
            behaviors_step(old(self)@.ticks(event), *old(behaviors), *final(behaviors)),
            match handled {
                Ok(()) => !old(self)@.rejects(event) && final(self)@ == old(self)@.step(event),
                Err(error) => {
                    &&& old(self)@.rejects(event)
                    &&& error == CoreError::ZeroSize
                    &&& final(self)@ == old(self)@
                },
            },
    {
        if self.closed {
            return Ok(());
        }
        match event {
            Event::RedrawRequested { window } => {
                let mut plan = self.windows.redraw(window);
                self.pending.append(&mut plan);
                Ok(())
            },
            Event::Resized { window, width, height } => {
                match self.windows.resize(window, width, height) {
                    Ok(plan) => {
                        let mut plan = plan;
                        self.pending.append(&mut plan);
                        Ok(())
                    },
                    Err(error) => Err(error),
                }
            },
            Event::MainEventsCleared => {
                behaviors.update_all();
                Ok(())
            },
            _ => {
                match event.close_target() {
                    Some(window) => {
                        self.close_window(window);
                        Ok(())
                    },
                    None => Ok(()),
                }
            },
        }
    }

    /// Closes the window `id` if it is live: see [`RuntimeView::closing`].
    fn close_window(&mut self, id: u64)
        requires
            old(self).wf(),
            !old(self)@.closed,
        ensures
            final(self).wf(),
            final(self)@ == if old(self)@.windows.contains_key(id) {
                old(self)@.closing(id)
            } else {
                old(self)@
            },
    {
        if self.windows.contains(id) {
            let mut plan = self.windows.remove(id);
            self.pending.append(&mut plan);
            if self.windows.is_empty() {
                self.pending.push(Command::Exit);
                self.closed = true;
            }
            assert(self@.pending =~= old(self)@.closing(id).pending);
        }
    }

    /// Hands over the commands that were planned since the last call, in the
    /// order in which they were planned.
    pub fn take_commands(&mut self) -> (commands: Vec<Command>)
        ensures
            commands@ == old(self)@.pending,
            final(self)@ == (RuntimeView {
                windows: old(self)@.windows,
                closed: old(self)@.closed,
                pending: Seq::<Command>::empty(),
            }),
    {
        let mut commands: Vec<Command> = Vec::new();
        core::mem::swap(&mut commands, &mut self.pending);
        commands
    }

    /// The record of the window `id`, if it is live.
    pub fn window(&self, id: u64) -> (found: Option<&GeoWindow>)
        ensures
            match found {
                Some(window) => self@.windows.contains_key(id) && window@ == self@.windows[id],
                None => !self@.windows.contains_key(id),
            },
    {
        self.windows.get(id)
    }

    /// The number of live windows.
    pub fn window_count(&self) -> (count: usize)
        ensures
            count == self@.windows.len(),
    {
        self.windows.len()
    }

    /// Whether the runtime has terminated.
    pub fn is_closed(&self) -> (closed: bool)
        ensures
            closed == self@.closed,
    {
        self.closed
    }

    /// Runs the event loop over `events`, and ends the runtime.
    ///
    /// The events are handled one after the other. The loop ends when the
    /// last window was closed, when the runtime refuses an event, or when the
    /// events run out, whichever comes first. The behaviors go through one
    /// update pass for each turn of the event loop that ended among the events
    /// that were handled.
    pub fn run<B: ScriptBehaviorCore>(
        self,
        behaviors: &mut BehaviorRegistry<B>,
        events: &[Event],
    ) -> (report: RunReport)
        requires
            self.wf(),
            old(behaviors).wf(),
        ensures
            report.outcome == self@.replay(events@).outcome(),
            report.handled == self@.replay(events@).handled,
            report.commands@ == self@.replay(events@).state.pending,
            final(behaviors).wf(),
            passes(
                old(behaviors)@,
                final(behaviors)@,
                tick_count(events@.take(report.handled as int)),
            ),
            final(behaviors).history() == old(behaviors).history() + update_passes(
                old(behaviors)@.len(),
                tick_count(events@.take(report.handled as int)),
            ),
    {
        let ghost start = self@;
        let mut core = self;
        let mut at: usize = 0;
        assert(behaviors.history() =~= old(behaviors).history() + update_passes(
            old(behaviors)@.len(),
            0,
        ));
        while at < events.len()
            invariant
                start == self@,
                core.wf(),
                behaviors.wf(),
                at <= events@.len(),
                start.replay_from(events@, 0) == core@.replay_from(events@, at as int),
                behaviors@.len() == old(behaviors)@.len(),
                passes(old(behaviors)@, behaviors@, tick_count(events@.take(at as int))),
                behaviors.history() == old(behaviors).history() + update_passes(
                    old(behaviors)@.len(),
                    tick_count(events@.take(at as int)),
                ),
            decreases events@.len() - at,
        {
            if core.closed {
                return RunReport {
                    outcome: Outcome::Terminated,
                    handled: at,
                    commands: core.pending,
                };
            }
            let ghost turns = tick_count(events@.take(at as int));
            match core.handle_event(behaviors, events[at]) {
                Ok(()) => {
                    proof {
                        assert(events@.take(at + 1).drop_last() =~= events@.take(at as int));
                        if events@[at as int] == Event::MainEventsCleared {
                            assert(behaviors.history() =~= old(behaviors).history() + update_passes(
                                old(behaviors)@.len(),
                                turns + 1,
                            ));
                        }
                    }
                    at = at + 1;
                },
                Err(error) => {
                    return RunReport {
                        outcome: Outcome::Failed(error),
                        handled: at,
                        commands: core.pending,
                    };
                },
            }
        }
        let outcome = if core.closed {
            Outcome::Terminated
        } else {
            Outcome::Waiting
        };
        RunReport { outcome, handled: at, commands: core.pending }
    }
}

} // verus!
