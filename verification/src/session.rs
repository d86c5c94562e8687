//! Lock session state machine.
//!
//! One [`LockSession`] per process run owns the registry of lock surfaces
//! and the overall Locking → Locked → Unlocking → Terminated lifecycle.
//! Every compositor callback and every drained cross-thread signal is
//! translated by the event loop into a [`LockEvent`] and routed through the
//! single transition function [`LockSession::apply_event`], which returns
//! the [`Action`]s the loop must perform on the compositor connection and
//! the UI windows.  The transition relation is mirrored by the spec function
//! [`next`], so properties of whole event sequences can be stated and
//! proved.

use vstd::prelude::*;

use crate::election::{elect_primary, lemma_elected_is_active, spec_elect};
use crate::surface::{LockSurface, SurfacePhase};

verus! {

/// Overall lifecycle of the lock session.
#[derive(Clone, Copy, Debug, PartialEq, Eq, Structural)]
pub enum SessionState {
    /// The compositor's session-lock object has been requested; its "locked"
    /// confirmation has not arrived yet.
    Locking,
    /// Steady state: the screen is locked, topology events are processed.
    Locked,
    /// The unlock transition is in flight.  It runs to process termination
    /// within a single dispatch, so a stored session is never observed here;
    /// the variant names the phase between releasing the lock handle and the
    /// final protocol round-trip.
    Unlocking,
    /// The event loop stops and the process exits.
    Terminated,
}

/// An event dispatched to the orchestrator: a compositor callback or a
/// drained cross-thread signal, reduced to plain data.
pub enum LockEvent {
    /// A new output appeared (or the compositor re-announced a known one,
    /// in which case only the name is refreshed).
    OutputAdded { id: u64, name: String },
    /// An output's metadata changed; only the display name is refreshed.
    OutputUpdated { id: u64, name: String },
    /// An output disappeared.
    OutputRemoved { id: u64 },
    /// The UI window for this output realized its native surface.
    SurfaceRealized { id: u64 },
    /// The compositor supplied a size for this output's lock surface.
    Configure { id: u64, width: u32, height: u32 },
    /// The compositor confirmed that the session is locked.
    LockConfirmed,
    /// The compositor revoked the lock (for example, another process
    /// forcibly unlocked the session).
    Finished,
    /// The unlock channel was signaled by the authentication workflow.
    UnlockSignal,
    /// The window-ready channel was signaled by some surface's UI content.
    WindowReady,
}

/// An effect the event loop must perform after a transition.  Actions touch
/// the compositor connection and the UI windows, which only the orchestrator
/// thread may drive.
#[derive(Clone, Copy, Debug, PartialEq, Eq, Structural)]
pub enum Action {
    /// Build the hidden UI window for this output.
    CreateUi { id: u64 },
    /// Request a lock-surface object from the compositor for this output.
    BindLockSurface { id: u64 },
    /// Apply a hard size request to this output's UI window.
    SetSize { id: u64, width: u32, height: u32 },
    /// Make this output's UI window visible.
    ShowUi { id: u64 },
    /// Close this output's UI window.
    CloseUi { id: u64 },
    /// Tell this output's UI whether it is the primary surface.
    EmitPrimary { id: u64, is_primary: bool },
    /// Give this output's UI window input focus.
    GrabFocus { id: u64 },
    /// Release the compositor's session-lock handle (the atomic unlock).
    ReleaseLock,
    /// Block until the compositor has processed everything sent so far.
    RoundTrip,
    /// Stop the event loop and exit the process with this status.
    Exit { code: i32 },
}

/// Mathematical model of a lock session.
pub ghost struct SessionView {
    pub state: SessionState,
    pub has_lock: bool,
    pub ready: bool,
    pub surfaces: Seq<LockSurface>,
    pub primary: Option<int>,
    pub priority: Seq<Seq<char>>,
}

/// First index `>= i` of the surface recorded for output `id`.
pub open spec fn find_surface_from(surfaces: Seq<LockSurface>, id: u64, i: int) -> Option<int>
    decreases surfaces.len() - i when 0 <= i <= surfaces.len()
{
    if i >= surfaces.len() {
        None
    } else if surfaces[i].output == id {
        Some(i)
    } else {
        find_surface_from(surfaces, id, i + 1)
    }
}

pub proof fn lemma_find_surface_props(surfaces: Seq<LockSurface>, id: u64, i: int)
    requires
        0 <= i <= surfaces.len(),
    ensures
        match find_surface_from(surfaces, id, i) {
            Some(k) => {
                &&& i <= k < surfaces.len()
                &&& surfaces[k].output == id
                &&& forall|m: int| i <= m < k ==> surfaces[m].output != id
            },
            None => forall|m: int| i <= m < surfaces.len() ==> surfaces[m].output != id,
        },
    decreases surfaces.len() - i,
{
    if i < surfaces.len() {
        lemma_find_surface_props(surfaces, id, i + 1);
    }
}

/// `s` with a refreshed display name; the output identity is untouched.
pub open spec fn renamed(s: LockSurface, name: String) -> LockSurface {
    LockSurface { output_name: name, ..s }
}

/// `s` after its output was removed: inactive, UI window closed.
pub open spec fn destroyed(s: LockSurface) -> LockSurface {
    LockSurface { phase: SurfacePhase::Destroyed, is_active: false, ..s }
}

/// `s` once its lock-surface object has been requested.
pub open spec fn bound(s: LockSurface) -> LockSurface {
    LockSurface { phase: SurfacePhase::ProtocolBound, ..s }
}

/// `s` after a configure event: sized, shown, and marked configured.
pub open spec fn shown(s: LockSurface) -> LockSurface {
    LockSurface { phase: SurfacePhase::Visible, configured: true, ..s }
}

/// Every surface marked destroyed, as the unlock transition leaves them.
pub open spec fn all_destroyed(surfaces: Seq<LockSurface>) -> Seq<LockSurface> {
    surfaces.map_values(|s: LockSurface| destroyed(s))
}

impl SessionView {
    /// `self` with a new surface list and the primary re-elected for it.
    pub open spec fn reelected(self, surfaces: Seq<LockSurface>) -> SessionView {
        SessionView { surfaces, primary: spec_elect(surfaces, self.priority), ..self }
    }

    /// Structural invariant of the surface registry: well-formed surfaces,
    /// one record per output identity.
    pub open spec fn surfaces_wf(self) -> bool {
        &&& forall|i: int| 0 <= i < self.surfaces.len() ==> (#[trigger] self.surfaces[i]).wf()
        &&& forall|i: int, j: int|
            0 <= i < j < self.surfaces.len() ==> (#[trigger] self.surfaces[i]).output != (
            #[trigger] self.surfaces[j]).output
    }

    /// Session invariant: the registry is well formed and the marked primary
    /// is exactly what the election rule picks.
    pub open spec fn wf(self) -> bool {
        &&& self.surfaces_wf()
        &&& self.primary == spec_elect(self.surfaces, self.priority)
    }
}

/// The transition relation of the session state machine.
///
/// A terminated session absorbs everything.  The unlock signal, when the
/// lock handle is held, runs the whole unlock transition: it passes through
/// `Unlocking` and ends `Terminated` within the same dispatch.
pub open spec fn next(v: SessionView, e: LockEvent) -> SessionView {
    if v.state is Terminated {
        v
    } else {
        match e {
            LockEvent::OutputAdded { id, name } => match find_surface_from(v.surfaces, id, 0) {
                Some(i) => v.reelected(v.surfaces.update(i, renamed(v.surfaces[i], name))),
                None => v.reelected(
                    v.surfaces.push(
                        LockSurface {
                            output: id,
                            output_name: name,
                            phase: SurfacePhase::Created,
                            configured: false,
                            is_active: true,
                        },
                    ),
                ),
            },
            LockEvent::OutputUpdated { id, name } => match find_surface_from(v.surfaces, id, 0) {
                Some(i) => v.reelected(v.surfaces.update(i, renamed(v.surfaces[i], name))),
                None => v.reelected(v.surfaces),
            },
            LockEvent::OutputRemoved { id } => match find_surface_from(v.surfaces, id, 0) {
                Some(i) => v.reelected(v.surfaces.update(i, destroyed(v.surfaces[i]))),
                None => v,
            },
            LockEvent::SurfaceRealized { id } => match find_surface_from(v.surfaces, id, 0) {
                Some(i) => if v.surfaces[i].phase is Created {
                    SessionView { surfaces: v.surfaces.update(i, bound(v.surfaces[i])), ..v }
                } else {
                    v
                },
                None => v,
            },
            LockEvent::Configure { id, width, height } => match find_surface_from(
                v.surfaces,
                id,
                0,
            ) {
                Some(i) => if v.surfaces[i].phase is ProtocolBound || v.surfaces[i].phase
                    is Visible {
                    v.reelected(v.surfaces.update(i, shown(v.surfaces[i])))
                } else {
                    v.reelected(v.surfaces)
                },
                None => v.reelected(v.surfaces),
            },
            LockEvent::LockConfirmed => SessionView {
                state: if v.state is Locking {
                    SessionState::Locked
                } else {
                    v.state
                },
                ..v.reelected(v.surfaces)
            },
            LockEvent::Finished => SessionView { state: SessionState::Terminated, ..v },
            LockEvent::UnlockSignal => if v.has_lock {
                SessionView {
                    state: SessionState::Terminated,
                    has_lock: false,
                    ..v.reelected(all_destroyed(v.surfaces))
                }
            } else {
                v
            },
            LockEvent::WindowReady => SessionView { ready: true, ..v.reelected(v.surfaces) },
        }
    }
}

/// `EmitPrimary(..., false)` for every active surface in `surfaces[i..]`
/// other than the elected index `p`, in registry order.
pub open spec fn election_mark_from(surfaces: Seq<LockSurface>, p: int, i: int) -> Seq<Action>
    decreases surfaces.len() - i when 0 <= i <= surfaces.len()
{
    if i >= surfaces.len() {
        Seq::empty()
    } else {
        let rest = election_mark_from(surfaces, p, i + 1);
        if surfaces[i].is_active && i != p {
            seq![Action::EmitPrimary { id: surfaces[i].output, is_primary: false }] + rest
        } else {
            rest
        }
    }
}

/// The UI effects of running primary election: every other active surface
/// is told it is not primary, then the elected surface is told it is and is
/// given focus.  No active surface means no effects.
pub open spec fn election_actions(surfaces: Seq<LockSurface>, priority: Seq<Seq<char>>) -> Seq<
    Action,
> {
    match spec_elect(surfaces, priority) {
        Some(p) => election_mark_from(surfaces, p, 0) + seq![
            Action::EmitPrimary { id: surfaces[p].output, is_primary: true },
            Action::GrabFocus { id: surfaces[p].output },
        ],
        None => Seq::empty(),
    }
}

/// `CloseUi` for every active surface in `surfaces[i..]`, in registry order.
pub open spec fn close_from(surfaces: Seq<LockSurface>, i: int) -> Seq<Action>
    decreases surfaces.len() - i when 0 <= i <= surfaces.len()
{
    if i >= surfaces.len() {
        Seq::empty()
    } else {
        let rest = close_from(surfaces, i + 1);
        if surfaces[i].is_active {
            seq![Action::CloseUi { id: surfaces[i].output }] + rest
        } else {
            rest
        }
    }
}

/// The actions a transition asks of the event loop.
pub open spec fn step_actions(v: SessionView, e: LockEvent) -> Seq<Action> {
    if v.state is Terminated {
        Seq::empty()
    } else {
        match e {
            LockEvent::OutputAdded { id, name } => match find_surface_from(v.surfaces, id, 0) {
                Some(i) => election_actions(
                    v.surfaces.update(i, renamed(v.surfaces[i], name)),
                    v.priority,
                ),
                None => seq![Action::CreateUi { id }] + election_actions(
                    v.surfaces.push(
                        LockSurface {
                            output: id,
                            output_name: name,
                            phase: SurfacePhase::Created,
                            configured: false,
                            is_active: true,
                        },
                    ),
                    v.priority,
                ),
            },
            LockEvent::OutputUpdated { id, name } => match find_surface_from(v.surfaces, id, 0) {
                Some(i) => election_actions(
                    v.surfaces.update(i, renamed(v.surfaces[i], name)),
                    v.priority,
                ),
                None => election_actions(v.surfaces, v.priority),
            },
            LockEvent::OutputRemoved { id } => match find_surface_from(v.surfaces, id, 0) {
                Some(i) => seq![Action::CloseUi { id }] + election_actions(
                    v.surfaces.update(i, destroyed(v.surfaces[i])),
                    v.priority,
                ),
                None => Seq::empty(),
            },
            LockEvent::SurfaceRealized { id } => match find_surface_from(v.surfaces, id, 0) {
                Some(i) => if v.surfaces[i].phase is Created {
                    seq![Action::BindLockSurface { id }]
                } else {
                    Seq::empty()
                },
                None => Seq::empty(),
            },
            LockEvent::Configure { id, width, height } => match find_surface_from(
                v.surfaces,
                id,
                0,
            ) {
                Some(i) => if v.surfaces[i].phase is ProtocolBound || v.surfaces[i].phase
                    is Visible {
                    seq![
                        Action::SetSize { id, width, height },
                        Action::ShowUi { id },
                    ] + election_actions(v.surfaces.update(i, shown(v.surfaces[i])), v.priority)
                } else {
                    election_actions(v.surfaces, v.priority)
                },
                None => election_actions(v.surfaces, v.priority),
            },
            LockEvent::LockConfirmed => election_actions(v.surfaces, v.priority),
            LockEvent::Finished => seq![Action::Exit { code: 0 }],
            LockEvent::UnlockSignal => if v.has_lock {
                close_from(v.surfaces, 0) + seq![
                    Action::ReleaseLock,
                    Action::RoundTrip,
                    Action::Exit { code: 0 },
                ]
            } else {
                Seq::empty()
            },
            LockEvent::WindowReady => election_actions(v.surfaces, v.priority),
        }
    }
}

/// The session aggregate: lifecycle state, lock-handle ownership, the
/// surface registry, the marked primary, and the configured priority list.
pub struct LockSession {
    pub state: SessionState,
    /// Whether the compositor's session-lock handle is held.  It is consumed
    /// exactly once, by the unlock transition.
    pub has_lock: bool,
    /// Whether at least one surface's UI content has reported ready; gates
    /// UI-triggered side effects such as exposing suspend affordances.
    pub ready: bool,
    pub surfaces: Vec<LockSurface>,
    /// Index of the surface currently marked primary, if any.
    pub primary: Option<usize>,
    /// Preferred output names from configuration, most preferred first.
    pub priority: Vec<String>,
}

impl View for LockSession {
    type V = SessionView;

    open spec fn view(&self) -> SessionView {
        SessionView {
            state: self.state,
            has_lock: self.has_lock,
            ready: self.ready,
            surfaces: self.surfaces@,
            primary: match self.primary {
                Some(i) => Some(i as int),
                None => None,
            },
            priority: self.priority.deep_view(),
        }
    }
}

/// Find the index of the surface recorded for output `id`.
fn find_surface_index(surfaces: &Vec<LockSurface>, id: u64) -> (r: Option<usize>)
    ensures
        match r {
            Some(i) => find_surface_from(surfaces@, id, 0) == Some(i as int) && i < surfaces@.len()
                && surfaces@[i as int].output == id,
            None => find_surface_from(surfaces@, id, 0) is None,
        },
{
    let n: usize = surfaces.len();
    let mut i: usize = 0;
    while i < n
        invariant
            0 <= i <= n,
            n == surfaces@.len(),
            find_surface_from(surfaces@, id, 0) == find_surface_from(surfaces@, id, i as int),
        decreases n - i,
    {
        if surfaces[i].output == id {
            return Some(i);
        }
        i = i + 1;
    }
    None
}

/// Run the election and emit its UI effects; returns the elected index and
/// the action list.
fn election_action_vec(surfaces: &Vec<LockSurface>, priority: &Vec<String>) -> (r: (
    Option<usize>,
    Vec<Action>,
))
    ensures
        match r.0 {
            Some(i) => spec_elect(surfaces@, priority.deep_view()) == Some(i as int),
            None => spec_elect(surfaces@, priority.deep_view()) is None,
        },
        r.1@ == election_actions(surfaces@, priority.deep_view()),
{
    let p = elect_primary(surfaces, priority);
    proof {
        lemma_elected_is_active(surfaces@, priority.deep_view());
    }
    let mut acts: Vec<Action> = Vec::new();
    match p {
        None => (None, acts),
        Some(pi) => {
            let n: usize = surfaces.len();
            let mut j: usize = 0;
            proof {
                assert(acts@ + election_mark_from(surfaces@, pi as int, 0) =~= election_mark_from(
                    surfaces@,
                    pi as int,
                    0,
                ));
            }
            while j < n
                invariant
                    0 <= j <= n,
                    n == surfaces@.len(),
                    pi < n,
                    spec_elect(surfaces@, priority.deep_view()) == Some(pi as int),
                    acts@ + election_mark_from(surfaces@, pi as int, j as int)
                        == election_mark_from(surfaces@, pi as int, 0),
                decreases n - j,
            {
                if surfaces[j].is_active && j != pi {
                    let a = Action::EmitPrimary { id: surfaces[j].output, is_primary: false };
                    acts.push(a);
                    proof {
                        assert((acts@ + election_mark_from(surfaces@, pi as int, j + 1)) =~= (
                        acts@.drop_last() + (seq![a] + election_mark_from(
                            surfaces@,
                            pi as int,
                            j + 1,
                        ))));
                    }
                }
                j = j + 1;
            }
            proof {
                assert(acts@ + election_mark_from(surfaces@, pi as int, n as int) =~= acts@);
            }
            acts.push(Action::EmitPrimary { id: surfaces[pi].output, is_primary: true });
            acts.push(Action::GrabFocus { id: surfaces[pi].output });
            proof {
                assert(acts@ =~= election_mark_from(surfaces@, pi as int, 0) + seq![
                    Action::EmitPrimary {
                        id: surfaces@[pi as int].output,
                        is_primary: true,
                    },
                    Action::GrabFocus { id: surfaces@[pi as int].output },
                ]);
            }
            (Some(pi), acts)
        },
    }
}

/// The transition preserves the session invariant.
pub proof fn lemma_next_wf(v: SessionView, e: LockEvent)
    requires
        v.wf(),
    ensures
        next(v, e).wf(),
{
    if !(v.state is Terminated) {
        match e {
            LockEvent::OutputAdded { id, name } => {
                lemma_find_surface_props(v.surfaces, id, 0);
            },
            LockEvent::OutputUpdated { id, name } => {
                lemma_find_surface_props(v.surfaces, id, 0);
            },
            LockEvent::OutputRemoved { id } => {
                lemma_find_surface_props(v.surfaces, id, 0);
            },
            LockEvent::SurfaceRealized { id } => {
                lemma_find_surface_props(v.surfaces, id, 0);
                match find_surface_from(v.surfaces, id, 0) {
                    Some(i) => {
                        if v.surfaces[i].phase is Created {
                            let s2 = v.surfaces.update(i, bound(v.surfaces[i]));
                            crate::election::lemma_elect_depends(v.surfaces, s2, v.priority);
                        }
                    },
                    None => {},
                }
            },
            LockEvent::Configure { id, width, height } => {
                lemma_find_surface_props(v.surfaces, id, 0);
            },
            _ => {},
        }
    }
}

impl LockSession {
    /// A fresh session: locking, no lock handle yet, no surfaces.
    pub fn new(priority: Vec<String>) -> (s: Self)
        ensures
            s@ == (SessionView {
                state: SessionState::Locking,
                has_lock: false,
                ready: false,
                surfaces: Seq::empty(),
                primary: None,
                priority: priority.deep_view(),
            }),
            s@.wf(),
    {
        let s = LockSession {
            state: SessionState::Locking,
            has_lock: false,
            ready: false,
            surfaces: Vec::new(),
            primary: None,
            priority,
        };
        proof {
            lemma_elected_is_active(s.surfaces@, s.priority.deep_view());
            assert(s@.surfaces =~= Seq::<LockSurface>::empty());
        }
        s
    }

    /// Record the outcome of requesting the compositor's session-lock
    /// object.  A compositor without the lock protocol is fatal: the process
    /// must exit with a non-zero status before any UI exists, because a
    /// shell that cannot prove the screen is locked must never pretend it
    /// is.
    pub fn begin_lock(&mut self, supported: bool) -> (actions: Vec<Action>)
        requires
            old(self)@.wf(),
            old(self)@.state is Locking,
            !old(self)@.has_lock,
        ensures
            final(self)@.wf(),
            supported ==> final(self)@ == (SessionView { has_lock: true, ..old(self)@ })
                && actions@ == Seq::<Action>::empty(),
            !supported ==> final(self)@ == (SessionView {
                state: SessionState::Terminated,
                ..old(self)@
            }) && actions@ == seq![Action::Exit { code: 1 }],
    {
        let mut actions: Vec<Action> = Vec::new();
        if supported {
            self.has_lock = true;
        } else {
            self.state = SessionState::Terminated;
            actions.push(Action::Exit { code: 1 });
            proof {
                assert(actions@ =~= seq![Action::Exit { code: 1 }]);
            }
        }
        actions
    }

    /// Apply one event, returning the actions the event loop must perform,
    /// in order.  The whole orchestrator behaviour is this function, run
    /// once per dispatched event on the orchestrator thread.
    pub fn apply_event(&mut self, e: LockEvent) -> (actions: Vec<Action>)
        requires
            old(self)@.wf(),
        ensures
            final(self)@ == next(old(self)@, e),
            actions@ == step_actions(old(self)@, e),
            final(self)@.wf(),
    {
        proof {
            lemma_next_wf(self@, e);
        }
        if self.state == SessionState::Terminated {
            return Vec::new();
        }
        match e {
            LockEvent::OutputAdded { id, name } => self.on_output_added(id, name),
            LockEvent::OutputUpdated { id, name } => self.on_output_updated(id, name),
            LockEvent::OutputRemoved { id } => self.on_output_removed(id),
            LockEvent::SurfaceRealized { id } => self.on_surface_realized(id),
            LockEvent::Configure { id, width, height } => self.on_configure(id, width, height),
            LockEvent::LockConfirmed => self.on_lock_confirmed(),
            LockEvent::Finished => self.on_finished(),
            LockEvent::UnlockSignal => self.on_unlock_signal(),
            LockEvent::WindowReady => self.on_window_ready(),
        }
    }

    /// A new output: refresh the name of a known record, or create a fresh
    /// surface (hidden UI window) for an unknown one; then re-elect.
    fn on_output_added(&mut self, id: u64, name: String) -> (actions: Vec<Action>)
        requires
            old(self)@.wf(),
            !(old(self)@.state is Terminated),
        ensures
            final(self)@ == next(old(self)@, LockEvent::OutputAdded { id, name }),
            actions@ == step_actions(old(self)@, LockEvent::OutputAdded { id, name }),
    {
        let ghost v0 = self@;
        let mut actions: Vec<Action> = Vec::new();
        match find_surface_index(&self.surfaces, id) {
            Some(i) => {
                self.surfaces[i].output_name = name;
                proof {
                    assert(self.surfaces@ =~= v0.surfaces.update(
                        i as int,
                        renamed(v0.surfaces[i as int], self.surfaces@[i as int].output_name),
                    ));
                }
            },
            None => {
                let s = LockSurface::new(id, name);
                self.surfaces.push(s);
                actions.push(Action::CreateUi { id });
            },
        }
        let (p, mut acts) = election_action_vec(&self.surfaces, &self.priority);
        self.primary = p;
        actions.append(&mut acts);
        proof {
            assert(actions@ =~= step_actions(v0, LockEvent::OutputAdded { id, name }));
        }
        actions
    }

    /// A metadata update: refresh the display name only, then re-elect.
    fn on_output_updated(&mut self, id: u64, name: String) -> (actions: Vec<Action>)
        requires
            old(self)@.wf(),
            !(old(self)@.state is Terminated),
        ensures
            final(self)@ == next(old(self)@, LockEvent::OutputUpdated { id, name }),
            actions@ == step_actions(old(self)@, LockEvent::OutputUpdated { id, name }),
    {
        let ghost v0 = self@;
        match find_surface_index(&self.surfaces, id) {
            Some(i) => {
                self.surfaces[i].output_name = name;
                proof {
                    assert(self.surfaces@ =~= v0.surfaces.update(
                        i as int,
                        renamed(v0.surfaces[i as int], self.surfaces@[i as int].output_name),
                    ));
                }
            },
            None => {},
        }
        let (p, acts) = election_action_vec(&self.surfaces, &self.priority);
        self.primary = p;
        acts
    }

    /// Output removal: mark the record inactive and close its UI window;
    /// the record itself is kept so registry order survives re-election.
    fn on_output_removed(&mut self, id: u64) -> (actions: Vec<Action>)
        requires
            old(self)@.wf(),
            !(old(self)@.state is Terminated),
        ensures
            final(self)@ == next(old(self)@, LockEvent::OutputRemoved { id }),
            actions@ == step_actions(old(self)@, LockEvent::OutputRemoved { id }),
    {
        let ghost v0 = self@;
        match find_surface_index(&self.surfaces, id) {
            Some(i) => {
                let mut actions: Vec<Action> = Vec::new();
                actions.push(Action::CloseUi { id });
                self.surfaces[i].is_active = false;
                self.surfaces[i].phase = SurfacePhase::Destroyed;
                proof {
                    assert(self.surfaces@ =~= v0.surfaces.update(
                        i as int,
                        destroyed(v0.surfaces[i as int]),
                    ));
                }
                let (p, mut acts) = election_action_vec(&self.surfaces, &self.priority);
                self.primary = p;
                actions.append(&mut acts);
                proof {
                    assert(actions@ =~= step_actions(v0, LockEvent::OutputRemoved { id }));
                }
                actions
            },
            None => Vec::new(),
        }
    }

    /// The native window surface exists: bind the lock-protocol surface,
    /// exactly once; a second realize event is a no-op.
    fn on_surface_realized(&mut self, id: u64) -> (actions: Vec<Action>)
        requires
            old(self)@.wf(),
            !(old(self)@.state is Terminated),
        ensures
            final(self)@ == next(old(self)@, LockEvent::SurfaceRealized { id }),
            actions@ == step_actions(old(self)@, LockEvent::SurfaceRealized { id }),
    {
        let ghost v0 = self@;
        match find_surface_index(&self.surfaces, id) {
            Some(i) => {
                if self.surfaces[i].phase == SurfacePhase::Created {
                    self.surfaces[i].phase = SurfacePhase::ProtocolBound;
                    proof {
                        assert(self.surfaces@ =~= v0.surfaces.update(
                            i as int,
                            bound(v0.surfaces[i as int]),
                        ));
                    }
                    let mut actions: Vec<Action> = Vec::new();
                    actions.push(Action::BindLockSurface { id });
                    proof {
                        assert(actions@ =~= seq![Action::BindLockSurface { id }]);
                    }
                    actions
                } else {
                    Vec::new()
                }
            },
            None => Vec::new(),
        }
    }

    /// A compositor-supplied size: apply it, show the window, re-elect.
    /// Only after this is the output genuinely protected; a bound but
    /// never-configured surface stays hidden.
    fn on_configure(&mut self, id: u64, width: u32, height: u32) -> (actions: Vec<Action>)
        requires
            old(self)@.wf(),
            !(old(self)@.state is Terminated),
        ensures
            final(self)@ == next(old(self)@, LockEvent::Configure { id, width, height }),
            actions@ == step_actions(old(self)@, LockEvent::Configure { id, width, height }),
    {
        let ghost v0 = self@;
        let mut actions: Vec<Action> = Vec::new();
        match find_surface_index(&self.surfaces, id) {
            Some(i) => {
                if self.surfaces[i].phase == SurfacePhase::ProtocolBound || self.surfaces[i].phase
                    == SurfacePhase::Visible {
                    self.surfaces[i].phase = SurfacePhase::Visible;
                    self.surfaces[i].configured = true;
                    proof {
                        assert(self.surfaces@ =~= v0.surfaces.update(
                            i as int,
                            shown(v0.surfaces[i as int]),
                        ));
                    }
                    actions.push(Action::SetSize { id, width, height });
                    actions.push(Action::ShowUi { id });
                }
            },
            None => {},
        }
        let (p, mut acts) = election_action_vec(&self.surfaces, &self.priority);
        self.primary = p;
        actions.append(&mut acts);
        proof {
            assert(actions@ =~= step_actions(v0, LockEvent::Configure { id, width, height }));
        }
        actions
    }

    /// The compositor confirmed the lock; outputs may have configured in
    /// any order relative to this, so the primary is re-elected.
    fn on_lock_confirmed(&mut self) -> (actions: Vec<Action>)
        requires
            old(self)@.wf(),
            !(old(self)@.state is Terminated),
        ensures
            final(self)@ == next(old(self)@, LockEvent::LockConfirmed),
            actions@ == step_actions(old(self)@, LockEvent::LockConfirmed),
    {
        if self.state == SessionState::Locking {
            self.state = SessionState::Locked;
        }
        let (p, acts) = election_action_vec(&self.surfaces, &self.priority);
        self.primary = p;
        acts
    }

    /// Compositor-side revocation: terminate regardless of current state.
    fn on_finished(&mut self) -> (actions: Vec<Action>)
        requires
            old(self)@.wf(),
            !(old(self)@.state is Terminated),
        ensures
            final(self)@ == next(old(self)@, LockEvent::Finished),
            actions@ == step_actions(old(self)@, LockEvent::Finished),
    {
        self.state = SessionState::Terminated;
        let mut actions: Vec<Action> = Vec::new();
        actions.push(Action::Exit { code: 0 });
        proof {
            assert(actions@ =~= seq![Action::Exit { code: 0 }]);
        }
        actions
    }

    /// The unlock signal: the one sanctioned trigger of the unlock
    /// transition, which runs to process termination within this dispatch.
    /// Every active surface is closed, the lock handle is released, and a
    /// blocking round-trip guarantees the compositor has processed the
    /// unlock before the process exits.
    fn on_unlock_signal(&mut self) -> (actions: Vec<Action>)
        requires
            old(self)@.wf(),
            !(old(self)@.state is Terminated),
        ensures
            final(self)@ == next(old(self)@, LockEvent::UnlockSignal),
            actions@ == step_actions(old(self)@, LockEvent::UnlockSignal),
    {
        let ghost v0 = self@;
        if !self.has_lock {
            return Vec::new();
        }
        let mut actions: Vec<Action> = Vec::new();
        let n: usize = self.surfaces.len();
        let mut i: usize = 0;
        proof {
            assert(actions@ + close_from(v0.surfaces, 0) =~= close_from(v0.surfaces, 0));
        }
        while i < n
            invariant
                0 <= i <= n,
                self@ == v0,
                n == self.surfaces@.len(),
                actions@ + close_from(v0.surfaces, i as int) == close_from(v0.surfaces, 0),
            decreases n - i,
        {
            if self.surfaces[i].is_active {
                let a = Action::CloseUi { id: self.surfaces[i].output };
                actions.push(a);
                proof {
                    assert((actions@ + close_from(v0.surfaces, i + 1)) =~= (actions@.drop_last()
                        + (seq![a] + close_from(v0.surfaces, i + 1))));
                }
            }
            i = i + 1;
        }
        proof {
            assert(actions@ + close_from(v0.surfaces, n as int) =~= actions@);
        }
        let mut k: usize = 0;
        while k < n
            invariant
                0 <= k <= n,
                n == self.surfaces@.len(),
                v0.surfaces.len() == n,
                self@.state == v0.state,
                self@.has_lock == v0.has_lock,
                self@.ready == v0.ready,
                self@.primary == v0.primary,
                self@.priority == v0.priority,
                forall|m: int| 0 <= m < k ==> self.surfaces@[m] == destroyed(v0.surfaces[m]),
                forall|m: int| k <= m < n ==> self.surfaces@[m] == v0.surfaces[m],
            decreases n - k,
        {
            self.surfaces[k].is_active = false;
            self.surfaces[k].phase = SurfacePhase::Destroyed;
            k = k + 1;
        }
        proof {
            assert(self.surfaces@ =~= all_destroyed(v0.surfaces));
        }
        let (p, acts) = election_action_vec(&self.surfaces, &self.priority);
        self.primary = p;
        self.has_lock = false;
        self.state = SessionState::Terminated;
        proof {
            lemma_elected_is_active(self.surfaces@, self.priority.deep_view());
            assert(forall|m: int| 0 <= m < all_destroyed(v0.surfaces).len()
                ==> !all_destroyed(v0.surfaces)[m].is_active);
            assert(spec_elect(self.surfaces@, self.priority.deep_view()) is None);
            assert(acts@ =~= Seq::<Action>::empty());
        }
        actions.push(Action::ReleaseLock);
        actions.push(Action::RoundTrip);
        actions.push(Action::Exit { code: 0 });
        proof {
            assert(actions@ =~= step_actions(v0, LockEvent::UnlockSignal));
        }
        actions
    }

    /// Some surface's UI content finished initializing: remember it (gates
    /// suspend affordances) and re-elect so focus lands correctly.
    fn on_window_ready(&mut self) -> (actions: Vec<Action>)
        requires
            old(self)@.wf(),
            !(old(self)@.state is Terminated),
        ensures
            final(self)@ == next(old(self)@, LockEvent::WindowReady),
            actions@ == step_actions(old(self)@, LockEvent::WindowReady),
    {
        self.ready = true;
        let (p, acts) = election_action_vec(&self.surfaces, &self.priority);
        self.primary = p;
        acts
    }
}

/// Whether an action tells a surface it is primary.
pub open spec fn is_primary_emit(a: Action) -> bool {
    match a {
        Action::EmitPrimary { id, is_primary } => is_primary,
        _ => false,
    }
}

proof fn lemma_mark_entries_not_primary(surfaces: Seq<LockSurface>, p: int, i: int)
    requires
        0 <= i <= surfaces.len(),
    ensures
        forall|k: int|
            0 <= k < election_mark_from(surfaces, p, i).len() ==> !is_primary_emit(
                #[trigger] election_mark_from(surfaces, p, i)[k],
            ),
    decreases surfaces.len() - i,
{
    if i < surfaces.len() {
        lemma_mark_entries_not_primary(surfaces, p, i + 1);
        let rest = election_mark_from(surfaces, p, i + 1);
        let whole = election_mark_from(surfaces, p, i);
        if surfaces[i].is_active && i != p {
            let x = Action::EmitPrimary { id: surfaces[i].output, is_primary: false };
            assert forall|k: int| 0 <= k < whole.len() implies !is_primary_emit(
                whole[k],
            ) by {
                if k == 0 {
                    assert(whole[0] == x);
                } else {
                    assert(whole[k] == rest[k - 1]);
                }
            }
        }
    }
}

/// Law: one election round tells at most one surface that it is primary —
/// the elected one, in the round's second-to-last action — and every
/// earlier action of the round demotes some other surface.  With no active
/// surface the round is empty.
pub proof fn lemma_at_most_one_primary_emit(surfaces: Seq<LockSurface>, priority: Seq<Seq<char>>)
    ensures
        match spec_elect(surfaces, priority) {
            Some(p) => {
                let acts = election_actions(surfaces, priority);
                &&& acts.len() >= 2
                &&& acts[acts.len() - 2] == (Action::EmitPrimary {
                    id: surfaces[p].output,
                    is_primary: true,
                })
                &&& forall|k: int|
                    0 <= k < acts.len() && k != acts.len() - 2 ==> !is_primary_emit(
                        #[trigger] acts[k],
                    )
            },
            None => election_actions(surfaces, priority) == Seq::<Action>::empty(),
        },
{
    match spec_elect(surfaces, priority) {
        Some(p) => {
            lemma_mark_entries_not_primary(surfaces, p, 0);
        },
        None => {},
    }
}

/// The session reached by applying a whole event sequence in order.
pub open spec fn run_events(v: SessionView, es: Seq<LockEvent>) -> SessionView
    decreases es.len(),
{
    if es.len() == 0 {
        v
    } else {
        run_events(next(v, es[0]), es.drop_first())
    }
}

/// Law: every event sequence preserves the session invariant.  In
/// particular, after any sequence of output add/update/remove events, at
/// most one surface is marked primary (the `primary` index), and that
/// surface is exactly what the election rule picks for the current priority
/// list and active surface set (see `election::lemma_election_rule`).
pub proof fn lemma_run_events_wf(v: SessionView, es: Seq<LockEvent>)
    requires
        v.wf(),
    ensures
        run_events(v, es).wf(),
    decreases es.len(),
{
    if es.len() > 0 {
        lemma_next_wf(v, es[0]);
        lemma_run_events_wf(next(v, es[0]), es.drop_first());
    }
}

/// Events that may legitimately end the session: the unlock signal (sent
/// only after a successful credential check) and compositor revocation.
pub open spec fn is_unlock_trigger(e: LockEvent) -> bool {
    e is UnlockSignal || e is Finished
}

/// Law: without an unlock signal or compositor revocation, no sequence of
/// events — UI events in particular — can leave {Locking, Locked}, so the
/// session never reaches Unlocking or Terminated.
pub proof fn lemma_no_unlock_without_signal(v: SessionView, es: Seq<LockEvent>)
    requires
        v.state is Locking || v.state is Locked,
        forall|k: int| 0 <= k < es.len() ==> !is_unlock_trigger(#[trigger] es[k]),
    ensures
        run_events(v, es).state is Locking || run_events(v, es).state is Locked,
    decreases es.len(),
{
    if es.len() > 0 {
        assert(!is_unlock_trigger(es[0]));
        assert(next(v, es[0]).state is Locking || next(v, es[0]).state is Locked);
        lemma_no_unlock_without_signal(next(v, es[0]), es.drop_first());
    }
}

/// Law: the unlock signal is sufficient.  Received while the lock handle is
/// held, it runs the unlock transition to termination: every active surface
/// is closed, the lock handle is released and consumed, a blocking
/// round-trip follows, and the process exits successfully.
pub proof fn lemma_unlock_signal_unlocks(v: SessionView)
    requires
        v.has_lock,
        !(v.state is Terminated),
    ensures
        next(v, LockEvent::UnlockSignal).state is Terminated,
        !next(v, LockEvent::UnlockSignal).has_lock,
        forall|i: int|
            0 <= i < next(v, LockEvent::UnlockSignal).surfaces.len() ==> !(#[trigger] next(
                v,
                LockEvent::UnlockSignal,
            ).surfaces[i]).is_active,
        step_actions(v, LockEvent::UnlockSignal) == close_from(v.surfaces, 0) + seq![
            Action::ReleaseLock,
            Action::RoundTrip,
            Action::Exit { code: 0 },
        ],
{
}

/// A terminated session never changes again.
pub proof fn lemma_terminated_run(v: SessionView, es: Seq<LockEvent>)
    requires
        v.state is Terminated,
    ensures
        run_events(v, es) == v,
    decreases es.len(),
{
    if es.len() > 0 {
        lemma_terminated_run(next(v, es[0]), es.drop_first());
    }
}

/// Law: a terminated session absorbs every event without emitting a single
/// action.  Together with `begin_lock`, this gives the fatal-startup
/// guarantee: a compositor without the lock protocol yields exactly one
/// non-zero exit action and no UI window is ever created or shown.
pub proof fn lemma_terminated_absorbs(v: SessionView, es: Seq<LockEvent>)
    requires
        v.state is Terminated,
    ensures
        run_events(v, es) == v,
        forall|k: int|
            0 <= k < es.len() ==> step_actions(run_events(v, es.take(k)), #[trigger] es[k])
                == Seq::<Action>::empty(),
{
    lemma_terminated_run(v, es);
    assert forall|k: int| 0 <= k < es.len() implies step_actions(
        run_events(v, es.take(k)),
        es[k],
    ) == Seq::<Action>::empty() by {
        lemma_terminated_run(v, es.take(k));
    }
}

/// No surface recorded for output `o` has been configured or shown.
pub open spec fn not_shown_for(surfaces: Seq<LockSurface>, o: u64) -> bool {
    forall|i: int|
        0 <= i < surfaces.len() && (#[trigger] surfaces[i]).output == o ==> !surfaces[i].configured
            && !(surfaces[i].phase is Visible)
}

/// Whether `e` is a configure event for output `o`.
pub open spec fn is_configure_for(e: LockEvent, o: u64) -> bool {
    match e {
        LockEvent::Configure { id, width, height } => id == o,
        _ => false,
    }
}

proof fn lemma_step_not_shown(v: SessionView, e: LockEvent, o: u64)
    requires
        not_shown_for(v.surfaces, o),
        !is_configure_for(e, o),
    ensures
        not_shown_for(next(v, e).surfaces, o),
{
    if !(v.state is Terminated) {
        match e {
            LockEvent::OutputAdded { id, name } => {
                lemma_find_surface_props(v.surfaces, id, 0);
            },
            LockEvent::OutputUpdated { id, name } => {
                lemma_find_surface_props(v.surfaces, id, 0);
            },
            LockEvent::OutputRemoved { id } => {
                lemma_find_surface_props(v.surfaces, id, 0);
            },
            LockEvent::SurfaceRealized { id } => {
                lemma_find_surface_props(v.surfaces, id, 0);
            },
            LockEvent::Configure { id, width, height } => {
                lemma_find_surface_props(v.surfaces, id, 0);
            },
            _ => {},
        }
    }
}

/// Law: a lock surface never becomes visible (nor counts as configured)
/// before a configure event for its output has been received.
pub proof fn lemma_no_visible_without_configure(v: SessionView, es: Seq<LockEvent>, o: u64)
    requires
        not_shown_for(v.surfaces, o),
        forall|k: int| 0 <= k < es.len() ==> !is_configure_for(#[trigger] es[k], o),
    ensures
        not_shown_for(run_events(v, es).surfaces, o),
    decreases es.len(),
{
    if es.len() > 0 {
        lemma_step_not_shown(v, es[0], o);
        lemma_no_visible_without_configure(next(v, es[0]), es.drop_first(), o);
    }
}

/// Law: after the only active output is removed, re-adding an output whose
/// name stands on the priority list elects the new surface as primary.
pub proof fn lemma_readd_elects(v: SessionView, rid: u64, nid: u64, name: String)
    requires
        v.wf(),
        !(v.state is Terminated),
        // the surface for `rid` is the only active one
        forall|i: int|
            0 <= i < v.surfaces.len() && (#[trigger] v.surfaces[i]).is_active
                ==> v.surfaces[i].output == rid,
        // the re-added output carries a fresh identity
        forall|i: int| 0 <= i < v.surfaces.len() ==> (#[trigger] v.surfaces[i]).output != nid,
        // its name stands on the priority list
        exists|j: int| 0 <= j < v.priority.len() && v.priority[j] == name@,
    ensures
        ({
            let v2 = next(
                next(v, LockEvent::OutputRemoved { id: rid }),
                LockEvent::OutputAdded { id: nid, name },
            );
            &&& v2.primary == Some(v2.surfaces.len() - 1)
            &&& v2.surfaces[v2.surfaces.len() - 1].output == nid
            &&& v2.surfaces[v2.surfaces.len() - 1].output_name == name
            &&& v2.surfaces[v2.surfaces.len() - 1].is_active
        }),
{
    let v1 = next(v, LockEvent::OutputRemoved { id: rid });
    lemma_find_surface_props(v.surfaces, rid, 0);
    assert(forall|m: int| 0 <= m < v1.surfaces.len() ==> !(#[trigger] v1.surfaces[m]).is_active);
    assert(forall|m: int|
        0 <= m < v1.surfaces.len() ==> (#[trigger] v1.surfaces[m]).output != nid);
    let v2 = next(v1, LockEvent::OutputAdded { id: nid, name });
    lemma_find_surface_props(v1.surfaces, nid, 0);
    let last = v2.surfaces.len() - 1;
    assert(v2.surfaces[last].is_active);
    lemma_elected_is_active(v2.surfaces, v2.priority);
    match spec_elect(v2.surfaces, v2.priority) {
        Some(i) => {
            assert(i == last);
        },
        None => {
            assert(false);
        },
    }
}

} // verus!
