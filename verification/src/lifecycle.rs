//! The lifecycle of a single-window app: what the framework does on each
//! callback of the event loop.
//!
//! The framework owns a window, a graphics backend and a device that is
//! created before the window exists and consumed when the backend is built,
//! and it owns the user's handler, which is created lazily on the first
//! resume. The event loop itself, and the objects, live outside; here each
//! callback is a step from the current state to the next one, together with
//! the list of effects that the runner must perform, in order.
use vstd::prelude::*;
use crate::event::{AppEvent, WindowInput, app_event_of};
use crate::input::PhysicalKey;

verus! {

/// What the lifecycle knows of the app context and the handler.
#[derive(Debug)]
pub struct LifecycleState {
    /// The user's handler has been created
    pub initialized: bool,
    /// The context holds a window
    pub window: bool,
    /// The context holds a graphics backend
    pub backend: bool,
    /// The context still holds the early graphics device
    pub early_device: bool,
}

impl LifecycleState {
    /// A consistent state: the early device is there exactly as long as no
    /// backend has been built from it, and a handler only exists once the
    /// backend does.
    pub open spec fn wf(self) -> bool {
        &&& self.backend != self.early_device
        &&& self.initialized ==> self.backend
    }

    /// The state right after the context has been made.
    pub open spec fn initial() -> LifecycleState {
        LifecycleState { initialized: false, window: false, backend: false, early_device: true }
    }
}

/// Something the runner must do.
#[derive(Debug)]
pub enum Effect<C> {
    /// Keep the window that was just created as the context's window
    StoreWindow,
    /// Drop the context's window
    DropWindow,
    /// Build the graphics backend for the context's window out of the early device
    CreateBackend,
    /// Create the user's handler
    InitHandler,
    /// Let the handler draw
    Draw,
    /// Present the frame and acquire the next one
    Flip,
    /// Hand an event to the handler
    Deliver(AppEvent<C>),
    /// Ask the handler whether it lets a quit request stand, and answer
    /// with `Lifecycle::quit_answered`
    AskToQuit,
    /// Stop the event loop
    ExitLoop,
    /// Resize the backend's surface
    ResizeBackend { width: u32, height: u32 },
    /// Ask the window to be redrawn
    RequestRedraw,
    /// Tell the handler that the app quits
    Quitting,
}

/// A callback of the event loop.
#[derive(Debug)]
pub enum Callback<C> {
    /// The app was resumed; a new window has been created for it
    Resumed,
    /// The app was suspended
    Suspended,
    /// The window received an event
    WindowEvent(WindowInput<C>),
    /// The event loop is exiting
    Exiting,
    /// The event loop is about to wait for new events
    AboutToWait,
    /// The handler answered a quit request: `true` lets it stand, `false`
    /// cancels it
    QuitAnswered(bool),
}

/// Replacing the context's window (`present` tells whether there is a new
/// one): the backend is built the first time a window is there.
pub open spec fn set_window_spec<C>(s: LifecycleState, present: bool) -> (LifecycleState, Seq<Effect<C>>) {
    let create = !s.backend && present;
    (
        LifecycleState {
            initialized: s.initialized,
            window: present,
            backend: s.backend || create,
            early_device: s.early_device && !create,
        },
        (if present { seq![Effect::StoreWindow] } else { seq![Effect::DropWindow] })
            + (if create { seq![Effect::CreateBackend] } else { Seq::empty() }),
    )
}

/// Asking for a redraw reaches the window only if there is one.
pub open spec fn request_redraw_spec<C>(s: LifecycleState) -> Seq<Effect<C>> {
    if s.window { seq![Effect::RequestRedraw] } else { Seq::empty() }
}

/// Resuming stores the new window and creates the handler if there is none yet.
pub open spec fn resumed_spec<C>(s: LifecycleState) -> (LifecycleState, Seq<Effect<C>>) {
    let (s1, e1) = set_window_spec::<C>(s, true);
    if s1.initialized {
        (s1, e1)
    } else {
        (LifecycleState { initialized: true, ..s1 }, e1.push(Effect::InitHandler))
    }
}

/// Suspending drops the window.
pub open spec fn suspended_spec<C>(s: LifecycleState) -> (LifecycleState, Seq<Effect<C>>) {
    set_window_spec::<C>(s, false)
}

/// What a window event asks for. Nothing happens before the handler exists.
pub open spec fn window_event_spec<C>(s: LifecycleState, input: WindowInput<C>) -> Seq<Effect<C>> {
    if !s.initialized {
        Seq::empty()
    } else {
        match input {
            WindowInput::RedrawRequested => seq![Effect::Draw, Effect::Flip],
            WindowInput::CloseRequested => seq![
                Effect::Deliver(AppEvent::QuitRequested),
                Effect::AskToQuit,
            ],
            WindowInput::Resized { width, height } => seq![
                Effect::ResizeBackend { width, height },
                Effect::Deliver(AppEvent::WindowResized { width, height }),
            ] + request_redraw_spec::<C>(s),
            _ => match app_event_of(input) {
                Ok(event) => seq![Effect::Deliver(event)],
                Err(_) => Seq::empty(),
            },
        }
    }
}

/// Exiting tells the handler, if there is one.
pub open spec fn exiting_spec<C>(s: LifecycleState) -> Seq<Effect<C>> {
    if s.initialized { seq![Effect::Quitting] } else { Seq::empty() }
}

/// The handler's answer to a quit request: the loop stops only when the
/// handler lets the request stand.
pub open spec fn quit_answered_spec<C>(s: LifecycleState, accepted: bool) -> Seq<Effect<C>> {
    if s.initialized && accepted { seq![Effect::ExitLoop] } else { Seq::empty() }
}

/// Before waiting, the window is asked to be redrawn.
pub open spec fn about_to_wait_spec<C>(s: LifecycleState) -> Seq<Effect<C>> {
    request_redraw_spec::<C>(s)
}

/// One callback: the next state and the effects.
pub open spec fn step_spec<C>(s: LifecycleState, c: Callback<C>) -> (LifecycleState, Seq<Effect<C>>) {
    match c {
        Callback::Resumed => resumed_spec::<C>(s),
        Callback::Suspended => suspended_spec::<C>(s),
        Callback::WindowEvent(input) => (s, window_event_spec(s, input)),
        Callback::Exiting => (s, exiting_spec::<C>(s)),
        Callback::AboutToWait => (s, about_to_wait_spec::<C>(s)),
        Callback::QuitAnswered(accepted) => (s, quit_answered_spec::<C>(s, accepted)),
    }
}

/// A sequence of callbacks: the final state and all effects, in order.
pub open spec fn run_spec<C>(s: LifecycleState, calls: Seq<Callback<C>>) -> (LifecycleState, Seq<Effect<C>>)
    decreases calls.len(),
{
    if calls.len() == 0 {
        (s, Seq::empty())
    } else {
        let (s1, e1) = step_spec(s, calls[0]);
        let (s2, e2) = run_spec(s1, calls.drop_first());
        (s2, e1 + e2)
    }
}


/// The handler is created.
pub open spec fn creates_handler<C>(e: Effect<C>) -> bool {
    e is InitHandler
}

/// The graphics backend is built.
pub open spec fn creates_backend<C>(e: Effect<C>) -> bool {
    e is CreateBackend
}

/// An effect that only makes sense while the app runs: it reaches the
/// handler, the backend, or stops the loop on the handler's behalf.
pub open spec fn needs_running_app<C>(e: Effect<C>) -> bool {
    match e {
        Effect::Draw | Effect::Flip | Effect::Deliver(_) | Effect::AskToQuit | Effect::ExitLoop
        | Effect::ResizeBackend { .. } | Effect::Quitting => true,
        _ => false,
    }
}

/// No two effects of the sequence satisfy `p`.
pub open spec fn at_most_once<C>(es: Seq<Effect<C>>, p: spec_fn(Effect<C>) -> bool) -> bool {
    forall|i: int, j: int| 0 <= i < j < es.len() && #[trigger] p(es[i]) ==> !#[trigger] p(es[j])
}

/// Every effect that satisfies `p` comes after one that satisfies `q`.
pub open spec fn preceded_by<C>(
    es: Seq<Effect<C>>,
    p: spec_fn(Effect<C>) -> bool,
    q: spec_fn(Effect<C>) -> bool,
) -> bool {
    forall|j: int| 0 <= j < es.len() && #[trigger] p(es[j]) ==> exists|i: int| 0 <= i < j && q(es[i])
}

/// What one callback does, as far as the laws below need it.
proof fn lemma_step<C>(s: LifecycleState, c: Callback<C>)
    requires
        s.wf(),
    ensures
        ({
            let (s1, e1) = step_spec(s, c);
            &&& s1.wf()
            &&& s.initialized ==> s1.initialized
            &&& s.backend ==> s1.backend
            &&& at_most_once(e1, |e: Effect<C>| creates_handler(e))
            &&& at_most_once(e1, |e: Effect<C>| creates_backend(e))
            &&& s.initialized ==> forall|i: int| 0 <= i < e1.len() ==> !creates_handler(#[trigger] e1[i])
            &&& s.backend ==> forall|i: int| 0 <= i < e1.len() ==> !creates_backend(#[trigger] e1[i])
            &&& (exists|i: int| 0 <= i < e1.len() && creates_handler(#[trigger] e1[i])) ==> s1.initialized
            &&& (exists|i: int| 0 <= i < e1.len() && creates_backend(#[trigger] e1[i])) ==> s1.backend
            &&& !s.initialized ==> forall|i: int| 0 <= i < e1.len() ==> !needs_running_app(#[trigger] e1[i])
            &&& !s1.initialized ==> forall|i: int| 0 <= i < e1.len() ==> !creates_handler(#[trigger] e1[i])
            &&& preceded_by(e1, |e: Effect<C>| creates_handler(e), |e: Effect<C>| creates_backend(e))
                || s.backend
            &&& !s.backend && !s1.backend ==> forall|i: int| 0 <= i < e1.len() ==> !creates_handler(#[trigger] e1[i])
            &&& s1.initialized && !s.initialized ==> exists|k: int| 0 <= k < e1.len() && creates_handler(#[trigger] e1[k])
            &&& s1.backend && !s.backend ==> exists|k: int| 0 <= k < e1.len() && creates_backend(#[trigger] e1[k])
        }),
{
    let (s1, e1) = step_spec(s, c);
    match c {
        Callback::Resumed => {
            if !s.initialized {
                assert(creates_handler(e1[e1.len() - 1]));
            }
            if !s.backend {
                assert(creates_backend(e1[1]));
            }
        },
        Callback::Suspended => {},
        Callback::WindowEvent(input) => {},
        Callback::Exiting => {},
        Callback::AboutToWait => {},
        Callback::QuitAnswered(_) => {},
    }
}


/// The facts of `lemma_step` carried over a whole sequence of callbacks.
proof fn lemma_run<C>(s: LifecycleState, calls: Seq<Callback<C>>)
    requires
        s.wf(),
    ensures
        ({
            let (s2, es) = run_spec(s, calls);
            &&& s2.wf()
            &&& at_most_once(es, |e: Effect<C>| creates_handler(e))
            &&& at_most_once(es, |e: Effect<C>| creates_backend(e))
            &&& s.initialized ==> forall|i: int| 0 <= i < es.len() ==> !creates_handler(#[trigger] es[i])
            &&& s.backend ==> forall|i: int| 0 <= i < es.len() ==> !creates_backend(#[trigger] es[i])
            &&& !s.initialized ==> preceded_by(
                es,
                |e: Effect<C>| needs_running_app(e),
                |e: Effect<C>| creates_handler(e),
            )
            &&& !s.backend ==> preceded_by(
                es,
                |e: Effect<C>| creates_handler(e),
                |e: Effect<C>| creates_backend(e),
            )
        }),
    decreases calls.len(),
{
    if calls.len() == 0 {
        return;
    }
    let (s1, e1) = step_spec(s, calls[0]);
    let rest = calls.drop_first();
    let (s2, e2) = run_spec(s1, rest);
    lemma_step(s, calls[0]);
    lemma_run(s1, rest);
    let es = e1 + e2;
    assert(run_spec(s, calls) == (s2, es));
    let n: int = e1.len() as int;
    assert forall|i: int| 0 <= i < e2.len() implies es[n + i] == e2[i] by {}
    assert forall|i: int| 0 <= i < n implies es[i] == e1[i] by {}

    let ph = |e: Effect<C>| creates_handler(e);
    let pb = |e: Effect<C>| creates_backend(e);
    let pr = |e: Effect<C>| needs_running_app(e);

    assert forall|i: int, j: int| 0 <= i < j < es.len() && #[trigger] ph(es[i]) implies !#[trigger] ph(es[j]) by {
        if j < n {
        } else if i < n {
            assert(creates_handler(e1[i]));
            assert(s1.initialized);
            assert(es[j] == e2[j - n]);
        } else {
            assert(es[i] == e2[i - n]);
            assert(es[j] == e2[j - n]);
        }
    }
    assert forall|i: int, j: int| 0 <= i < j < es.len() && #[trigger] pb(es[i]) implies !#[trigger] pb(es[j]) by {
        if j < n {
        } else if i < n {
            assert(creates_backend(e1[i]));
            assert(s1.backend);
            assert(es[j] == e2[j - n]);
        } else {
            assert(es[i] == e2[i - n]);
            assert(es[j] == e2[j - n]);
        }
    }
    if s.initialized {
        assert forall|i: int| 0 <= i < es.len() implies !creates_handler(#[trigger] es[i]) by {
            if i >= n {
                assert(es[i] == e2[i - n]);
            }
        }
    }
    if s.backend {
        assert forall|i: int| 0 <= i < es.len() implies !creates_backend(#[trigger] es[i]) by {
            if i >= n {
                assert(es[i] == e2[i - n]);
            }
        }
    }
    if !s.initialized {
        assert forall|j: int| 0 <= j < es.len() && #[trigger] pr(es[j]) implies exists|i: int|
            0 <= i < j && ph(es[i]) by {
            assert(j >= n);
            assert(es[j] == e2[j - n]);
            if s1.initialized {
                let k: int = choose|k: int| 0 <= k < e1.len() && creates_handler(#[trigger] e1[k]);
                assert(ph(es[k]));
            } else {
                assert(pr(e2[j - n]));
                let i0: int = choose|i: int| 0 <= i < j - n && ph(e2[i]);
                assert(es[n + i0] == e2[i0]);
                assert(ph(es[n + i0]));
            }
        }
    }
    if !s.backend {
        assert forall|j: int| 0 <= j < es.len() && #[trigger] ph(es[j]) implies exists|i: int|
            0 <= i < j && pb(es[i]) by {
            if j < n {
                assert(ph(e1[j]));
                let i0: int = choose|i: int| 0 <= i < j && pb(e1[i]);
                assert(es[i0] == e1[i0]);
            } else {
                assert(es[j] == e2[j - n]);
                if s1.backend {
                    let k: int = choose|k: int| 0 <= k < e1.len() && creates_backend(#[trigger] e1[k]);
                    assert(pb(es[k]));
                } else {
                    assert(ph(e2[j - n]));
                    let i0: int = choose|i: int| 0 <= i < j - n && pb(e2[i]);
                    assert(es[n + i0] == e2[i0]);
                    assert(pb(es[n + i0]));
                }
            }
        }
    }
}


/// Whatever callbacks the event loop makes, the app context stays
/// consistent: the early device is kept until the backend is built from it,
/// and the handler never exists without a backend.
pub proof fn lemma_callbacks_keep_context_consistent<C>(s: LifecycleState, calls: Seq<Callback<C>>)
    requires
        s.wf(),
    ensures
        run_spec(s, calls).0.wf(),
{
    lemma_run(s, calls);
}

/// The user's handler is created at most once, however often the app is
/// resumed.
pub proof fn lemma_handler_created_once<C>(calls: Seq<Callback<C>>)
    ensures
        at_most_once(run_spec(LifecycleState::initial(), calls).1, |e: Effect<C>| creates_handler(e)),
{
    lemma_run(LifecycleState::initial(), calls);
}

/// The graphics backend is built at most once, from the early device.
pub proof fn lemma_backend_created_once<C>(calls: Seq<Callback<C>>)
    ensures
        at_most_once(run_spec(LifecycleState::initial(), calls).1, |e: Effect<C>| creates_backend(e)),
{
    lemma_run(LifecycleState::initial(), calls);
}

/// Nothing reaches the handler, nor the backend on its behalf, before the
/// handler has been created.
pub proof fn lemma_nothing_before_handler<C>(calls: Seq<Callback<C>>)
    ensures
        preceded_by(
            run_spec(LifecycleState::initial(), calls).1,
            |e: Effect<C>| needs_running_app(e),
            |e: Effect<C>| creates_handler(e),
        ),
{
    lemma_run(LifecycleState::initial(), calls);
}

/// The handler is only created after the graphics backend, so the handler
/// can fetch the backend as soon as it is made.
pub proof fn lemma_backend_before_handler<C>(calls: Seq<Callback<C>>)
    ensures
        preceded_by(
            run_spec(LifecycleState::initial(), calls).1,
            |e: Effect<C>| creates_handler(e),
            |e: Effect<C>| creates_backend(e),
        ),
{
    lemma_run(LifecycleState::initial(), calls);
}


/// Once the handler exists, closing the window tells the handler that
/// quitting was requested and asks whether the request stands; the close
/// itself never stops the event loop, so the handler can cancel it.
pub proof fn lemma_close_asks_handler<C>(s: LifecycleState)
    requires
        s.initialized,
    ensures
        window_event_spec::<C>(s, WindowInput::CloseRequested) == seq![
            Effect::<C>::Deliver(AppEvent::QuitRequested),
            Effect::<C>::AskToQuit,
        ],
{
}

/// No window event stops the event loop by itself: only the handler's
/// answer to a quit request does, and a refused request stops nothing.
pub proof fn lemma_only_accepted_quit_exits<C>(s: LifecycleState, input: WindowInput<C>)
    ensures
        forall|i: int|
            0 <= i < window_event_spec::<C>(s, input).len() ==> !(
            #[trigger] window_event_spec::<C>(s, input)[i] is ExitLoop),
        quit_answered_spec::<C>(s, false) == Seq::<Effect<C>>::empty(),
        s.initialized ==> quit_answered_spec::<C>(s, true) == seq![Effect::<C>::ExitLoop],
{
}

/// Once the handler exists, a resize of the window resizes the backend and
/// tells the handler the new dimensions.
pub proof fn lemma_resize_delivered<C>(s: LifecycleState, width: u32, height: u32)
    requires
        s.initialized,
    ensures
        ({
            let es = window_event_spec::<C>(s, (WindowInput::Resized { width, height }));
            &&& es[0] == (Effect::<C>::ResizeBackend { width, height })
            &&& es[1] == Effect::<C>::Deliver((AppEvent::WindowResized { width, height }))
        }),
{
}

/// Changing the window never loses the backend: once built it stays,
/// whatever window comes or goes, and it is not built again; before it
/// exists, resuming builds it and suspending does not.
pub proof fn lemma_window_changes_keep_backend<C>(s: LifecycleState)
    requires
        s.wf(),
    ensures
        resumed_spec::<C>(s).0.backend,
        suspended_spec::<C>(s).0.backend == s.backend,
        s.backend ==> forall|i: int|
            0 <= i < resumed_spec::<C>(s).1.len() ==> !(#[trigger] resumed_spec::<C>(s).1[i] is CreateBackend),
        forall|i: int|
            0 <= i < suspended_spec::<C>(s).1.len() ==> !(#[trigger] suspended_spec::<C>(s).1[i] is CreateBackend),
{
}

/// What a window event asks for once the handler exists, for every input:
/// a redraw draws, then flips; a resize resizes the backend with the same
/// width and height, tells the handler those dimensions, and asks for a
/// redraw exactly when a window is held; a known key's press or release is
/// delivered as that key's event; and every other event is delivered as its
/// converted app event, or not at all when it has none.
pub proof fn lemma_window_event_once_running<C>(
    s: LifecycleState,
    input: WindowInput<C>,
    width: u32,
    height: u32,
    code: winit::keyboard::KeyCode,
    pressed: bool,
    repeat: bool,
)
    requires
        s.initialized,
    ensures
        window_event_spec::<C>(s, WindowInput::RedrawRequested) == seq![Effect::<C>::Draw, Effect::<C>::Flip],
        s.window ==> window_event_spec::<C>(s, (WindowInput::Resized { width, height })) == seq![
            (Effect::<C>::ResizeBackend { width, height }),
            Effect::<C>::Deliver((AppEvent::WindowResized { width, height })),
            Effect::<C>::RequestRedraw,
        ],
        !s.window ==> window_event_spec::<C>(s, (WindowInput::Resized { width, height })) == seq![
            (Effect::<C>::ResizeBackend { width, height }),
            Effect::<C>::Deliver((AppEvent::WindowResized { width, height })),
        ],
        window_event_spec::<C>(
            s,
            (WindowInput::KeyboardInput { key: PhysicalKey::Code(code), pressed, repeat }),
        ) == seq![
            Effect::<C>::Deliver(
                if pressed { AppEvent::KeyDown { key: code, repeated: repeat } } else { AppEvent::KeyUp(code) },
            ),
        ],
        window_event_spec::<C>(
            s,
            (WindowInput::KeyboardInput { key: PhysicalKey::Unidentified, pressed, repeat }),
        ) == Seq::<Effect<C>>::empty(),
        !(input is RedrawRequested) && !(input is CloseRequested) && !(input is Resized) ==> {
            &&& (app_event_of(input) matches Ok(e) ==> window_event_spec::<C>(s, input) == seq![Effect::<C>::Deliver(e)])
            &&& (app_event_of(input) is Err ==> window_event_spec::<C>(s, input) == Seq::<Effect<C>>::empty())
        },
{
}

/// Before the handler exists no window event asks for anything.
pub proof fn lemma_window_event_before_handler<C>(s: LifecycleState, input: WindowInput<C>)
    requires
        !s.initialized,
    ensures
        window_event_spec::<C>(s, input) == Seq::<Effect<C>>::empty(),
{
}

/// Exiting tells the handler that the app quits whenever the handler
/// exists, whether or not a window is held, and asks for nothing otherwise.
pub proof fn lemma_exiting_tells_handler<C>(s: LifecycleState)
    ensures
        s.initialized ==> exiting_spec::<C>(s) == seq![Effect::<C>::Quitting],
        !s.initialized ==> exiting_spec::<C>(s) == Seq::<Effect<C>>::empty(),
{
}

/// Before waiting, a redraw is asked for exactly when a window is held.
pub proof fn lemma_about_to_wait_redraws_window<C>(s: LifecycleState)
    ensures
        s.window ==> about_to_wait_spec::<C>(s) == seq![Effect::<C>::RequestRedraw],
        !s.window ==> about_to_wait_spec::<C>(s) == Seq::<Effect<C>>::empty(),
{
}

/// The first resume stores the window, builds the backend and creates the
/// handler, in that order; a later resume only stores the window; a suspend
/// only drops it. The window is held after a resume and not after a suspend.
pub proof fn lemma_resume_and_suspend<C>(s: LifecycleState)
    requires
        s.wf(),
    ensures
        resumed_spec::<C>(LifecycleState::initial()).1 == seq![
            Effect::<C>::StoreWindow,
            Effect::<C>::CreateBackend,
            Effect::<C>::InitHandler,
        ],
        s.initialized ==> resumed_spec::<C>(s).1 == seq![Effect::<C>::StoreWindow],
        suspended_spec::<C>(s).1 == seq![Effect::<C>::DropWindow],
        resumed_spec::<C>(s).0.window && resumed_spec::<C>(s).0.initialized,
        !suspended_spec::<C>(s).0.window,
        suspended_spec::<C>(s).0.initialized == s.initialized,
{
}

/// The lifecycle of the app context and its handler.
pub struct Lifecycle {
    initialized: bool,
    window: bool,
    backend: bool,
    early_device: bool,
}

impl View for Lifecycle {
    type V = LifecycleState;

    closed spec fn view(&self) -> LifecycleState {
        LifecycleState {
            initialized: self.initialized,
            window: self.window,
            backend: self.backend,
            early_device: self.early_device,
        }
    }
}

impl Lifecycle {
    #[verifier::type_invariant]
    closed spec fn consistent(self) -> bool {
        self@.wf()
    }

    /// The lifecycle of a fresh context: no window, no backend, the early
    /// device ready, no handler.
    pub fn new() -> (r: Self)
        ensures
            r@ == LifecycleState::initial(),
    {
        Lifecycle { initialized: false, window: false, backend: false, early_device: true }
    }

    /// The current state.
    pub fn state(&self) -> (r: LifecycleState)
        ensures
            r == self@,
            r.wf(),
    {
        proof {
            use_type_invariant(self);
        }
        LifecycleState {
            initialized: self.initialized,
            window: self.window,
            backend: self.backend,
            early_device: self.early_device,
        }
    }

    /// Whether the user's handler has been created.
    pub fn is_initialized(&self) -> (r: bool)
        ensures
            r == self@.initialized,
    {
        self.initialized
    }

    /// Replace the context's window; build the backend the first time a
    /// window is there.
    fn set_window<C>(&mut self, present: bool) -> (effects: Vec<Effect<C>>)
        ensures
            (final(self)@, effects@) == set_window_spec::<C>(old(self)@, present),
    {
        proof {
            use_type_invariant(&*self);
        }
        let mut effects: Vec<Effect<C>> = Vec::new();
        if present {
            effects.push(Effect::StoreWindow);
        } else {
            effects.push(Effect::DropWindow);
        }
        let create = !self.backend && present;
        if create {
            effects.push(Effect::CreateBackend);
        }
        *self = Lifecycle {
            initialized: self.initialized,
            window: present,
            backend: self.backend || create,
            early_device: self.early_device && !create,
        };
        effects
    }

    /// Ask for a redraw of the window, if there is one.
    fn request_redraw<C>(&self) -> (effects: Vec<Effect<C>>)
        ensures
            effects@ == request_redraw_spec::<C>(self@),
    {
        let mut effects: Vec<Effect<C>> = Vec::new();
        if self.window {
            effects.push(Effect::RequestRedraw);
        }
        effects
    }

    /// The app was resumed and a new window was created for it.
    pub fn resumed<C>(&mut self) -> (effects: Vec<Effect<C>>)
        ensures
            (final(self)@, effects@) == resumed_spec::<C>(old(self)@),
    {
        let mut effects = self.set_window(true);
        proof {
            use_type_invariant(&*self);
        }
        if !self.initialized {
            effects.push(Effect::InitHandler);
            *self = Lifecycle { initialized: true, ..*self };
        }
        effects
    }

    /// The app was suspended.
    pub fn suspended<C>(&mut self) -> (effects: Vec<Effect<C>>)
        ensures
            (final(self)@, effects@) == suspended_spec::<C>(old(self)@),
    {
        self.set_window(false)
    }

    /// The window received an event.
    pub fn window_event<C>(&self, input: WindowInput<C>) -> (effects: Vec<Effect<C>>)
        ensures
            effects@ == window_event_spec(self@, input),
    {
        let mut effects: Vec<Effect<C>> = Vec::new();
        if !self.initialized {
            return effects;
        }
        match input {
            WindowInput::RedrawRequested => {
                effects.push(Effect::Draw);
                effects.push(Effect::Flip);
            },
            WindowInput::CloseRequested => {
                effects.push(Effect::Deliver(AppEvent::QuitRequested));
                effects.push(Effect::AskToQuit);
            },
            WindowInput::Resized { width, height } => {
                effects.push(Effect::ResizeBackend { width, height });
                effects.push(Effect::Deliver(AppEvent::WindowResized { width, height }));
                let mut redraw = self.request_redraw();
                effects.append(&mut redraw);
            },
            other => {
                // Just push an event if it's convertible
                match AppEvent::try_from(other) {
                    Ok(event) => effects.push(Effect::Deliver(event)),
                    Err(_) => {},
                }
            },
        }
        effects
    }

    /// The event loop is exiting.
    pub fn exiting<C>(&self) -> (effects: Vec<Effect<C>>)
        ensures
            effects@ == exiting_spec::<C>(self@),
    {
        let mut effects: Vec<Effect<C>> = Vec::new();
        if self.initialized {
            effects.push(Effect::Quitting);
        }
        effects
    }

    /// The handler answered a quit request (`accepted` lets it stand).
    pub fn quit_answered<C>(&self, accepted: bool) -> (effects: Vec<Effect<C>>)
        ensures
            effects@ == quit_answered_spec::<C>(self@, accepted),
    {
        let mut effects: Vec<Effect<C>> = Vec::new();
        if self.initialized && accepted {
            effects.push(Effect::ExitLoop);
        }
        effects
    }

    /// The event loop is about to wait for new events.
    pub fn about_to_wait<C>(&self) -> (effects: Vec<Effect<C>>)
        ensures
            effects@ == about_to_wait_spec::<C>(self@),
    {
        self.request_redraw()
    }
}

} // verus!
