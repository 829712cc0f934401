//! The lifecycle of one window, from construction to release.
//!
//! Every operating system call stays with the caller. Initialization is a
//! sequence of steps: the window names the next call to make, the caller makes
//! it and hands back its raw result through `advance`. The message pump and
//! the callback work the same way, and `teardown` lists what to release.

use vstd::prelude::*;

use crate::class_identity::{is_class_identity, new_class_name};
use crate::message::{route_message, route_spec, MessageAction, WM_DESTROY};

verus! {

/// Where a window stands in its lifecycle.
#[derive(Clone, Copy, Debug, PartialEq, Eq, Structural)]
pub enum LifecycleState {
    /// Constructed; nothing acquired yet.
    Uninitialized,
    /// Initializing: waiting for the handle of the hosting module.
    ResolvingModule,
    /// Initializing: waiting for the class registration.
    RegisteringClass,
    /// Initializing: waiting for the window to be created.
    CreatingWindow,
    /// Initializing: waiting for the owner to be attached to the window.
    AttachingOwner,
    /// Module, class and window are all in place.
    Initialized,
    /// The message pump is running.
    Running,
    /// The pump has ended, or the resources have been released.
    Terminated,
    /// Initialization failed; the instance cannot be initialized again.
    Failed,
}

/// Why initialization did not go on.
#[derive(Clone, Copy, Debug, PartialEq, Eq, Structural)]
pub enum InitError {
    /// `initialize` was called on an instance that had left `Uninitialized`.
    AlreadyInitialized,
    /// The handle of the hosting module could not be resolved.
    ModuleError,
    /// The window class could not be registered.
    RegistrationError,
    /// The window could not be created. Initialization has given up the
    /// class it registered, and the caller carries out this release.
    CreationError(Release),
    /// The outcome handed to `advance` answers no step that is pending.
    OutOfSequence,
}

/// The next operating system call that initialization needs.
#[derive(Clone, Copy, Debug, PartialEq, Eq, Structural)]
pub enum InitStep {
    /// Resolve the handle of the hosting module.
    ResolveModule,
    /// Register a class named by `Window::class_name` for this module.
    RegisterClass { module: isize },
    /// Create a visible overlapped window of that class in this module.
    CreateWindow { module: isize },
    /// Attach the owner to the per-window storage of this window.
    AttachOwner { handle: isize },
    /// Initialization is complete.
    Done,
}

/// The raw result of the call that an `InitStep` asked for. A zero handle,
/// module or atom is the operating system's way of reporting failure.
#[derive(Clone, Copy, Debug, PartialEq, Eq, Structural)]
pub enum InitOutcome {
    Module(isize),
    Class(u16),
    Created(isize),
    Attached(bool),
}

/// What the message pump does after one retrieval.
#[derive(Clone, Copy, Debug, PartialEq, Eq, Structural)]
pub enum PumpAction {
    /// A message arrived: translate and dispatch it, then retrieve again.
    Dispatch,
    /// The retrieval failed without delivering a message: retrieve again.
    Retry,
    /// The quit signal arrived: leave the loop.
    Stop,
}

/// One release that teardown asks for.
#[derive(Clone, Copy, Debug, PartialEq, Eq, Structural)]
pub enum Release {
    /// Destroy the window with this handle.
    DestroyWindow(isize),
    /// Unregister the class registered under this atom in this module.
    UnregisterClass { atom: u16, module: isize },
}

/// The abstract state of a `Window`.
pub struct WindowView {
    pub state: LifecycleState,
    /// The window handle while this instance owns a live window.
    pub handle: Option<isize>,
    /// The class name, once generated.
    pub class_name: Seq<char>,
    /// The registration atom while the class is registered.
    pub atom: Option<u16>,
    /// The module handle, once resolved.
    pub module: Option<isize>,
    /// Whether the owner was attached to the per-window storage.
    pub owner_attached: bool,
}

pub open spec fn is_initializing(s: LifecycleState) -> bool {
    ||| s is ResolvingModule
    ||| s is RegisteringClass
    ||| s is CreatingWindow
    ||| s is AttachingOwner
}

impl WindowView {
    /// Resources are acquired in the order module, class, window, and a
    /// fresh instance holds none of them.
    pub open spec fn wf(self) -> bool {
        &&& self.atom is Some ==> {
            &&& self.atom.unwrap() != 0
            &&& self.module is Some
            &&& is_class_identity(self.class_name)
        }
        &&& self.handle is Some ==> self.atom is Some
        &&& self.state is Uninitialized ==> {
            &&& self.handle is None
            &&& self.atom is None
            &&& self.module is None
            &&& self.class_name.len() == 0
            &&& !self.owner_attached
        }
        &&& self.state is ResolvingModule ==> self.handle is None && self.atom is None
        &&& self.state is RegisteringClass ==> self.handle is None && self.atom is None
        &&& self.state is CreatingWindow ==> self.handle is None && self.atom is Some
        &&& (is_initializing(self.state) && !(self.state is ResolvingModule)) || self.state is Initialized
            || self.state is Running || self.state is Terminated ==> {
            &&& self.module is Some
            &&& is_class_identity(self.class_name)
        }
    }
}

/// `initialize` starts initialization once; on any later call it fails and
/// changes nothing.
pub open spec fn initialize_next(w: WindowView) -> (WindowView, Result<InitStep, InitError>) {
    if w.state is Uninitialized {
        (WindowView { state: LifecycleState::ResolvingModule, ..w }, Ok(InitStep::ResolveModule))
    } else {
        (w, Err(InitError::AlreadyInitialized))
    }
}

/// One initialization step. `fresh` is the class name generated when the
/// module handle arrives. A zero result fails initialization for good and
/// leaves nothing partially owned: a class registered before a failed
/// creation is given up and returned for release. An outcome for a step that
/// is not pending changes nothing.
pub open spec fn advance_next(w: WindowView, o: InitOutcome, fresh: Seq<char>) -> (
    WindowView,
    Result<InitStep, InitError>,
) {
    match o {
        InitOutcome::Module(m) => if !(w.state is ResolvingModule) {
            (w, Err(InitError::OutOfSequence))
        } else if m == 0 {
            (WindowView { state: LifecycleState::Failed, ..w }, Err(InitError::ModuleError))
        } else {
            (
                WindowView {
                    state: LifecycleState::RegisteringClass,
                    module: Some(m),
                    class_name: fresh,
                    ..w
                },
                Ok(InitStep::RegisterClass { module: m }),
            )
        },
        InitOutcome::Class(a) => if !(w.state is RegisteringClass) {
            (w, Err(InitError::OutOfSequence))
        } else if a == 0 {
            (WindowView { state: LifecycleState::Failed, ..w }, Err(InitError::RegistrationError))
        } else {
            (
                WindowView { state: LifecycleState::CreatingWindow, atom: Some(a), ..w },
                Ok(InitStep::CreateWindow { module: w.module.unwrap() }),
            )
        },
        InitOutcome::Created(h) => if !(w.state is CreatingWindow) {
            (w, Err(InitError::OutOfSequence))
        } else if h == 0 {
            (
                WindowView { state: LifecycleState::Failed, atom: None, ..w },
                Err(
                    InitError::CreationError(
                        Release::UnregisterClass { atom: w.atom.unwrap(), module: w.module.unwrap() },
                    ),
                ),
            )
        } else {
            (
                WindowView { state: LifecycleState::AttachingOwner, handle: Some(h), ..w },
                Ok(InitStep::AttachOwner { handle: h }),
            )
        },
        InitOutcome::Attached(b) => if !(w.state is AttachingOwner) {
            (w, Err(InitError::OutOfSequence))
        } else {
            (
                WindowView { state: LifecycleState::Initialized, owner_attached: b, ..w },
                Ok(InitStep::Done),
            )
        },
    }
}

/// The handle to present: only an initialized or running window with a live
/// handle is shown.
pub open spec fn show_spec(w: WindowView) -> Option<isize> {
    if w.state is Initialized || w.state is Running {
        w.handle
    } else {
        None
    }
}

/// A destroy notification for the owned window means the operating system has
/// destroyed it: the handle is no longer owned.
pub open spec fn message_next(w: WindowView, hwnd: isize, message: u32) -> WindowView {
    if message == WM_DESTROY && w.handle == Some(hwnd) {
        WindowView { handle: None, ..w }
    } else {
        w
    }
}

/// Entering the pump moves an initialized window to `Running`.
pub open spec fn pump_started(w: WindowView) -> WindowView {
    if w.state is Initialized {
        WindowView { state: LifecycleState::Running, ..w }
    } else {
        w
    }
}

/// A retrieval result of zero is the quit signal, a negative one an error,
/// and any other a message.
pub open spec fn retrieval_next(w: WindowView, result: i32) -> (WindowView, PumpAction) {
    if result == 0 {
        (
            if w.state is Running {
                WindowView { state: LifecycleState::Terminated, ..w }
            } else {
                w
            },
            PumpAction::Stop,
        )
    } else if result < 0 {
        (w, PumpAction::Retry)
    } else {
        (w, PumpAction::Dispatch)
    }
}

/// The releases owed, window before class, each only if still held.
pub open spec fn teardown_plan(w: WindowView) -> Seq<Release> {
    let destroy = match w.handle {
        Some(h) => seq![Release::DestroyWindow(h)],
        None => Seq::<Release>::empty(),
    };
    let unregister = match w.atom {
        Some(a) => seq![Release::UnregisterClass { atom: a, module: w.module.unwrap() }],
        None => Seq::<Release>::empty(),
    };
    destroy + unregister
}

/// After release the lifecycle is over: an instance that was initializing
/// has failed, one that was initialized has terminated.
pub open spec fn teardown_state(s: LifecycleState) -> LifecycleState {
    if s is Initialized || s is Running || s is Terminated {
        LifecycleState::Terminated
    } else if is_initializing(s) {
        LifecycleState::Failed
    } else {
        s
    }
}

pub open spec fn teardown_next(w: WindowView) -> WindowView {
    WindowView { state: teardown_state(w.state), handle: None, atom: None, ..w }
}

/// One native top-level window and what it owns.
pub struct Window {
    handle: Option<isize>,
    class_str: String,
    atom: Option<u16>,
    instance: Option<isize>,
    state: LifecycleState,
    owner_attached: bool,
}

impl View for Window {
    type V = WindowView;

    closed spec fn view(&self) -> WindowView {
        WindowView {
            state: self.state,
            handle: self.handle,
            class_name: self.class_str@,
            atom: self.atom,
            module: self.instance,
            owner_attached: self.owner_attached,
        }
    }
}

impl Window {
    pub open spec fn wf(&self) -> bool {
        self@.wf()
    }

    /// A window that has acquired nothing yet.
    pub fn new() -> (r: Self)
        ensures
            r.wf(),
            r@.state is Uninitialized,
            r@.handle is None,
            r@.atom is None,
            r@.module is None,
            r@.class_name.len() == 0,
            !r@.owner_attached,
    {
        Window {
            handle: None,
            class_str: String::new(),
            atom: None,
            instance: None,
            state: LifecycleState::Uninitialized,
            owner_attached: false,
        }
    }

    /// Starts initialization and returns its first step. Fails with
    /// `AlreadyInitialized`, changing nothing, on every call after the first.
    pub fn initialize(&mut self) -> (r: Result<InitStep, InitError>)
        requires
            old(self).wf(),
        ensures
            final(self).wf(),
            final(self)@ == initialize_next(old(self)@).0,
            r == initialize_next(old(self)@).1,
    {
        if self.state == LifecycleState::Uninitialized {
            self.state = LifecycleState::ResolvingModule;
            Ok(InitStep::ResolveModule)
        } else {
            Err(InitError::AlreadyInitialized)
        }
    }
    /// Takes the raw result of the pending initialization step and returns
    /// the next step. A zero result fails initialization for good. When the
    /// window cannot be created, the class registered for it is given up at
    /// once and the error carries its release, for the caller to carry out
    /// before it reports the failure. The class name is generated when the
    /// module handle arrives.
    pub fn advance(&mut self, outcome: InitOutcome) -> (r: Result<InitStep, InitError>)
        requires
            old(self).wf(),
        ensures
            final(self).wf(),
            final(self)@ == advance_next(old(self)@, outcome, final(self)@.class_name).0,
            r == advance_next(old(self)@, outcome, final(self)@.class_name).1,
    {
        match outcome {
            InitOutcome::Module(m) => {
                if self.state != LifecycleState::ResolvingModule {
                    Err(InitError::OutOfSequence)
                } else if m == 0 {
                    self.state = LifecycleState::Failed;
                    Err(InitError::ModuleError)
                } else {
                    self.instance = Some(m);
                    self.class_str = new_class_name();
                    self.state = LifecycleState::RegisteringClass;
                    Ok(InitStep::RegisterClass { module: m })
                }
            },
            InitOutcome::Class(a) => {
                if self.state != LifecycleState::RegisteringClass {
                    Err(InitError::OutOfSequence)
                } else if a == 0 {
                    self.state = LifecycleState::Failed;
                    Err(InitError::RegistrationError)
                } else {
                    self.atom = Some(a);
                    self.state = LifecycleState::CreatingWindow;
                    Ok(InitStep::CreateWindow { module: self.instance.unwrap() })
                }
            },
            InitOutcome::Created(h) => {
                if self.state != LifecycleState::CreatingWindow {
                    Err(InitError::OutOfSequence)
                } else if h == 0 {
                    let atom = self.atom.unwrap();
                    self.atom = None;
                    self.state = LifecycleState::Failed;
                    Err(
                        InitError::CreationError(
                            Release::UnregisterClass { atom, module: self.instance.unwrap() },
                        ),
                    )
                } else {
                    self.handle = Some(h);
                    self.state = LifecycleState::AttachingOwner;
                    Ok(InitStep::AttachOwner { handle: h })
                }
            },
            InitOutcome::Attached(b) => {
                if self.state != LifecycleState::AttachingOwner {
                    Err(InitError::OutOfSequence)
                } else {
                    self.owner_attached = b;
                    self.state = LifecycleState::Initialized;
                    Ok(InitStep::Done)
                }
            },
        }
    }

    /// The handle to present in its normal state, or `None` where there is
    /// no live window of an initialized instance.
    pub fn show(&self) -> (r: Option<isize>)
        ensures
            r == show_spec(self@),
    {
        if self.state == LifecycleState::Initialized || self.state == LifecycleState::Running {
            self.handle
        } else {
            None
        }
    }

    /// The callback's decision for `message` addressed to `hwnd`. A destroy
    /// notification for the owned window also gives up its handle, so that
    /// teardown does not destroy it a second time.
    pub fn on_message(&mut self, hwnd: isize, message: u32) -> (r: MessageAction)
        requires
            old(self).wf(),
        ensures
            final(self).wf(),
            final(self)@ == message_next(old(self)@, hwnd, message),
            r == route_spec(hwnd, message),
    {
        if message == WM_DESTROY {
            match self.handle {
                Some(h) => {
                    if h == hwnd {
                        self.handle = None;
                    }
                },
                None => {},
            }
        }
        route_message(hwnd, message)
    }

    /// Enters the message pump: an initialized window is now running. The
    /// caller then retrieves messages and reports each result to
    /// `on_retrieval` until it answers `Stop`.
    pub fn process_messages(&mut self)
        requires
            old(self).wf(),
        ensures
            final(self).wf(),
            final(self)@ == pump_started(old(self)@),
    {
        if self.state == LifecycleState::Initialized {
            self.state = LifecycleState::Running;
        }
    }

    /// Decides what the pump does with the result of one blocking retrieval.
    /// Only the quit signal ends the loop, and it ends a running window's
    /// lifecycle.
    pub fn on_retrieval(&mut self, result: i32) -> (r: PumpAction)
        requires
            old(self).wf(),
        ensures
            final(self).wf(),
            final(self)@ == retrieval_next(old(self)@, result).0,
            r == retrieval_next(old(self)@, result).1,
    {
        if result == 0 {
            if self.state == LifecycleState::Running {
                self.state = LifecycleState::Terminated;
            }
            PumpAction::Stop
        } else if result < 0 {
            PumpAction::Retry
        } else {
            PumpAction::Dispatch
        }
    }

    /// Gives up the window and the class, and returns the releases to carry
    /// out, in order: the window first, then its class. Only what is still
    /// held is listed, so a second call lists nothing.
    pub fn teardown(&mut self) -> (r: Vec<Release>)
        requires
            old(self).wf(),
        ensures
            final(self).wf(),
            final(self)@ == teardown_next(old(self)@),
            r@ == teardown_plan(old(self)@),
    {
        let mut plan: Vec<Release> = Vec::new();
        match self.handle {
            Some(h) => {
                plan.push(Release::DestroyWindow(h));
            },
            None => {},
        }
        match self.atom {
            Some(a) => {
                plan.push(Release::UnregisterClass { atom: a, module: self.instance.unwrap() });
            },
            None => {},
        }
        assert(plan@ =~= teardown_plan(self@));
        self.handle = None;
        self.atom = None;
        if self.state == LifecycleState::Initialized || self.state == LifecycleState::Running
            || self.state == LifecycleState::Terminated {
            self.state = LifecycleState::Terminated;
        } else if self.state == LifecycleState::ResolvingModule
            || self.state == LifecycleState::RegisteringClass
            || self.state == LifecycleState::CreatingWindow
            || self.state == LifecycleState::AttachingOwner {
            self.state = LifecycleState::Failed;
        }
        plan
    }
    pub fn state(&self) -> (r: LifecycleState)
        ensures
            r == self@.state,
    {
        self.state
    }

    /// The handle of the window while this instance owns it.
    pub fn handle(&self) -> (r: Option<isize>)
        ensures
            r == self@.handle,
    {
        self.handle
    }

    /// The name of the window class; empty until the module is resolved.
    pub fn class_name(&self) -> (r: &str)
        ensures
            r@ == self@.class_name,
    {
        self.class_str.as_str()
    }

    /// The registration atom while the class is registered.
    pub fn atom(&self) -> (r: Option<u16>)
        ensures
            r == self@.atom,
    {
        self.atom
    }

    /// The handle of the hosting module, once resolved.
    pub fn module(&self) -> (r: Option<isize>)
        ensures
            r == self@.module,
    {
        self.instance
    }

    pub fn owner_attached(&self) -> (r: bool)
        ensures
            r == self@.owner_attached,
    {
        self.owner_attached
    }
}

} // verus!
