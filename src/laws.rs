//! Properties that hold across calls, stated over the abstract transitions
//! that the methods of `Window` follow.

use vstd::prelude::*;

use crate::message::{route_spec, MessageAction, WM_CLOSE, WM_DESTROY};
use crate::window::{
    advance_next, initialize_next, message_next, pump_started, retrieval_next, teardown_next,
    teardown_plan, InitError, InitOutcome, InitStep, PumpAction, Release, WindowView,
};

verus! {

/// One call on a `Window`, with what the caller hands to it. `Advance`
/// carries the class name that the call would generate.
pub enum Call {
    Initialize,
    Advance(InitOutcome, Seq<char>),
    Message(isize, u32),
    StartPump,
    Retrieve(i32),
    Teardown,
}

/// The abstract state after one call.
pub open spec fn apply(w: WindowView, c: Call) -> WindowView {
    match c {
        Call::Initialize => initialize_next(w).0,
        Call::Advance(o, fresh) => advance_next(w, o, fresh).0,
        Call::Message(hwnd, message) => message_next(w, hwnd, message),
        Call::StartPump => pump_started(w),
        Call::Retrieve(result) => retrieval_next(w, result).0,
        Call::Teardown => teardown_next(w),
    }
}

/// The abstract state after a sequence of calls, in order.
pub open spec fn run(w: WindowView, calls: Seq<Call>) -> WindowView
    decreases calls.len(),
{
    if calls.len() == 0 {
        w
    } else {
        run(apply(w, calls[0]), calls.drop_first())
    }
}

/// Once an instance has left `Uninitialized`, whatever calls follow, it
/// never returns there, and `initialize` then fails with
/// `AlreadyInitialized` and leaves handle, class and atom as they were.
pub proof fn initialization_is_once(w: WindowView, calls: Seq<Call>)
    requires
        !(w.state is Uninitialized),
    ensures
        !(run(w, calls).state is Uninitialized),
        initialize_next(run(w, calls)) == (run(w, calls), Err::<InitStep, InitError>(InitError::AlreadyInitialized)),
    decreases calls.len(),
{
    if calls.len() > 0 {
        initialization_is_once(apply(w, calls[0]), calls.drop_first());
    }
}

/// Teardown destroys the window before it unregisters the class, destroys
/// only a window still held, and unregisters only a class whose registration
/// succeeded. In particular a failed registration is never undone, and a
/// failed creation hands back the release of the class it registered and
/// leaves nothing for teardown.
pub proof fn teardown_is_ordered(w: WindowView, fresh: Seq<char>)
    requires
        w.wf(),
    ensures
        forall|i: int, j: int|
            0 <= i < teardown_plan(w).len() && 0 <= j < teardown_plan(w).len()
                && teardown_plan(w)[i] is DestroyWindow
                && teardown_plan(w)[j] is UnregisterClass ==> i < j,
        (exists|j: int|
            0 <= j < teardown_plan(w).len() && #[trigger] teardown_plan(w)[j] is UnregisterClass)
            <==> w.atom is Some,
        (exists|i: int|
            0 <= i < teardown_plan(w).len() && #[trigger] teardown_plan(w)[i] is DestroyWindow)
            <==> w.handle is Some,
        teardown_plan(w).len() <= 2,
        w.state is RegisteringClass ==> teardown_plan(
            advance_next(w, InitOutcome::Class(0), fresh).0,
        ).len() == 0,
        w.state is CreatingWindow ==> {
            &&& advance_next(w, InitOutcome::Created(0), fresh).0.atom is None
            &&& teardown_plan(advance_next(w, InitOutcome::Created(0), fresh).0).len() == 0
            &&& advance_next(w, InitOutcome::Created(0), fresh).1 == Err::<InitStep, InitError>(
                InitError::CreationError(
                    Release::UnregisterClass { atom: w.atom.unwrap(), module: w.module.unwrap() },
                ),
            )
        },
{
    let p = teardown_plan(w);
    if w.atom is Some {
        let j = p.len() - 1;
        assert(p[j] is UnregisterClass);
    }
    if w.handle is Some {
        assert(p[0] is DestroyWindow);
    }
}

/// Releasing twice releases nothing the second time, and a window that the
/// operating system destroyed through its destroy notification is not
/// destroyed again at teardown.
pub proof fn teardown_is_idempotent(w: WindowView, hwnd: isize)
    requires
        w.wf(),
    ensures
        teardown_plan(teardown_next(w)).len() == 0,
        teardown_next(teardown_next(w)) == teardown_next(w),
        w.handle == Some(hwnd) ==> forall|i: int|
            0 <= i < teardown_plan(message_next(w, hwnd, WM_DESTROY)).len() ==> !(
            #[trigger] teardown_plan(message_next(w, hwnd, WM_DESTROY))[i] is DestroyWindow),
{
}

/// A destroy notification posts the quit signal; the pump stops exactly on
/// that signal, which ends a running window's lifecycle, and any other
/// retrieval result leaves the window as it was and keeps the loop going.
pub proof fn destroy_notification_ends_pump(w: WindowView, hwnd: isize, result: i32)
    ensures
        route_spec(hwnd, WM_DESTROY) == MessageAction::PostQuit,
        (retrieval_next(w, result).1 == PumpAction::Stop) <==> result == 0,
        w.state is Running ==> retrieval_next(w, 0).0.state is Terminated,
        result != 0 ==> retrieval_next(w, result).0 == w,
{
}

/// A close request for the owned window asks to destroy that same window.
/// The destroy notification that follows gives the handle up, so that of
/// the two, only the close request leads to a destroy and teardown is left
/// with the class alone.
pub proof fn close_then_destroy_releases_once(w: WindowView, hwnd: isize)
    requires
        w.wf(),
        w.handle == Some(hwnd),
    ensures
        route_spec(hwnd, WM_CLOSE) == MessageAction::DestroyWindow(hwnd),
        message_next(w, hwnd, WM_CLOSE) == w,
        message_next(w, hwnd, WM_DESTROY).handle is None,
        teardown_plan(message_next(w, hwnd, WM_DESTROY)) == seq![
            Release::UnregisterClass { atom: w.atom.unwrap(), module: w.module.unwrap() },
        ],
{
    let w2 = message_next(w, hwnd, WM_DESTROY);
    assert(teardown_plan(w2) =~= seq![
        Release::UnregisterClass { atom: w.atom.unwrap(), module: w.module.unwrap() },
    ]);
}

} // verus!
