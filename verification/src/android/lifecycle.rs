//! What messages about the life of the activity lead to.

use vstd::prelude::*;

use crate::android::messages::FromJavaMessage;
#[allow(unused_imports)]
use crate::android::messages::MessageGroup;
use crate::android::surface::SurfaceState;

verus! {

/// What is known of the activity.
#[derive(Clone, Copy, PartialEq, Eq, Structural, Debug)]
pub struct LifecycleState {
    pub activity_thread_id: Option<u64>,
    pub fullscreen: bool,
    /// The next end of an activity is only a change to another one.
    pub ignore_destroy: bool,
    pub quit: bool,
}

/// Something that a message about the activity leads to.
#[derive(Clone, Copy, PartialEq, Eq, Structural, Debug)]
pub enum LifecycleAction {
    CreateXrInstance(u64),
    Pause,
    SetFullScreen,
    RedrawAll,
    ReinitialiseMedia,
    Resume,
    Foreground,
    Background,
    ClearLatestStereo,
    Shutdown,
    WindowGotFocus,
    WindowLostFocus,
}

/// What a message about the activity leads to.
pub open spec fn lifecycle_actions(
    state: LifecycleState,
    surface: SurfaceState,
    message: FromJavaMessage,
) -> Seq<LifecycleAction> {
    match message {
        FromJavaMessage::SwitchedActivity { activity, thread_id } => if surface.in_xr_mode {
            seq![LifecycleAction::CreateXrInstance(activity)]
        } else {
            seq![]
        },
        FromJavaMessage::Pause => seq![LifecycleAction::Pause],
        FromJavaMessage::Resume => (if state.fullscreen {
            seq![LifecycleAction::SetFullScreen]
        } else {
            seq![]
        }) + seq![
            LifecycleAction::RedrawAll,
            LifecycleAction::ReinitialiseMedia,
            LifecycleAction::Resume,
        ],
        FromJavaMessage::Start => seq![LifecycleAction::Foreground],
        FromJavaMessage::Stop => seq![LifecycleAction::Background],
        FromJavaMessage::Destroy => if state.ignore_destroy {
            seq![LifecycleAction::ClearLatestStereo]
        } else {
            seq![LifecycleAction::ClearLatestStereo, LifecycleAction::Shutdown]
        },
        FromJavaMessage::WindowFocusChanged { has_focus } => if has_focus {
            seq![LifecycleAction::WindowGotFocus]
        } else {
            seq![LifecycleAction::WindowLostFocus]
        },
        _ => seq![],
    }
}

/// What is known of the activity after a message.
pub open spec fn lifecycle_after(state: LifecycleState, message: FromJavaMessage) -> LifecycleState {
    match message {
        FromJavaMessage::SwitchedActivity { activity, thread_id } => LifecycleState {
            activity_thread_id: Some(thread_id),
            ..state
        },
        FromJavaMessage::Destroy => LifecycleState {
            ignore_destroy: false,
            quit: state.quit || !state.ignore_destroy,
            ..state
        },
        _ => state,
    }
}

/// What is known of the surface after a message about the activity.
pub open spec fn surface_after_lifecycle(
    surface: SurfaceState,
    message: FromJavaMessage,
) -> SurfaceState {
    match message {
        FromJavaMessage::Resume => SurfaceState {
            hide_surface_cover_after_first_present: true,
            refresh_surface_snapshot_after_first_present: true,
            ..surface
        },
        _ => surface,
    }
}

impl LifecycleState {
    /// Takes a message about the activity, and says what it leads to, in order.
    pub fn handle_android_lifecycle_message(
        &mut self,
        surface: &mut SurfaceState,
        message: &FromJavaMessage,
    ) -> (actions: Vec<LifecycleAction>)
        requires
            message.group() == MessageGroup::Lifecycle,
        ensures
            actions@ == lifecycle_actions(*old(self), *old(surface), *message),
            *final(self) == lifecycle_after(*old(self), *message),
            *final(surface) == surface_after_lifecycle(*old(surface), *message),
    {
        let mut actions: Vec<LifecycleAction> = Vec::new();
        match message {
            FromJavaMessage::SwitchedActivity { activity, thread_id } => {
                self.activity_thread_id = Some(*thread_id);
                if surface.in_xr_mode {
                    actions.push(LifecycleAction::CreateXrInstance(*activity));
                }
            },
            FromJavaMessage::Pause => {
                actions.push(LifecycleAction::Pause);
            },
            FromJavaMessage::Resume => {
                if self.fullscreen {
                    actions.push(LifecycleAction::SetFullScreen);
                }
                surface.hide_surface_cover_after_first_present = true;
                surface.refresh_surface_snapshot_after_first_present = true;
                actions.push(LifecycleAction::RedrawAll);
                actions.push(LifecycleAction::ReinitialiseMedia);
                actions.push(LifecycleAction::Resume);
            },
            FromJavaMessage::Start => {
                actions.push(LifecycleAction::Foreground);
            },
            FromJavaMessage::Stop => {
                actions.push(LifecycleAction::Background);
            },
            FromJavaMessage::Destroy => {
                actions.push(LifecycleAction::ClearLatestStereo);
                if !self.ignore_destroy {
                    actions.push(LifecycleAction::Shutdown);
                    self.quit = true;
                }
                self.ignore_destroy = false;
            },
            FromJavaMessage::WindowFocusChanged { has_focus } => {
                if *has_focus {
                    actions.push(LifecycleAction::WindowGotFocus);
                } else {
                    actions.push(LifecycleAction::WindowLostFocus);
                }
            },
            _ => {},
        }
        assert(actions@ =~= lifecycle_actions(*old(self), *old(surface), *message));
        actions
    }
}

/// The end of an activity is ignored at most once: the one after it ends everything.
pub proof fn law_second_destroy_quits(state: LifecycleState, surface: SurfaceState)
    ensures
        ({
            let once = lifecycle_after(state, FromJavaMessage::Destroy);
            let twice = lifecycle_after(once, FromJavaMessage::Destroy);
            &&& twice.quit
            &&& lifecycle_actions(once, surface, FromJavaMessage::Destroy).contains(
                LifecycleAction::Shutdown,
            )
            &&& once.quit == (state.quit || !state.ignore_destroy)
        }),
{
    let once = lifecycle_after(state, FromJavaMessage::Destroy);
    assert(lifecycle_actions(once, surface, FromJavaMessage::Destroy)[1]
        == LifecycleAction::Shutdown);
}

/// Each message about the life of the application is handed on as what it is: to pause, to
/// resume, to come to the front, to go to the back, and to get or lose the focus.
pub proof fn law_life_is_handed_on(
    state: LifecycleState,
    surface: SurfaceState,
    message: FromJavaMessage,
)
    ensures
        ({
            let actions = lifecycle_actions(state, surface, message);
            &&& message is Pause ==> actions == seq![LifecycleAction::Pause]
            &&& message is Start ==> actions == seq![LifecycleAction::Foreground]
            &&& message is Stop ==> actions == seq![LifecycleAction::Background]
            &&& message is Resume ==> {
                let n = actions.len() as int;
                &&& actions[n - 3] is RedrawAll && actions[n - 2] is ReinitialiseMedia && actions[n
                    - 1] is Resume
                &&& state.fullscreen ==> n == 4 && actions[0] is SetFullScreen
                &&& !state.fullscreen ==> n == 3
            }
            &&& message is WindowFocusChanged ==> actions.len() == 1 && (actions[0]
                is WindowGotFocus <==> message->has_focus) && (actions[0] is WindowLostFocus
                <==> !message->has_focus)
            &&& message is SwitchedActivity && surface.in_xr_mode ==> actions.len() == 1
                && actions[0] == LifecycleAction::CreateXrInstance(
                message->SwitchedActivity_activity,
            )
            &&& message is SwitchedActivity && !surface.in_xr_mode ==> actions.len() == 0
            &&& message is Destroy ==> actions[0] is ClearLatestStereo && (actions.len() == 2
                <==> !state.ignore_destroy)
        }),
{
}

/// Only an end that is not ignored quits, an end is ignored once, and only a change of
/// activity changes its thread; resuming has the cover hidden and the snapshot refreshed.
pub proof fn law_life_changes_what_it_should(
    state: LifecycleState,
    surface: SurfaceState,
    message: FromJavaMessage,
)
    ensures
        ({
            let after = lifecycle_after(state, message);
            &&& after.quit && !state.quit ==> message is Destroy && !state.ignore_destroy
            &&& message is Destroy ==> !after.ignore_destroy
            &&& state.quit ==> after.quit
            &&& message is SwitchedActivity ==> after.activity_thread_id == Some(
                message->SwitchedActivity_thread_id,
            )
            &&& !(message is SwitchedActivity) ==> after.activity_thread_id
                == state.activity_thread_id
            &&& after.fullscreen == state.fullscreen
            &&& message is Resume ==> surface_after_lifecycle(
                surface,
                message,
            ).hide_surface_cover_after_first_present && surface_after_lifecycle(
                surface,
                message,
            ).refresh_surface_snapshot_after_first_present
            &&& !(message is Resume) ==> surface_after_lifecycle(surface, message) == surface
        }),
{
}

} // verus!
