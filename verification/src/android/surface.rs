//! What messages about the surface lead to.

use vstd::prelude::*;

use crate::android::messages::FromJavaMessage;
#[allow(unused_imports)]
use crate::android::messages::MessageGroup;
use crate::display_context::SafeAreaInsets;
use crate::float_bits::equal_f64;
#[allow(unused_imports)]
use crate::float_bits::f64_equal;

verus! {

/// What is known of the surface and of what draws to it. Windows are addresses; zero
/// is none.
#[derive(Clone, Copy, PartialEq, Eq, Structural, Debug)]
pub struct SurfaceState {
    /// Vulkan draws, else OpenGL.
    pub use_vulkan: bool,
    pub in_xr_mode: bool,
    pub has_xr_session: bool,
    /// The Vulkan backend was started.
    pub has_vulkan: bool,
    pub has_display: bool,
    pub window: u64,
    pub display_width: i32,
    pub display_height: i32,
    pub surface_alive: bool,
    pub needs_first_draw: bool,
    pub hide_surface_cover_after_first_present: bool,
    pub refresh_surface_snapshot_after_first_present: bool,
    pub xr_retry_surface_after_destroy: bool,
    pub xr_pending_window: u64,
    pub xr_pending_width: i32,
    pub xr_pending_height: i32,
    pub first_after_resize: bool,
    pub native_safe_area_insets: SafeAreaInsets,
}

/// Something that a message about the surface leads to.
#[derive(Clone, Copy, PartialEq, Eq, Structural, Debug)]
pub enum SurfaceAction {
    ReleaseWindow(u64),
    UpdateGlSurface(u64),
    DestroyGlSurface,
    UpdateVulkanSurface { window: u64, width: u32, height: u32 },
    StartVulkan { window: u64, width: u32, height: u32 },
    SuspendVulkanSurface,
    ReplaceXrPendingSurface { window: u64, width: i32, height: i32 },
    /// Make an OpenXR session for the surface; `retry` after a surface was destroyed.
    CreateXrSession { window: u64, width: i32, height: i32, retry: bool },
    CreateGlXrSession,
    /// Find out from the backend whether the surface is alive, and report it.
    SyncSurface,
    /// Tell the sender that the surface is let go.
    SignalDestroyed(u64),
    /// Give the window its geometry, and report the change.
    ChangeGeometry { width: i32, height: i32 },
    RedrawMainPass,
    RedrawAll,
    ClearAtlasses,
    /// Give the window its insets, and find out whether that changed its geometry.
    ChangeInsets(SafeAreaInsets),
    /// Report that the window's geometry changed.
    ReportGeometry,
}

/// What insets lead to that were given to the window: a change of its geometry is
/// reported, and everything is drawn anew.
pub open spec fn insets_actions(changed: bool) -> Seq<SurfaceAction> {
    if changed {
        seq![SurfaceAction::ReportGeometry, SurfaceAction::RedrawAll]
    } else {
        seq![]
    }
}

/// Lists what insets lead to that were given to the window. `changed` says whether that
/// changed its geometry.
pub fn insets_changed(changed: bool) -> (actions: Vec<SurfaceAction>)
    ensures
        actions@ == insets_actions(changed),
{
    let mut actions: Vec<SurfaceAction> = Vec::new();
    if changed {
        actions.push(SurfaceAction::ReportGeometry);
        actions.push(SurfaceAction::RedrawAll);
    }
    assert(actions@ =~= insets_actions(changed));
    actions
}

/// A side of the surface as it is drawn to: at least one.
pub open spec fn drawn_side(side: i32) -> u32 {
    if side < 1 {
        1
    } else {
        side as u32
    }
}

fn side_at_least_one(side: i32) -> (drawn: u32)
    ensures
        drawn == drawn_side(side),
{
    if side < 1 {
        1
    } else {
        side as u32
    }
}

/// The insets are the same numbers.
pub open spec fn same_insets(a: SafeAreaInsets, b: SafeAreaInsets) -> bool {
    &&& f64_equal(a.top, b.top)
    &&& f64_equal(a.right, b.right)
    &&& f64_equal(a.bottom, b.bottom)
    &&& f64_equal(a.left, b.left)
}

/// Another window takes the place of the one that is there.
pub open spec fn window_replaced(state: SurfaceState, window: u64) -> Seq<SurfaceAction> {
    if state.has_display && state.window != 0 && state.window != window {
        seq![SurfaceAction::ReleaseWindow(state.window)]
    } else {
        seq![]
    }
}

/// What a new surface leads to.
pub open spec fn created_actions(state: SurfaceState, window: u64) -> Seq<SurfaceAction> {
    (if state.use_vulkan {
        window_replaced(state, window)
    } else {
        seq![]
    }) + (if state.in_xr_mode {
        seq![]
    } else if !state.use_vulkan {
        seq![SurfaceAction::UpdateGlSurface(window), SurfaceAction::SyncSurface]
    } else if state.has_vulkan {
        seq![
            SurfaceAction::UpdateVulkanSurface {
                window,
                width: drawn_side(state.display_width),
                height: drawn_side(state.display_height),
            },
            SurfaceAction::SyncSurface,
        ]
    } else {
        seq![SurfaceAction::SyncSurface]
    })
}

/// A session is to be made for the surface that was stored.
pub open spec fn retries_session(state: SurfaceState) -> bool {
    &&& state.in_xr_mode
    &&& !state.has_xr_session
    &&& state.xr_retry_surface_after_destroy
    &&& state.xr_pending_window != 0
}

/// What the end of a surface leads to. The sender is told last.
pub open spec fn destroyed_actions(state: SurfaceState, ack: u64) -> Seq<SurfaceAction> {
    (if !state.use_vulkan {
        seq![SurfaceAction::DestroyGlSurface]
    } else {
        window_replaced(state, 0) + (if state.has_vulkan && !(state.in_xr_mode
            && state.has_xr_session) {
            seq![SurfaceAction::SuspendVulkanSurface]
        } else {
            seq![]
        }) + (if retries_session(state) {
            seq![
                SurfaceAction::CreateXrSession {
                    window: state.xr_pending_window,
                    width: state.xr_pending_width,
                    height: state.xr_pending_height,
                    retry: true,
                },
            ]
        } else {
            seq![]
        })
    }) + seq![SurfaceAction::SignalDestroyed(ack)]
}

/// What a surface that changed leads to in an OpenXR session.
pub open spec fn changed_xr_actions(state: SurfaceState, window: u64, width: i32, height: i32) -> Seq<
    SurfaceAction,
> {
    (if state.use_vulkan && state.in_xr_mode {
        seq![SurfaceAction::ReplaceXrPendingSurface { window, width, height }]
    } else {
        seq![]
    }) + (if state.in_xr_mode && !state.has_xr_session {
        if state.use_vulkan {
            seq![SurfaceAction::CreateXrSession { window, width, height, retry: false }]
        } else {
            seq![SurfaceAction::CreateGlXrSession]
        }
    } else {
        seq![]
    })
}

/// What a surface that changed leads to in a backend.
pub open spec fn changed_backend_actions(
    state: SurfaceState,
    window: u64,
    width: i32,
    height: i32,
) -> Seq<SurfaceAction> {
    (if state.use_vulkan {
        window_replaced(state, window)
    } else {
        seq![]
    }) + (if state.in_xr_mode {
        seq![]
    } else if !state.use_vulkan {
        seq![SurfaceAction::UpdateGlSurface(window), SurfaceAction::SyncSurface]
    } else if state.has_vulkan {
        seq![
            SurfaceAction::UpdateVulkanSurface {
                window,
                width: drawn_side(width),
                height: drawn_side(height),
            },
            SurfaceAction::SyncSurface,
        ]
    } else {
        seq![
            SurfaceAction::StartVulkan {
                window,
                width: drawn_side(width),
                height: drawn_side(height),
            },
            SurfaceAction::SyncSurface,
        ]
    })
}

/// What a surface that changed leads to.
pub open spec fn changed_actions(state: SurfaceState, window: u64, width: i32, height: i32) -> Seq<
    SurfaceAction,
> {
    changed_xr_actions(state, window, width, height) + changed_backend_actions(
        state,
        window,
        width,
        height,
    ) + seq![
        SurfaceAction::ChangeGeometry { width, height },
        SurfaceAction::RedrawMainPass,
        SurfaceAction::RedrawAll,
        SurfaceAction::ClearAtlasses,
    ]
}

/// The window after a message that brings one.
pub open spec fn window_after(state: SurfaceState, window: u64) -> u64 {
    if state.use_vulkan && state.has_display {
        window
    } else {
        state.window
    }
}

/// What a message about the surface leads to.
pub open spec fn surface_actions(state: SurfaceState, message: FromJavaMessage) -> Seq<
    SurfaceAction,
> {
    match message {
        FromJavaMessage::SurfaceCreated { window } => created_actions(state, window),
        FromJavaMessage::SurfaceDestroyed { ack } => destroyed_actions(state, ack),
        FromJavaMessage::SurfaceChanged { window, width, height } => changed_actions(
            state,
            window,
            width,
            height,
        ),
        FromJavaMessage::SafeAreaInsets { top, right, bottom, left } => {
            let insets = SafeAreaInsets { top, right, bottom, left };
            if same_insets(state.native_safe_area_insets, insets) {
                seq![]
            } else {
                seq![SurfaceAction::ChangeInsets(insets)]
            }
        },
        _ => seq![],
    }
}

/// What is known after a message about the surface.
pub open spec fn surface_after(state: SurfaceState, message: FromJavaMessage) -> SurfaceState {
    match message {
        FromJavaMessage::SurfaceCreated { window } => SurfaceState {
            window: window_after(state, window),
            ..state
        },
        FromJavaMessage::SurfaceDestroyed { ack } => SurfaceState {
            surface_alive: false,
            needs_first_draw: true,
            hide_surface_cover_after_first_present: true,
            refresh_surface_snapshot_after_first_present: true,
            window: window_after(state, 0),
            ..state
        },
        FromJavaMessage::SurfaceChanged { window, width, height } => SurfaceState {
            window: window_after(state, window),
            display_width: width,
            display_height: height,
            first_after_resize: true,
            ..state
        },
        FromJavaMessage::SafeAreaInsets { top, right, bottom, left } => {
            let insets = SafeAreaInsets { top, right, bottom, left };
            if same_insets(state.native_safe_area_insets, insets) {
                state
            } else {
                SurfaceState { native_safe_area_insets: insets, ..state }
            }
        },
        _ => state,
    }
}

impl SurfaceState {
    fn replace_window(&mut self, window: u64, actions: &mut Vec<SurfaceAction>)
        ensures
            final(actions)@ == old(actions)@ + (if old(self).use_vulkan {
                window_replaced(*old(self), window)
            } else {
                seq![]
            }),
            *final(self) == (SurfaceState { window: window_after(*old(self), window), ..*old(self) }),
    {
        if self.use_vulkan && self.has_display {
            if self.window != 0 && self.window != window {
                actions.push(SurfaceAction::ReleaseWindow(self.window));
            }
            self.window = window;
        }
        assert(actions@ =~= old(actions)@ + (if old(self).use_vulkan {
            window_replaced(*old(self), window)
        } else {
            seq![]
        }));
    }

    fn surface_created(&mut self, window: u64) -> (actions: Vec<SurfaceAction>)
        ensures
            actions@ == created_actions(*old(self), window),
            *final(self) == (SurfaceState { window: window_after(*old(self), window), ..*old(self) }),
    {
        let mut actions: Vec<SurfaceAction> = Vec::new();
        self.replace_window(window, &mut actions);
        if !self.in_xr_mode {
            if !self.use_vulkan {
                actions.push(SurfaceAction::UpdateGlSurface(window));
            } else if self.has_vulkan {
                actions.push(
                    SurfaceAction::UpdateVulkanSurface {
                        window,
                        width: side_at_least_one(self.display_width),
                        height: side_at_least_one(self.display_height),
                    },
                );
            }
            actions.push(SurfaceAction::SyncSurface);
        }
        assert(actions@ =~= created_actions(*old(self), window));
        actions
    }

    fn surface_destroyed(&mut self, ack: u64) -> (actions: Vec<SurfaceAction>)
        ensures
            actions@ == destroyed_actions(*old(self), ack),
            *final(self) == surface_after(*old(self), FromJavaMessage::SurfaceDestroyed { ack }),
    {
        self.surface_alive = false;
        self.needs_first_draw = true;
        self.hide_surface_cover_after_first_present = true;
        self.refresh_surface_snapshot_after_first_present = true;
        let mut actions: Vec<SurfaceAction> = Vec::new();
        if !self.use_vulkan {
            actions.push(SurfaceAction::DestroyGlSurface);
        } else {
            self.replace_window(0, &mut actions);
            if self.has_vulkan && !(self.in_xr_mode && self.has_xr_session) {
                actions.push(SurfaceAction::SuspendVulkanSurface);
            }
            if self.in_xr_mode && !self.has_xr_session && self.xr_retry_surface_after_destroy
                && self.xr_pending_window != 0 {
                actions.push(
                    SurfaceAction::CreateXrSession {
                        window: self.xr_pending_window,
                        width: self.xr_pending_width,
                        height: self.xr_pending_height,
                        retry: true,
                    },
                );
            }
        }
        actions.push(SurfaceAction::SignalDestroyed(ack));
        assert(actions@ =~= destroyed_actions(*old(self), ack));
        actions
    }

    fn list_changed_xr_actions(&self, window: u64, width: i32, height: i32) -> (actions: Vec<
        SurfaceAction,
    >)
        ensures
            actions@ == changed_xr_actions(*self, window, width, height),
    {
        let mut actions: Vec<SurfaceAction> = Vec::new();
        if self.use_vulkan && self.in_xr_mode {
            actions.push(SurfaceAction::ReplaceXrPendingSurface { window, width, height });
        }
        if self.in_xr_mode && !self.has_xr_session {
            if self.use_vulkan {
                actions.push(
                    SurfaceAction::CreateXrSession { window, width, height, retry: false },
                );
            } else {
                actions.push(SurfaceAction::CreateGlXrSession);
            }
        }
        assert(actions@ =~= changed_xr_actions(*self, window, width, height));
        actions
    }

    fn list_changed_backend_actions(&mut self, window: u64, width: i32, height: i32) -> (actions:
        Vec<SurfaceAction>)
        ensures
            actions@ == changed_backend_actions(*old(self), window, width, height),
            *final(self) == (SurfaceState { window: window_after(*old(self), window), ..*old(self) }),
    {
        let mut actions: Vec<SurfaceAction> = Vec::new();
        self.replace_window(window, &mut actions);
        if !self.in_xr_mode {
            if !self.use_vulkan {
                actions.push(SurfaceAction::UpdateGlSurface(window));
            } else {
                let width: u32 = side_at_least_one(width);
                let height: u32 = side_at_least_one(height);
                if self.has_vulkan {
                    actions.push(SurfaceAction::UpdateVulkanSurface { window, width, height });
                } else {
                    actions.push(SurfaceAction::StartVulkan { window, width, height });
                }
            }
            actions.push(SurfaceAction::SyncSurface);
        }
        assert(actions@ =~= changed_backend_actions(*old(self), window, width, height));
        actions
    }

    fn surface_changed(&mut self, window: u64, width: i32, height: i32) -> (actions: Vec<
        SurfaceAction,
    >)
        ensures
            actions@ == changed_actions(*old(self), window, width, height),
            *final(self) == surface_after(
                *old(self),
                FromJavaMessage::SurfaceChanged { window, width, height },
            ),
    {
        let mut actions: Vec<SurfaceAction> = self.list_changed_xr_actions(window, width, height);
        let mut backend: Vec<SurfaceAction> = self.list_changed_backend_actions(
            window,
            width,
            height,
        );
        actions.append(&mut backend);
        self.display_width = width;
        self.display_height = height;
        self.first_after_resize = true;
        let mut last: Vec<SurfaceAction> = vec![
            SurfaceAction::ChangeGeometry { width, height },
            SurfaceAction::RedrawMainPass,
            SurfaceAction::RedrawAll,
            SurfaceAction::ClearAtlasses,
        ];
        assert(last@ =~= seq![
            SurfaceAction::ChangeGeometry { width, height },
            SurfaceAction::RedrawMainPass,
            SurfaceAction::RedrawAll,
            SurfaceAction::ClearAtlasses,
        ]);
        actions.append(&mut last);
        actions
    }

    /// Takes a message about the surface, and says what it leads to, in order.
    pub fn handle_android_surface_message(&mut self, message: &FromJavaMessage) -> (actions: Vec<
        SurfaceAction,
    >)
        requires
            message.group() == MessageGroup::Surface,
        ensures
            actions@ == surface_actions(*old(self), *message),
            *final(self) == surface_after(*old(self), *message),
    {
        match message {
            FromJavaMessage::SurfaceCreated { window } => self.surface_created(*window),
            FromJavaMessage::SurfaceDestroyed { ack } => self.surface_destroyed(*ack),
            FromJavaMessage::SurfaceChanged { window, width, height } => self.surface_changed(
                *window,
                *width,
                *height,
            ),
            FromJavaMessage::SafeAreaInsets { top, right, bottom, left } => {
                let insets: SafeAreaInsets = SafeAreaInsets {
                    top: *top,
                    right: *right,
                    bottom: *bottom,
                    left: *left,
                };
                let known: SafeAreaInsets = self.native_safe_area_insets;
                let same: bool = equal_f64(known.top, insets.top) && equal_f64(
                    known.right,
                    insets.right,
                ) && equal_f64(known.bottom, insets.bottom) && equal_f64(known.left, insets.left);
                let mut actions: Vec<SurfaceAction> = Vec::new();
                if !same {
                    self.native_safe_area_insets = insets;
                    actions.push(SurfaceAction::ChangeInsets(insets));
                }
                assert(actions@ =~= surface_actions(*old(self), *message));
                actions
            },
            _ => {
                let actions: Vec<SurfaceAction> = Vec::new();
                actions
            },
        }
    }

    /// Notes whether there is a backend and a session after an action was carried out.
    pub fn backend_reported(&mut self, has_vulkan: bool, has_xr_session: bool)
        ensures
            *final(self) == (SurfaceState { has_vulkan, has_xr_session, ..*old(self) }),
    {
        self.has_vulkan = has_vulkan;
        self.has_xr_session = has_xr_session;
    }

    /// Notes whether the surface is alive, and says whether a redraw is asked for.
    pub fn surface_synced(&mut self, alive: bool) -> (redraw: bool)
        ensures
            *final(self) == (SurfaceState { surface_alive: alive, ..*old(self) }),
            redraw == alive,
    {
        self.surface_alive = alive;
        alive
    }
}

/// When a surface ends, nothing is drawn to it any more before anything of it is torn
/// down, its window is let go, and the sender is told once, after all else.
pub proof fn law_destroyed_surface_is_let_go(state: SurfaceState, ack: u64)
    ensures
        ({
            let message = FromJavaMessage::SurfaceDestroyed { ack };
            let actions = surface_actions(state, message);
            let after = surface_after(state, message);
            &&& !after.surface_alive
            &&& after.needs_first_draw
            &&& state.use_vulkan && state.has_display ==> after.window == 0
            &&& actions.last() == SurfaceAction::SignalDestroyed(ack)
            &&& forall|i: int|
                0 <= i < actions.len() - 1 ==> !((#[trigger] actions[i]) is SignalDestroyed)
            &&& state.use_vulkan && state.has_display && state.window != 0 ==> actions[0]
                == SurfaceAction::ReleaseWindow(state.window)
        }),
{
}

/// A window that comes again is not released; one that another takes the place of is
/// released once.
pub proof fn law_window_is_released_once(state: SurfaceState, window: u64)
    requires
        state.use_vulkan,
        state.has_display,
        window != 0,
    ensures
        ({
            let message = FromJavaMessage::SurfaceCreated { window };
            let actions = surface_actions(state, message);
            let after = surface_after(state, message);
            let again = surface_actions(after, message);
            &&& after.window == window
            &&& state.window != 0 && state.window != window ==> actions[0]
                == SurfaceAction::ReleaseWindow(state.window)
            &&& forall|i: int|
                1 <= i < actions.len() ==> !((#[trigger] actions[i]) is ReleaseWindow)
            &&& forall|i: int| 0 <= i < again.len() ==> !((#[trigger] again[i]) is ReleaseWindow)
        }),
{
}

/// A surface is drawn to at least one pixel each way, and as large as it is.
pub proof fn law_surface_has_a_pixel(side: i32)
    ensures
        drawn_side(side) >= 1,
        side >= 1 ==> drawn_side(side) == side,
        side < 1 ==> drawn_side(side) == 1,
{
}

/// A surface that changed gives the window its geometry and has all drawn again; outside of
/// a session the backend gets the surface and its size, and is started where it was not; in
/// one the session gets it, and is made where there is none.
pub proof fn law_changed_surface_is_taken_over(
    state: SurfaceState,
    window: u64,
    width: i32,
    height: i32,
)
    ensures
        ({
            let message = FromJavaMessage::SurfaceChanged { window, width, height };
            let actions = surface_actions(state, message);
            let after = surface_after(state, message);
            let n = actions.len() as int;
            let w = drawn_side(width);
            let h = drawn_side(height);
            &&& actions[n - 4] == SurfaceAction::ChangeGeometry { width, height }
            &&& actions[n - 3] is RedrawMainPass && actions[n - 2] is RedrawAll && actions[n - 1]
                is ClearAtlasses
            &&& after.display_width == width && after.display_height == height
            &&& after.first_after_resize
            &&& state.use_vulkan && state.has_display ==> after.window == window
            &&& !state.in_xr_mode && state.use_vulkan && state.has_vulkan ==> actions[n - 6]
                == SurfaceAction::UpdateVulkanSurface { window, width: w, height: h } && actions[n
                - 5] is SyncSurface
            &&& !state.in_xr_mode && state.use_vulkan && !state.has_vulkan ==> actions[n - 6]
                == SurfaceAction::StartVulkan { window, width: w, height: h } && actions[n - 5]
                is SyncSurface
            &&& !state.in_xr_mode && !state.use_vulkan ==> actions[n - 6]
                == SurfaceAction::UpdateGlSurface(window) && actions[n - 5] is SyncSurface
            &&& state.in_xr_mode && state.use_vulkan ==> actions[0]
                == SurfaceAction::ReplaceXrPendingSurface { window, width, height }
            &&& state.in_xr_mode && state.use_vulkan && !state.has_xr_session ==> actions[1]
                == SurfaceAction::CreateXrSession { window, width, height, retry: false }
            &&& state.in_xr_mode && !state.use_vulkan && !state.has_xr_session
                ==> actions[0] is CreateGlXrSession
            &&& state.in_xr_mode && state.has_xr_session ==> forall|i: int|
                0 <= i < n ==> !(#[trigger] actions[i] is CreateXrSession) && !(
                actions[i] is CreateGlXrSession)
        }),
{
}

/// A surface that was created is handed to the backend that is there, outside of a session,
/// with the size that is known; it starts none.
pub proof fn law_created_surface_is_handed_on(state: SurfaceState, window: u64)
    ensures
        ({
            let actions = surface_actions(state, FromJavaMessage::SurfaceCreated { window });
            let n = actions.len() as int;
            &&& !state.in_xr_mode ==> n > 0 && actions[n - 1] is SyncSurface
            &&& !state.in_xr_mode && !state.use_vulkan ==> actions[n - 2]
                == SurfaceAction::UpdateGlSurface(window)
            &&& !state.in_xr_mode && state.use_vulkan && state.has_vulkan ==> actions[n - 2]
                == SurfaceAction::UpdateVulkanSurface {
                window,
                width: drawn_side(state.display_width),
                height: drawn_side(state.display_height),
            }
            &&& forall|i: int| 0 <= i < n ==> !(#[trigger] actions[i] is StartVulkan)
        }),
{
}

/// When its surface is destroyed a backend is suspended unless a session draws, and a
/// session that waits for a surface is tried again with the one that is kept for it.
pub proof fn law_destroyed_surface_suspends(state: SurfaceState, ack: u64)
    ensures
        ({
            let actions = surface_actions(state, FromJavaMessage::SurfaceDestroyed { ack });
            &&& !state.use_vulkan ==> actions[0] is DestroyGlSurface
            &&& actions.contains(SurfaceAction::SuspendVulkanSurface) <==> state.use_vulkan
                && state.has_vulkan && !(state.in_xr_mode && state.has_xr_session)
            &&& state.use_vulkan && state.in_xr_mode && !state.has_xr_session
                && state.xr_retry_surface_after_destroy && state.xr_pending_window != 0
                ==> actions[actions.len() - 2] == SurfaceAction::CreateXrSession {
                window: state.xr_pending_window,
                width: state.xr_pending_width,
                height: state.xr_pending_height,
                retry: true,
            }
            &&& !state.xr_retry_surface_after_destroy || state.has_xr_session || !state.in_xr_mode
                || state.xr_pending_window == 0 ==> forall|i: int|
                0 <= i < actions.len() ==> !(#[trigger] actions[i] is CreateXrSession)
        }),
{
    let actions = surface_actions(state, FromJavaMessage::SurfaceDestroyed { ack });
    if state.use_vulkan && state.has_vulkan && !(state.in_xr_mode && state.has_xr_session) {
        let i = window_replaced(state, 0).len() as int;
        assert(actions[i] == SurfaceAction::SuspendVulkanSurface);
    }
}

/// Insets are handed on exactly where they differ from those that are known, in any of
/// their numbers, and are then known; a changed geometry is reported and drawn.
pub proof fn law_changed_insets_are_handed_on(state: SurfaceState, insets: SafeAreaInsets)
    ensures
        ({
            let message = FromJavaMessage::SafeAreaInsets {
                top: insets.top,
                right: insets.right,
                bottom: insets.bottom,
                left: insets.left,
            };
            let known = state.native_safe_area_insets;
            let same = f64_equal(known.top, insets.top) && f64_equal(known.right, insets.right)
                && f64_equal(known.bottom, insets.bottom) && f64_equal(known.left, insets.left);
            let actions = surface_actions(state, message);
            &&& same ==> actions.len() == 0 && surface_after(state, message) == state
            &&& !same ==> actions.len() == 1 && actions[0] == SurfaceAction::ChangeInsets(insets)
                && surface_after(state, message).native_safe_area_insets == insets
        }),
        insets_actions(true).len() == 2 && insets_actions(true)[0] is ReportGeometry
            && insets_actions(true)[1] is RedrawAll,
        insets_actions(false).len() == 0,
{
}

/// A window is let go when another takes its place, and only then.
pub proof fn law_replaced_window_is_let_go(
    state: SurfaceState,
    window: u64,
    width: i32,
    height: i32,
    old_window: u64,
)
    ensures
        surface_actions(state, FromJavaMessage::SurfaceChanged { window, width, height }).contains(
            SurfaceAction::ReleaseWindow(old_window),
        ) <==> {
            &&& state.use_vulkan && state.has_display
            &&& state.window == old_window
            &&& old_window != 0 && old_window != window
        },
        surface_actions(state, FromJavaMessage::SurfaceCreated { window }).contains(
            SurfaceAction::ReleaseWindow(old_window),
        ) <==> {
            &&& state.use_vulkan && state.has_display
            &&& state.window == old_window
            &&& old_window != 0 && old_window != window
        },
{
    let changed = surface_actions(state, FromJavaMessage::SurfaceChanged { window, width, height });
    let created = surface_actions(state, FromJavaMessage::SurfaceCreated { window });
    let first = changed_xr_actions(state, window, width, height).len() as int;
    if state.use_vulkan && state.has_display && state.window != 0 && state.window != window {
        assert(changed[first] == SurfaceAction::ReleaseWindow(state.window));
        assert(created[0] == SurfaceAction::ReleaseWindow(state.window));
        assert(forall|i: int|
            0 <= i < changed.len() && i != first ==> !(#[trigger] changed[i] is ReleaseWindow));
        assert(forall|i: int|
            1 <= i < created.len() ==> !(#[trigger] created[i] is ReleaseWindow));
    } else {
        assert(forall|i: int|
            0 <= i < changed.len() ==> !(#[trigger] changed[i] is ReleaseWindow));
        assert(forall|i: int|
            0 <= i < created.len() ==> !(#[trigger] created[i] is ReleaseWindow));
    }
}

/// The window that came is the one that is known exactly where Vulkan draws and there is a
/// display; else the one from before is.
pub proof fn law_known_window_is_the_last(state: SurfaceState, window: u64)
    ensures
        state.use_vulkan && state.has_display ==> window_after(state, window) == window,
        !state.use_vulkan || !state.has_display ==> window_after(state, window) == state.window,
{
}

} // verus!
