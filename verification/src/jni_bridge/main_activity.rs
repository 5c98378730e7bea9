//! Requests of the main activity: applying a UI state pushed from Kotlin,
//! back presses, and graph commands.

use vstd::prelude::*;
use crate::application::AppState;
use crate::application::banner::BannerSeverity;
use crate::jni_bridge::helpers::{
    back_action, check_capacity, frame_layout, handle_back_request, layout_of, BackAction, FrameLayout,
};
use crate::text::decimal;
use crate::platform::lifecycle::LifecycleMode;
use crate::platform::panel_stack::Panel;
use crate::text::owned;

verus! {

/// The casting phase a state number from Kotlin stands for: 0
/// Disconnected, 1 Connecting, 3 WaitingForMedia, 4 Casting; anything else
/// Disconnected.
pub open spec fn state_of(n: i32) -> AppState {
    if n == 1 {
        AppState::Connecting
    } else if n == 3 {
        AppState::WaitingForMedia
    } else if n == 4 {
        AppState::Casting
    } else {
        AppState::Disconnected
    }
}

/// The banner severity a number from Kotlin stands for: 1 Success, 2
/// Warning, 3 Error; anything else Info.
pub open spec fn severity_of(n: i32) -> BannerSeverity {
    if n == 1 {
        BannerSeverity::Success
    } else if n == 2 {
        BannerSeverity::Warning
    } else if n == 3 {
        BannerSeverity::Error
    } else {
        BannerSeverity::Info
    }
}

/// A UI state pushed from Kotlin: the casting phase and the banner.
pub struct SlintStateUpdate {
    pub state: AppState,
    pub banner_message: String,
    pub banner_severity: BannerSeverity,
    /// The banner shows exactly when its message is not empty.
    pub banner_visible: bool,
}

/// Decodes a UI state pushed from Kotlin.
pub fn native_slint_apply_state(state: i32, banner: &str, severity: i32) -> (u: SlintStateUpdate)
    ensures
        u.state == state_of(state),
        u.banner_message@ == banner@,
        u.banner_severity == severity_of(severity),
        u.banner_visible == (banner@.len() > 0),
{
    let next = if state == 1 {
        AppState::Connecting
    } else if state == 3 {
        AppState::WaitingForMedia
    } else if state == 4 {
        AppState::Casting
    } else {
        AppState::Disconnected
    };
    let banner_severity = if severity == 1 {
        BannerSeverity::Success
    } else if severity == 2 {
        BannerSeverity::Warning
    } else if severity == 3 {
        BannerSeverity::Error
    } else {
        BannerSeverity::Info
    };
    SlintStateUpdate {
        state: next,
        banner_message: owned(banner),
        banner_severity,
        banner_visible: !banner.is_empty(),
    }
}

/// What the UI shows when a back press arrives.
#[derive(Clone, Copy, Debug, PartialEq, Eq, Structural)]
pub struct BackContext {
    pub panel: Panel,
    pub mode: LifecycleMode,
    pub state: AppState,
    pub has_app: bool,
}

/// A back press from the activity: ignored before the UI exists, else
/// handled as [`back_action`] says.
pub fn native_back_pressed(ui: Option<BackContext>) -> (r: Option<BackAction>)
    ensures
        match ui {
            Some(c) => r == Some(back_action(c.panel, c.mode, c.state, c.has_app)),
            None => r is None,
        },
{
    match ui {
        Some(c) => Some(handle_back_request(c.panel, c.mode, c.state, c.has_app)),
        None => None,
    }
}

/// The command text handed to the graph runtime for a request from Java:
/// the decoded text, or the empty text when it could not be decoded.
pub fn native_graph_command(decoded: Result<String, String>) -> (c: String)
    ensures
        c@ == match decoded {
            Ok(json) => json@,
            Err(_) => Seq::<char>::empty(),
        },
{
    match decoded {
        Ok(json) => json,
        Err(_) => String::new(),
    }
}


/// The error for a plane buffer of `capacity` bytes that must hold `size`.
pub open spec fn capacity_error(capacity: nat, size: nat) -> Seq<char> {
    "buffer_cap < size: "@ + decimal(capacity) + " < "@ + decimal(size)
}

/// Checks a camera frame of `width` by `height` whose Y, U and V planes
/// came in buffers of the given capacities: its layout, or the error for
/// the first plane (Y, then U, then V) whose buffer is too small.
pub fn native_process_frame(width: i32, height: i32, cap_y: usize, cap_u: usize, cap_v: usize) -> (r: Result<FrameLayout, String>)
    requires
        width >= 0,
        height >= 0,
        layout_of(width as nat, height as nat).2 <= usize::MAX,
    ensures
        ({
            let (luma, chroma, total) = layout_of(width as nat, height as nat);
            if cap_y < luma {
                r matches Err(e) && e@ == capacity_error(cap_y as nat, luma)
            } else if cap_u < chroma {
                r matches Err(e) && e@ == capacity_error(cap_u as nat, chroma)
            } else if cap_v < chroma {
                r matches Err(e) && e@ == capacity_error(cap_v as nat, chroma)
            } else {
                r matches Ok(l) && l.luma == luma && l.chroma == chroma && l.frame_size == total
            }
        }),
{
    let layout = frame_layout(width as usize, height as usize);
    match check_capacity(cap_y, layout.luma) {
        Err(e) => return Err(e),
        Ok(()) => {},
    }
    match check_capacity(cap_u, layout.chroma) {
        Err(e) => return Err(e),
        Ok(()) => {},
    }
    match check_capacity(cap_v, layout.chroma) {
        Err(e) => return Err(e),
        Ok(()) => {},
    }
    Ok(layout)
}

} // verus!
