//! Shared decisions of the Java bridge: the activity methods it calls, what
//! a back press does, and the checks and copies behind a camera frame.

use vstd::prelude::*;
use crate::application::AppState;
use crate::platform::lifecycle::LifecycleMode;
use crate::platform::panel_stack::Panel;
use crate::text::{owned, push_decimal, push_str, decimal};

verus! {

/// A no-argument method of the activity.
#[derive(Clone, Copy, Debug, PartialEq, Eq, Structural)]
pub enum JavaMethod {
    StopCapture,
    ScanQr,
    FinishApp,
}

/// The Java name of an activity method.
pub open spec fn java_method_spec(m: JavaMethod) -> Seq<char> {
    match m {
        JavaMethod::StopCapture => "stopCapture"@,
        JavaMethod::ScanQr => "scanQr"@,
        JavaMethod::FinishApp => "finishApp"@,
    }
}

/// The Java name of an activity method.
pub fn java_method_name(m: JavaMethod) -> (s: &'static str)
    ensures
        s@ == java_method_spec(m),
{
    match m {
        JavaMethod::StopCapture => "stopCapture",
        JavaMethod::ScanQr => "scanQr",
        JavaMethod::FinishApp => "finishApp",
    }
}

/// What a back press does.
#[derive(Clone, Copy, Debug, PartialEq, Eq, Structural)]
pub enum BackAction {
    /// Close the open panel.
    PopPanel,
    /// Leave the lock screen, stealth mode or countdown.
    ExitLifecycle,
    /// Finish the activity.
    FinishApp,
    /// Nothing can be done: there is no activity handle to finish.
    Ignore,
    /// Abandon connecting: show Disconnected.
    Disconnect,
    /// End the casting session.
    EndSession,
}

/// What a back press does: an open panel closes first; then an overlay is
/// left; then it depends on the casting phase: the home screen finishes the
/// app (when there is an activity to finish), connecting or choosing
/// settings goes back to Disconnected, and waiting or casting ends the
/// session.
pub open spec fn back_action(panel: Panel, mode: LifecycleMode, state: AppState, has_app: bool) -> BackAction {
    if panel != Panel::Home {
        BackAction::PopPanel
    } else if mode != LifecycleMode::Normal {
        BackAction::ExitLifecycle
    } else {
        match state {
            AppState::Disconnected => if has_app { BackAction::FinishApp } else { BackAction::Ignore },
            AppState::Connecting => BackAction::Disconnect,
            AppState::SelectingSettings => BackAction::Disconnect,
            AppState::WaitingForMedia => BackAction::EndSession,
            AppState::Casting => BackAction::EndSession,
        }
    }
}

/// What a back press does (see [`back_action`]).
pub fn handle_back_request(panel: Panel, mode: LifecycleMode, state: AppState, has_app: bool) -> (a: BackAction)
    ensures
        a == back_action(panel, mode, state, has_app),
{
    if panel != Panel::Home {
        return BackAction::PopPanel;
    }
    if mode != LifecycleMode::Normal {
        return BackAction::ExitLifecycle;
    }
    match state {
        AppState::Disconnected => if has_app { BackAction::FinishApp } else { BackAction::Ignore },
        AppState::Connecting => BackAction::Disconnect,
        AppState::SelectingSettings => BackAction::Disconnect,
        AppState::WaitingForMedia => BackAction::EndSession,
        AppState::Casting => BackAction::EndSession,
    }
}

/// The sizes of an I420 frame: the luma plane, each chroma plane (half the
/// width and half the height, rounded down), and the whole frame.
#[derive(Clone, Copy, Debug, PartialEq, Eq, Structural)]
pub struct FrameLayout {
    pub luma: usize,
    pub chroma: usize,
    pub frame_size: usize,
}

/// The sizes of a `width` by `height` I420 frame.
pub open spec fn layout_of(width: nat, height: nat) -> (nat, nat, nat) {
    let luma = width * height;
    let chroma = (width / 2) * (height / 2);
    (luma, chroma, luma + 2 * chroma)
}

/// The layout of a `width` by `height` I420 frame.
pub fn frame_layout(width: usize, height: usize) -> (l: FrameLayout)
    requires
        layout_of(width as nat, height as nat).2 <= usize::MAX,
    ensures
        l.luma as nat == layout_of(width as nat, height as nat).0,
        l.chroma as nat == layout_of(width as nat, height as nat).1,
        l.frame_size as nat == layout_of(width as nat, height as nat).2,
{
    proof {
        let w = width as nat;
        let h = height as nat;
        assert((w / 2) * (h / 2) <= w * h) by (nonlinear_arith);
    }
    let luma = width * height;
    let chroma = (width / 2) * (height / 2);
    FrameLayout { luma, chroma, frame_size: luma + 2 * chroma }
}

/// A plane buffer of `capacity` bytes must hold `size` bytes.
pub fn check_capacity(capacity: usize, size: usize) -> (r: Result<(), String>)
    ensures
        capacity >= size ==> r is Ok,
        capacity < size ==> (r matches Err(e) && e@ == "buffer_cap < size: "@ + decimal(capacity as nat)
            + " < "@ + decimal(size as nat)),
{
    if capacity < size {
        let mut m = owned("buffer_cap < size: ");
        push_decimal(&mut m, capacity as u64);
        push_str(&mut m, " < ");
        push_decimal(&mut m, size as u64);
        Err(m)
    } else {
        Ok(())
    }
}

/// The frame pool must be configured again unless it is active with the
/// frame's caps and a buffer size equal to the frame size (as the pool's
/// `u32` holds it). `params` is the pool's configuration, when it has one:
/// whether its caps are the frame's, and its buffer size.
pub fn needs_reconfigure(active: bool, params: Option<(bool, u32)>, frame_size: usize) -> (r: bool)
    ensures
        r == (!active || match params {
            Some((same_caps, size)) => !same_caps || size != (frame_size as u32),
            None => true,
        }),
{
    if !active {
        return true;
    }
    match params {
        Some((same_caps, size)) => !same_caps || size != #[verifier::truncate] (frame_size as u32),
        None => true,
    }
}

/// The bytes copied from a source plane to a destination plane of row
/// length `stride`: as many whole rows as both hold.
pub open spec fn copied_len(dest_len: nat, src_len: nat, stride: nat) -> nat {
    let rows = if dest_len / stride <= src_len / stride { dest_len / stride } else { src_len / stride };
    rows * stride
}

/// Copies the whole rows of `src` that fit into `dest`, row length
/// `stride`; the rest of `dest` is untouched.
pub fn copy_plane(dest: &mut [u8], src: &[u8], stride: usize)
    requires
        stride > 0,
    ensures
        final(dest)@.len() == old(dest)@.len(),
        final(dest)@ == src@.take(copied_len(old(dest)@.len(), src@.len(), stride as nat) as int)
            + old(dest)@.skip(copied_len(old(dest)@.len(), src@.len(), stride as nat) as int),
{
    let dest_rows = dest.len() / stride;
    let src_rows = src.len() / stride;
    let rows = if dest_rows <= src_rows { dest_rows } else { src_rows };
    proof {
        let dl = dest@.len() as nat;
        let s = stride as nat;
        assert((dl / s) * s <= dl) by (nonlinear_arith)
            requires s > 0;
        let sl = src@.len() as nat;
        assert((sl / s) * s <= sl) by (nonlinear_arith)
            requires s > 0;
        assert(rows * s <= dl && rows * s <= sl) by (nonlinear_arith)
            requires
                rows <= dl / s,
                rows <= sl / s,
                (dl / s) * s <= dl,
                (sl / s) * s <= sl,
                s > 0,
        ;
    }
    let n = rows * stride;
    let ghost before = dest@;
    let mut k: usize = 0;
    while k < n
        invariant
            k <= n,
            n <= dest@.len(),
            n <= src@.len(),
            dest@.len() == before.len(),
            forall|j: int| 0 <= j < k ==> dest@[j] == src@[j],
            forall|j: int| k <= j < dest@.len() ==> dest@[j] == before[j],
        decreases n - k,
    {
        dest[k] = src[k];
        k = k + 1;
    }
    proof {
        assert(n as nat == copied_len(before.len(), src@.len(), stride as nat));
        assert(dest@ =~= src@.take(n as int) + before.skip(n as int));
    }
}

} // verus!
