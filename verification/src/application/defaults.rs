//! Factory bitrate presets and quick actions.

use vstd::prelude::*;
use crate::text::owned;

verus! {

/// A bitrate preset of the bitrate panel.
pub struct BitratePreset {
    pub id: String,
    pub name: String,
    pub bitrate_kbps: i32,
    pub active: bool,
}

/// What a preset is.
pub ghost struct PresetView {
    pub id: Seq<char>,
    pub name: Seq<char>,
    pub bitrate_kbps: i32,
    pub active: bool,
}

impl View for BitratePreset {
    type V = PresetView;

    open spec fn view(&self) -> PresetView {
        PresetView {
            id: self.id@,
            name: self.name@,
            bitrate_kbps: self.bitrate_kbps,
            active: self.active,
        }
    }
}

/// The views of a sequence of presets.
pub open spec fn preset_views(s: Seq<BitratePreset>) -> Seq<PresetView> {
    s.map_values(|p: BitratePreset| p@)
}

/// What a quick action of the control bar does.
#[derive(Clone, Copy, Debug, PartialEq, Eq, Structural)]
pub enum QuickActionKind {
    OpenSettings,
    OpenDebug,
    OpenCodecTest,
    ScanQr,
    OpenRecording,
    OpenPairing,
    OpenBitrate,
    OpenAudio,
    OpenCamera,
    StartRecord,
    StopRecord,
    StopCast,
    Custom,
}

/// A button of the control bar.
pub struct QuickAction {
    pub kind: QuickActionKind,
    pub macro_id: String,
    pub custom_id: String,
    pub title: String,
    pub enabled: bool,
    pub active: bool,
}

/// What a quick action is.
pub ghost struct QuickActionView {
    pub kind: QuickActionKind,
    pub macro_id: Seq<char>,
    pub custom_id: Seq<char>,
    pub title: Seq<char>,
    pub enabled: bool,
    pub active: bool,
}

impl View for QuickAction {
    type V = QuickActionView;

    open spec fn view(&self) -> QuickActionView {
        QuickActionView {
            kind: self.kind,
            macro_id: self.macro_id@,
            custom_id: self.custom_id@,
            title: self.title@,
            enabled: self.enabled,
            active: self.active,
        }
    }
}

/// The views of a sequence of quick actions.
pub open spec fn action_views(s: Seq<QuickAction>) -> Seq<QuickActionView> {
    s.map_values(|a: QuickAction| a@)
}

/// A preset as the factory list has it.
pub open spec fn preset(id: Seq<char>, name: Seq<char>, kbps: i32, active: bool) -> PresetView {
    PresetView { id, name, bitrate_kbps: kbps, active }
}

/// The factory presets: Low, Medium (active), High and Maximum.
pub open spec fn factory_presets() -> Seq<PresetView> {
    seq![
        preset("low"@, "Low"@, 1500, false),
        preset("med"@, "Medium"@, 4000, true),
        preset("high"@, "High"@, 8000, false),
        preset("max"@, "Maximum"@, 15000, false),
    ]
}

/// A quick action that is enabled, inactive and tied to no macro.
pub open spec fn bar_action(kind: QuickActionKind, custom_id: Seq<char>, title: Seq<char>) -> QuickActionView {
    QuickActionView {
        kind,
        macro_id: Seq::empty(),
        custom_id,
        title,
        enabled: true,
        active: false,
    }
}

/// The factory control bar.
pub open spec fn factory_actions() -> Seq<QuickActionView> {
    seq![
        bar_action(QuickActionKind::OpenSettings, Seq::empty(), "Settings"@),
        bar_action(QuickActionKind::OpenDebug, Seq::empty(), "Debug"@),
        bar_action(QuickActionKind::OpenCodecTest, Seq::empty(), "Codec test"@),
        bar_action(QuickActionKind::ScanQr, Seq::empty(), "Scan QR"@),
        bar_action(QuickActionKind::OpenRecording, Seq::empty(), "Record"@),
        bar_action(QuickActionKind::OpenPairing, Seq::empty(), "Pair"@),
        bar_action(QuickActionKind::OpenBitrate, Seq::empty(), "Bitrate"@),
    ]
}

/// The debug-build additions to the control bar.
pub open spec fn debug_actions() -> Seq<QuickActionView> {
    seq![
        bar_action(QuickActionKind::Custom, "migrated-server"@, "Migrated srv"@),
        bar_action(QuickActionKind::Custom, "test-getinfo"@, "GetInfo"@),
        bar_action(QuickActionKind::Custom, "test-crossfade"@, "Crossfade"@),
        bar_action(QuickActionKind::Custom, "test-smoke"@, "Smoke Graph"@),
    ]
}

fn make_preset(id: &str, name: &str, kbps: i32, active: bool) -> (p: BitratePreset)
    ensures
        p@ == preset(id@, name@, kbps, active),
{
    BitratePreset { id: owned(id), name: owned(name), bitrate_kbps: kbps, active }
}

fn make_action(kind: QuickActionKind, custom_id: &str, title: &str) -> (a: QuickAction)
    ensures
        a@ == bar_action(kind, custom_id@, title@),
{
    QuickAction {
        kind,
        macro_id: String::new(),
        custom_id: owned(custom_id),
        title: owned(title),
        enabled: true,
        active: false,
    }
}

fn make_plain_action(kind: QuickActionKind, title: &str) -> (a: QuickAction)
    ensures
        a@ == bar_action(kind, Seq::empty(), title@),
{
    QuickAction {
        kind,
        macro_id: String::new(),
        custom_id: String::new(),
        title: owned(title),
        enabled: true,
        active: false,
    }
}

/// The factory bitrate presets.
pub fn default_presets() -> (r: Vec<BitratePreset>)
    ensures
        preset_views(r@) == factory_presets(),
{
    let mut r: Vec<BitratePreset> = Vec::new();
    r.push(make_preset("low", "Low", 1500, false));
    r.push(make_preset("med", "Medium", 4000, true));
    r.push(make_preset("high", "High", 8000, false));
    r.push(make_preset("max", "Maximum", 15000, false));
    proof {
        assert(preset_views(r@) =~= factory_presets());
    }
    r
}

/// The factory control bar; a debug build adds the migration test actions.
pub fn default_quick_actions(include_debug: bool) -> (r: Vec<QuickAction>)
    ensures
        action_views(r@) == (if include_debug {
            factory_actions() + debug_actions()
        } else {
            factory_actions()
        }),
{
    let mut r: Vec<QuickAction> = Vec::new();
    r.push(make_plain_action(QuickActionKind::OpenSettings, "Settings"));
    r.push(make_plain_action(QuickActionKind::OpenDebug, "Debug"));
    r.push(make_plain_action(QuickActionKind::OpenCodecTest, "Codec test"));
    r.push(make_plain_action(QuickActionKind::ScanQr, "Scan QR"));
    r.push(make_plain_action(QuickActionKind::OpenRecording, "Record"));
    r.push(make_plain_action(QuickActionKind::OpenPairing, "Pair"));
    r.push(make_plain_action(QuickActionKind::OpenBitrate, "Bitrate"));
    proof {
        assert(action_views(r@) =~= factory_actions());
    }
    if include_debug {
        r.push(make_action(QuickActionKind::Custom, "migrated-server", "Migrated srv"));
        r.push(make_action(QuickActionKind::Custom, "test-getinfo", "GetInfo"));
        r.push(make_action(QuickActionKind::Custom, "test-crossfade", "Crossfade"));
        r.push(make_action(QuickActionKind::Custom, "test-smoke", "Smoke Graph"));
        proof {
            assert(action_views(r@) =~= factory_actions() + debug_actions());
        }
    }
    r
}

} // verus!
