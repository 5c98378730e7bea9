//! The status strip: the items shown while casting, and the device health
//! items built from a snapshot of network, thermal and battery state.

use vstd::prelude::*;
use crate::text::{owned, push_signed_decimal, push_char, signed_decimal, str_eq};

verus! {

/// How alarming a status item is.
#[derive(Clone, Copy, Debug, PartialEq, Eq, Structural)]
pub enum StatusSeverity {
    Info,
    Warning,
    Error,
}

/// An item of the status strip.
pub struct StatusItem {
    pub label: String,
    pub value: String,
    pub severity: StatusSeverity,
    pub icon_glyph: String,
}

/// What a status item shows.
pub ghost struct StatusItemView {
    pub label: Seq<char>,
    pub value: Seq<char>,
    pub severity: StatusSeverity,
    pub icon_glyph: Seq<char>,
}

impl View for StatusItem {
    type V = StatusItemView;

    open spec fn view(&self) -> StatusItemView {
        StatusItemView {
            label: self.label@,
            value: self.value@,
            severity: self.severity,
            icon_glyph: self.icon_glyph@,
        }
    }
}

/// The views of a sequence of status items.
pub open spec fn item_views(s: Seq<StatusItem>) -> Seq<StatusItemView> {
    s.map_values(|i: StatusItem| i@)
}

/// An item as the strip shows it.
pub open spec fn item(label: Seq<char>, value: Seq<char>, severity: StatusSeverity, glyph: Seq<char>) -> StatusItemView {
    StatusItemView { label, value, severity, icon_glyph: glyph }
}

fn make_item(label: &str, value: &str, severity: StatusSeverity, glyph: &str) -> (r: StatusItem)
    ensures
        r@ == item(label@, value@, severity, glyph@),
{
    StatusItem { label: owned(label), value: owned(value), severity, icon_glyph: owned(glyph) }
}

/// The items shown while casting: the receiver, the encoder and the
/// network, each informational.
pub open spec fn casting_items(receiver: Seq<char>, encoder: Seq<char>, network: Seq<char>) -> Seq<StatusItemView> {
    seq![
        item("Receiver"@, receiver, StatusSeverity::Info, "📺"@),
        item("Encoder"@, encoder, StatusSeverity::Info, "⚙️"@),
        item("Network"@, network, StatusSeverity::Info, "📶"@),
    ]
}

/// The status items shown while casting to `receiver_name` with `encoder`
/// over `network`.
pub fn build_status_items(receiver_name: &str, encoder: &str, network: &str) -> (r: Vec<StatusItem>)
    ensures
        item_views(r@) == casting_items(receiver_name@, encoder@, network@),
{
    let mut r: Vec<StatusItem> = Vec::new();
    r.push(make_item("Receiver", receiver_name, StatusSeverity::Info, "📺"));
    r.push(make_item("Encoder", encoder, StatusSeverity::Info, "⚙️"));
    r.push(make_item("Network", network, StatusSeverity::Info, "📶"));
    proof {
        assert(item_views(r@) =~= casting_items(receiver_name@, encoder@, network@));
    }
    r
}

/// The device health the status strip reports.
pub struct StatusSnapshot {
    pub network_label: String,
    pub thermal_label: String,
    pub battery_pct: i32,
    pub charging: bool,
}

/// How alarming a thermal state is: `Critical` is an error, `Serious` a
/// warning, anything else informational.
pub open spec fn thermal_severity(label: Seq<char>) -> StatusSeverity {
    if label == "Critical"@ {
        StatusSeverity::Error
    } else if label == "Serious"@ {
        StatusSeverity::Warning
    } else {
        StatusSeverity::Info
    }
}

/// The device health items: network, thermal state and battery. A battery
/// under 20% is an error; its glyph shows whether it is charging.
pub open spec fn health_items(s: StatusSnapshot) -> Seq<StatusItemView> {
    seq![
        item("network"@, s.network_label@, StatusSeverity::Info, "📶"@),
        item(
            "thermal"@,
            s.thermal_label@,
            thermal_severity(s.thermal_label@),
            if s.thermal_label@ == "Critical"@ { "🔥"@ } else { "🌡"@ },
        ),
        item(
            "battery"@,
            signed_decimal(s.battery_pct as int) + seq!['%'],
            if s.battery_pct < 20 { StatusSeverity::Error } else { StatusSeverity::Info },
            if s.charging { "⚡"@ } else { "🔋"@ },
        ),
    ]
}

/// The device health items for a snapshot.
pub fn snapshot_items(snap: &StatusSnapshot) -> (r: Vec<StatusItem>)
    ensures
        item_views(r@) == health_items(*snap),
{
    let mut r: Vec<StatusItem> = Vec::new();
    r.push(make_item("network", snap.network_label.as_str(), StatusSeverity::Info, "📶"));
    let critical = str_eq(snap.thermal_label.as_str(), "Critical");
    let severity = if critical {
        StatusSeverity::Error
    } else if str_eq(snap.thermal_label.as_str(), "Serious") {
        StatusSeverity::Warning
    } else {
        StatusSeverity::Info
    };
    let glyph = if critical { "🔥" } else { "🌡" };
    r.push(make_item("thermal", snap.thermal_label.as_str(), severity, glyph));
    let mut pct = String::new();
    push_signed_decimal(&mut pct, snap.battery_pct as i64);
    push_char(&mut pct, '%');
    let battery_severity = if snap.battery_pct < 20 {
        StatusSeverity::Error
    } else {
        StatusSeverity::Info
    };
    let battery_glyph = if snap.charging { "⚡" } else { "🔋" };
    r.push(make_item("battery", pct.as_str(), battery_severity, battery_glyph));
    proof {
        assert(pct@ =~= signed_decimal(snap.battery_pct as int) + seq!['%']);
        assert(item_views(r@) =~= health_items(*snap));
    }
    r
}

} // verus!
