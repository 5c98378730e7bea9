//! The casting session: the receivers that were found, the one being cast
//! to, and what each event of the app's event loop asks the platform to do.
//!
//! The session holds only plain values. The platform runs the event loop:
//! it turns what the discovery service, the receivers and the screen
//! capture report into [`SessionEvent`]s, hands each to
//! [`Application::handle_event`], and performs the [`SessionAction`]s that
//! come back, in order.

use vstd::prelude::*;
use crate::text::{owned, push_char, push_decimal, decimal, str_eq};

pub mod banner;
pub mod defaults;
pub mod settings;
pub mod status;

verus! {

/// An address of a receiver, with its text.
pub struct IpAddress {
    pub is_v6: bool,
    pub text: String,
}

/// The view of an address: whether it is IPv6, and its text.
pub open spec fn ip_view(a: IpAddress) -> (bool, Seq<char>) {
    (a.is_v6, a.text@)
}

impl IpAddress {
    /// An independent copy.
    pub fn duplicate(&self) -> (r: IpAddress)
        ensures
            ip_view(r) == ip_view(*self),
    {
        IpAddress { is_v6: self.is_v6, text: self.text.clone() }
    }
}

/// A receiver found on the network.
pub struct DeviceInfo {
    pub name: String,
    pub addresses: Vec<IpAddress>,
    pub port: u16,
}

/// What a receiver is: its name, its addresses and its port.
pub ghost struct DeviceView {
    pub name: Seq<char>,
    pub addresses: Seq<(bool, Seq<char>)>,
    pub port: u16,
}

impl View for DeviceInfo {
    type V = DeviceView;

    open spec fn view(&self) -> DeviceView {
        DeviceView {
            name: self.name@,
            addresses: self.addresses@.map_values(|a: IpAddress| ip_view(a)),
            port: self.port,
        }
    }
}

/// The views of a sequence of receivers.
pub open spec fn device_views(s: Seq<DeviceInfo>) -> Seq<DeviceView> {
    s.map_values(|d: DeviceInfo| d@)
}

impl DeviceInfo {
    /// An independent copy.
    pub fn duplicate(&self) -> (r: DeviceInfo)
        ensures
            r@ == self@,
    {
        let mut addresses: Vec<IpAddress> = Vec::new();
        let mut i: usize = 0;
        while i < self.addresses.len()
            invariant
                i <= self.addresses.len(),
                addresses.len() == i,
                forall|j: int| 0 <= j < i ==> ip_view(#[trigger] addresses@[j]) == ip_view(self.addresses@[j]),
            decreases self.addresses.len() - i,
        {
            addresses.push(self.addresses[i].duplicate());
            i = i + 1;
        }
        let r = DeviceInfo { name: self.name.clone(), addresses, port: self.port };
        proof {
            assert(r@.addresses =~= self@.addresses);
        }
        r
    }
}

/// A row of the receiver list.
pub struct ReceiverItem {
    pub id: String,
    pub name: String,
    pub address: String,
    pub ip: String,
    pub port: i32,
    pub kind: String,
    pub is_default: bool,
}

/// What a receiver row shows.
pub ghost struct ReceiverView {
    pub id: Seq<char>,
    pub name: Seq<char>,
    pub address: Seq<char>,
    pub ip: Seq<char>,
    pub port: i32,
    pub kind: Seq<char>,
    pub is_default: bool,
}

impl View for ReceiverItem {
    type V = ReceiverView;

    open spec fn view(&self) -> ReceiverView {
        ReceiverView {
            id: self.id@,
            name: self.name@,
            address: self.address@,
            ip: self.ip@,
            port: self.port,
            kind: self.kind@,
            is_default: self.is_default,
        }
    }
}

/// Whether a receiver is listed: it has an address and a port.
pub open spec fn listed(d: DeviceView) -> bool {
    d.addresses.len() > 0 && d.port != 0
}

/// The listed receivers, in order.
pub open spec fn listed_devices(s: Seq<DeviceView>) -> Seq<DeviceView>
    decreases s.len(),
{
    if s.len() == 0 {
        s
    } else {
        let rest = listed_devices(s.drop_last());
        if listed(s.last()) {
            rest.push(s.last())
        } else {
            rest
        }
    }
}

/// The address at which a receiver is reached: its first address and its
/// port, an IPv6 address in brackets.
pub open spec fn address_text(d: DeviceView) -> Seq<char> {
    let first = d.addresses[0];
    if first.0 {
        seq!['['] + first.1 + seq![']', ':'] + decimal(d.port as nat)
    } else {
        first.1 + seq![':'] + decimal(d.port as nat)
    }
}

/// The row shown for a listed receiver.
pub open spec fn receiver_row(d: DeviceView) -> ReceiverView {
    ReceiverView {
        id: d.name,
        name: d.name,
        address: address_text(d),
        ip: d.addresses[0].1,
        port: d.port as i32,
        kind: "fcast"@,
        is_default: false,
    }
}

/// The rows of the receiver list for a table of receivers.
pub open spec fn receiver_rows(s: Seq<DeviceView>) -> Seq<ReceiverView> {
    listed_devices(s).map_values(|d: DeviceView| receiver_row(d))
}

/// The row for a listed receiver.
fn receiver_item(d: &DeviceInfo) -> (r: ReceiverItem)
    requires
        listed(d@),
    ensures
        r@ == receiver_row(d@),
{
    let first = &d.addresses[0];
    let mut address = String::new();
    if first.is_v6 {
        push_char(&mut address, '[');
        crate::text::push_str(&mut address, first.text.as_str());
        push_char(&mut address, ']');
        push_char(&mut address, ':');
    } else {
        crate::text::push_str(&mut address, first.text.as_str());
        push_char(&mut address, ':');
    }
    push_decimal(&mut address, d.port as u64);
    proof {
        if first.is_v6 {
            assert(address@ =~= address_text(d@));
        } else {
            assert(address@ =~= address_text(d@));
        }
    }
    ReceiverItem {
        id: d.name.clone(),
        name: d.name.clone(),
        address,
        ip: first.text.clone(),
        port: d.port as i32,
        kind: owned("fcast"),
        is_default: false,
    }
}

/// The receiver list for `devices`: one row per receiver that has an
/// address and a port, in table order.
pub fn receiver_items(devices: &Vec<DeviceInfo>) -> (r: Vec<ReceiverItem>)
    ensures
        r@.map_values(|x: ReceiverItem| x@) == receiver_rows(device_views(devices@)),
{
    let ghost views = device_views(devices@);
    let mut out: Vec<ReceiverItem> = Vec::new();
    let mut i: usize = 0;
    while i < devices.len()
        invariant
            i <= devices.len(),
            views == device_views(devices@),
            out@.map_values(|x: ReceiverItem| x@) == receiver_rows(views.take(i as int)),
        decreases devices.len() - i,
    {
        proof {
            assert(views.take(i + 1).drop_last() =~= views.take(i as int));
            assert(views.take(i + 1).last() == devices@[i as int]@);
        }
        let d = &devices[i];
        if d.addresses.len() > 0 && d.port != 0 {
            let item = receiver_item(d);
            let ghost before = out@;
            out.push(item);
            proof {
                let t = views.take(i + 1);
                assert(listed(t.last()));
                assert(listed_devices(t) == listed_devices(views.take(i as int)).push(d@));
                assert(out@ =~= before.push(item));
                assert(out@.map_values(|x: ReceiverItem| x@) =~= before.map_values(|x: ReceiverItem| x@).push(item@));
                assert(out@.map_values(|x: ReceiverItem| x@) =~= receiver_rows(views.take(i + 1)));
            }
        } else {
            proof {
                assert(out@.map_values(|x: ReceiverItem| x@) =~= receiver_rows(views.take(i + 1)));
            }
        }
        i = i + 1;
    }
    proof {
        assert(views.take(devices.len() as int) =~= views);
    }
    out
}


/// The phase of the casting flow that the UI shows.
#[derive(Clone, Copy, Debug, PartialEq, Eq, Structural)]
pub enum AppState {
    Disconnected,
    Connecting,
    SelectingSettings,
    WaitingForMedia,
    Casting,
}

/// The capture size and frame rate asked for when casting starts.
#[derive(Clone, Copy, Debug, PartialEq, Eq, Structural)]
pub struct CastRequest {
    pub scale_width: u32,
    pub scale_height: u32,
    pub max_framerate: u32,
}

/// The capture used when none was asked for: 1280x720 at 30 frames a second.
pub open spec fn default_cast_request() -> CastRequest {
    CastRequest { scale_width: 1280, scale_height: 720, max_framerate: 30 }
}

/// What a receiver reports about itself.
pub enum DeviceEvent {
    /// The connection is up; the sender's own address on that connection.
    Connected { local_addr: IpAddress },
    /// Any other change of the connection state.
    OtherState,
    /// The receiver now plays another source: its URL, when it is one.
    SourceChanged(Option<String>),
    /// Anything else.
    Other,
}

/// An event of the app's event loop.
pub enum SessionEvent {
    EndSession,
    ConnectToDevice(String),
    SignallerStarted { bound_port_v4: u16, bound_port_v6: u16 },
    Quit,
    DeviceAvailable(DeviceInfo),
    DeviceRemoved(String),
    DeviceChanged(DeviceInfo),
    /// A report of the receiver connected under handler id `id`.
    FromDevice { id: u64, event: DeviceEvent },
    CaptureStarted,
    CaptureStopped,
    CaptureCancelled,
    /// A scanned QR code, with the receiver it describes when it describes one.
    QrScanResult(Option<DeviceInfo>),
    StartCast { scale_width: u32, scale_height: u32, max_framerate: u32 },
}

/// What a receiver report is.
pub ghost enum DeviceEventView {
    Connected { local_addr: (bool, Seq<char>) },
    OtherState,
    SourceChanged(Option<Seq<char>>),
    Other,
}

/// What an event is.
pub ghost enum EventView {
    EndSession,
    ConnectToDevice(Seq<char>),
    SignallerStarted { bound_port_v4: u16, bound_port_v6: u16 },
    Quit,
    DeviceAvailable(DeviceView),
    DeviceRemoved(Seq<char>),
    DeviceChanged(DeviceView),
    FromDevice { id: u64, event: DeviceEventView },
    CaptureStarted,
    CaptureStopped,
    CaptureCancelled,
    QrScanResult(Option<DeviceView>),
    StartCast(CastRequest),
}

impl View for DeviceEvent {
    type V = DeviceEventView;

    open spec fn view(&self) -> DeviceEventView {
        match self {
            DeviceEvent::Connected { local_addr } => DeviceEventView::Connected { local_addr: ip_view(*local_addr) },
            DeviceEvent::OtherState => DeviceEventView::OtherState,
            DeviceEvent::SourceChanged(u) => DeviceEventView::SourceChanged(match u {
                Some(x) => Some(x@),
                None => None,
            }),
            DeviceEvent::Other => DeviceEventView::Other,
        }
    }
}

impl View for SessionEvent {
    type V = EventView;

    open spec fn view(&self) -> EventView {
        match self {
            SessionEvent::EndSession => EventView::EndSession,
            SessionEvent::ConnectToDevice(n) => EventView::ConnectToDevice(n@),
            SessionEvent::SignallerStarted { bound_port_v4, bound_port_v6 } =>
                EventView::SignallerStarted { bound_port_v4: *bound_port_v4, bound_port_v6: *bound_port_v6 },
            SessionEvent::Quit => EventView::Quit,
            SessionEvent::DeviceAvailable(d) => EventView::DeviceAvailable(d@),
            SessionEvent::DeviceRemoved(n) => EventView::DeviceRemoved(n@),
            SessionEvent::DeviceChanged(d) => EventView::DeviceChanged(d@),
            SessionEvent::FromDevice { id, event } => EventView::FromDevice { id: *id, event: event@ },
            SessionEvent::CaptureStarted => EventView::CaptureStarted,
            SessionEvent::CaptureStopped => EventView::CaptureStopped,
            SessionEvent::CaptureCancelled => EventView::CaptureCancelled,
            SessionEvent::QrScanResult(d) => EventView::QrScanResult(match d {
                Some(x) => Some(x@),
                None => None,
            }),
            SessionEvent::StartCast { scale_width, scale_height, max_framerate } =>
                EventView::StartCast(CastRequest {
                    scale_width: *scale_width,
                    scale_height: *scale_height,
                    max_framerate: *max_framerate,
                }),
        }
    }
}

/// Something the platform does for the session.
pub enum SessionAction {
    /// Show this phase of the casting flow.
    ChangeState(AppState),
    /// Show this receiver list.
    ShowReceivers(Vec<ReceiverItem>),
    /// Record whether the screen is being captured.
    SetCaptureActive(bool),
    /// Ask the activity to stop the screen capture.
    StopScreenCapture,
    /// Let go of the active receiver: stop its playback first when asked,
    /// then disconnect.
    ReleaseDevice { stop_playback: bool },
    /// Remove the cast link and nodes from the media graph.
    RemoveCastGraph,
    /// Connect to this receiver, reporting under this handler id.
    Connect { device: DeviceInfo, handler_id: u64 },
    /// Build the play message for the signaller at this address and port,
    /// then hand its URL to [`Application::play_message_built`].
    PlayAt { address: IpAddress, port: u16 },
    /// Build the cast graph for this capture, then report the outcome to
    /// [`Application::cast_graph_built`].
    BuildCastGraph(CastRequest),
    /// Watch the cast destination until it publishes its bound ports.
    WatchBoundPorts,
    /// Ask the activity to start the screen capture.
    StartScreenCapture(CastRequest),
    /// Load this URL on the active receiver.
    LoadUrl(String),
    /// Leave the event loop.
    Quit,
}

/// What an action is.
pub ghost enum ActionView {
    ChangeState(AppState),
    ShowReceivers(Seq<ReceiverView>),
    SetCaptureActive(bool),
    StopScreenCapture,
    ReleaseDevice { stop_playback: bool },
    RemoveCastGraph,
    Connect { device: DeviceView, handler_id: u64 },
    PlayAt { address: (bool, Seq<char>), port: u16 },
    BuildCastGraph(CastRequest),
    WatchBoundPorts,
    StartScreenCapture(CastRequest),
    LoadUrl(Seq<char>),
    Quit,
}

impl View for SessionAction {
    type V = ActionView;

    open spec fn view(&self) -> ActionView {
        match self {
            SessionAction::ChangeState(s) => ActionView::ChangeState(*s),
            SessionAction::ShowReceivers(r) =>
                ActionView::ShowReceivers(r@.map_values(|x: ReceiverItem| x@)),
            SessionAction::SetCaptureActive(b) => ActionView::SetCaptureActive(*b),
            SessionAction::StopScreenCapture => ActionView::StopScreenCapture,
            SessionAction::ReleaseDevice { stop_playback } =>
                ActionView::ReleaseDevice { stop_playback: *stop_playback },
            SessionAction::RemoveCastGraph => ActionView::RemoveCastGraph,
            SessionAction::Connect { device, handler_id } =>
                ActionView::Connect { device: device@, handler_id: *handler_id },
            SessionAction::PlayAt { address, port } =>
                ActionView::PlayAt { address: ip_view(*address), port: *port },
            SessionAction::BuildCastGraph(r) => ActionView::BuildCastGraph(*r),
            SessionAction::WatchBoundPorts => ActionView::WatchBoundPorts,
            SessionAction::StartScreenCapture(r) => ActionView::StartScreenCapture(*r),
            SessionAction::LoadUrl(u) => ActionView::LoadUrl(u@),
            SessionAction::Quit => ActionView::Quit,
        }
    }
}

/// The views of a sequence of actions.
pub open spec fn action_seq(s: Seq<SessionAction>) -> Seq<ActionView> {
    s.map_values(|a: SessionAction| a@)
}

/// What the session is.
pub ghost struct SessionView {
    pub devices: Seq<DeviceView>,
    pub has_active_device: bool,
    pub current_device_id: u64,
    pub local_address: Option<(bool, Seq<char>)>,
    pub our_source_url: Option<Seq<char>>,
    pub last_cast_request: Option<CastRequest>,
}

/// No two receivers in a table share a name.
pub open spec fn unique_names(s: Seq<DeviceView>) -> bool {
    forall|i: int, j: int| 0 <= i < s.len() && 0 <= j < s.len() && i != j ==> s[i].name != s[j].name
}

/// A receiver in the table is named `name`.
pub open spec fn has_name(s: Seq<DeviceView>, name: Seq<char>) -> bool {
    exists|i: int| 0 <= i < s.len() && s[i].name == name
}

/// The position of the receiver named `name`.
pub open spec fn name_index(s: Seq<DeviceView>, name: Seq<char>) -> int {
    choose|i: int| 0 <= i < s.len() && s[i].name == name
}

/// The table with `d` added, or replacing the receiver of the same name.
pub open spec fn upserted(s: Seq<DeviceView>, d: DeviceView) -> Seq<DeviceView> {
    if has_name(s, d.name) {
        s.update(name_index(s, d.name), d)
    } else {
        s.push(d)
    }
}

/// The table without the receiver named `name`.
pub open spec fn without(s: Seq<DeviceView>, name: Seq<char>) -> Seq<DeviceView> {
    if has_name(s, name) {
        s.remove(name_index(s, name))
    } else {
        s
    }
}

/// Ending the cast: capture off, the activity's capture stopped, the active
/// receiver let go (stopping its playback when asked), the cast graph
/// removed; no source URL and no active receiver remain.
pub open spec fn stop_cast_step(s: SessionView, stop_playback: bool) -> (SessionView, Seq<ActionView>) {
    let release = if s.has_active_device {
        seq![ActionView::ReleaseDevice { stop_playback }]
    } else {
        Seq::empty()
    };
    (
        SessionView { our_source_url: None, has_active_device: false, ..s },
        seq![ActionView::SetCaptureActive(false), ActionView::StopScreenCapture] + release
            + seq![ActionView::RemoveCastGraph],
    )
}

/// Connecting to a receiver: a fresh handler id, the receiver becomes the
/// active one, and the UI shows Connecting.
pub open spec fn connect_step(s: SessionView, d: DeviceView) -> (SessionView, Seq<ActionView>) {
    let id = (s.current_device_id + 1) as u64;
    (
        SessionView { current_device_id: id, has_active_device: true, ..s },
        seq![ActionView::Connect { device: d, handler_id: id }, ActionView::ChangeState(AppState::Connecting)],
    )
}

/// The receiver table changes: the new list is shown.
pub open spec fn table_step(s: SessionView, devices: Seq<DeviceView>) -> (SessionView, Seq<ActionView>) {
    (
        SessionView { devices, ..s },
        seq![ActionView::ShowReceivers(receiver_rows(devices))],
    )
}

/// The session after an event, and the actions the event asks for.
pub open spec fn step(s: SessionView, e: EventView) -> (SessionView, Seq<ActionView>) {
    match e {
        EventView::EndSession => {
            let (t, a) = stop_cast_step(s, true);
            (t, seq![ActionView::ChangeState(AppState::Disconnected)] + a)
        },
        EventView::ConnectToDevice(name) => if has_name(s.devices, name) {
            connect_step(s, s.devices[name_index(s.devices, name)])
        } else {
            (s, Seq::empty())
        },
        EventView::SignallerStarted { bound_port_v4, bound_port_v6 } => match s.local_address {
            Some(a) => (s, seq![ActionView::PlayAt {
                address: a,
                port: if a.0 { bound_port_v6 } else { bound_port_v4 },
            }]),
            None => (s, Seq::empty()),
        },
        EventView::Quit => (s, seq![ActionView::Quit]),
        EventView::DeviceAvailable(d) => table_step(s, upserted(s.devices, d)),
        EventView::DeviceChanged(d) => table_step(s, upserted(s.devices, d)),
        EventView::DeviceRemoved(name) => if has_name(s.devices, name) {
            table_step(s, without(s.devices, name))
        } else {
            (s, Seq::empty())
        },
        EventView::FromDevice { id, event } => if id != s.current_device_id {
            (s, Seq::empty())
        } else {
            match event {
                DeviceEventView::Connected { local_addr } => (
                    SessionView { local_address: Some(local_addr), ..s },
                    seq![ActionView::ChangeState(AppState::SelectingSettings)],
                ),
                DeviceEventView::SourceChanged(Some(url)) => {
                    if s.our_source_url is Some && s.our_source_url != Some(url) {
                        let (t, a) = stop_cast_step(s, false);
                        (t, seq![ActionView::ChangeState(AppState::Disconnected)] + a)
                    } else {
                        (s, Seq::empty())
                    }
                },
                _ => (s, Seq::empty()),
            }
        },
        EventView::CaptureStarted => (
            SessionView { our_source_url: None, ..s },
            seq![
                ActionView::SetCaptureActive(true),
                ActionView::BuildCastGraph(match s.last_cast_request {
                    Some(r) => r,
                    None => default_cast_request(),
                }),
            ],
        ),
        EventView::CaptureStopped => (s, seq![ActionView::SetCaptureActive(false)]),
        EventView::CaptureCancelled => {
            let (t, a) = stop_cast_step(s, false);
            (t, seq![ActionView::SetCaptureActive(false), ActionView::ChangeState(AppState::Disconnected)] + a)
        },
        EventView::QrScanResult(Some(d)) => connect_step(s, d),
        EventView::QrScanResult(None) => (s, Seq::empty()),
        EventView::StartCast(r) => (
            SessionView { last_cast_request: Some(r), ..s },
            seq![ActionView::StartScreenCapture(r), ActionView::ChangeState(AppState::WaitingForMedia)],
        ),
    }
}

/// Whether `e` starts a connection (and so takes a fresh handler id): a
/// connect request for a known receiver, or a scanned receiver.
pub open spec fn would_connect(s: SessionView, e: EventView) -> bool {
    match e {
        EventView::ConnectToDevice(name) => has_name(s.devices, name),
        EventView::QrScanResult(Some(_)) => true,
        _ => false,
    }
}

/// The decision state of the app's event loop.
pub struct Application {
    devices: Vec<DeviceInfo>,
    has_active_device: bool,
    current_device_id: u64,
    local_address: Option<IpAddress>,
    our_source_url: Option<String>,
    last_cast_request: Option<CastRequest>,
}

impl View for Application {
    type V = SessionView;

    closed spec fn view(&self) -> SessionView {
        SessionView {
            devices: device_views(self.devices@),
            has_active_device: self.has_active_device,
            current_device_id: self.current_device_id,
            local_address: match self.local_address {
                Some(a) => Some(ip_view(a)),
                None => None,
            },
            our_source_url: match self.our_source_url {
                Some(u) => Some(u@),
                None => None,
            },
            last_cast_request: self.last_cast_request,
        }
    }
}


/// In a table without repeated names, the receiver at `i` is the one found
/// under its name.
proof fn lemma_name_index_unique(s: Seq<DeviceView>, i: int)
    requires
        unique_names(s),
        0 <= i < s.len(),
    ensures
        has_name(s, s[i].name),
        name_index(s, s[i].name) == i,
{
    assert(has_name(s, s[i].name));
}

/// Updating or adding a receiver by name keeps names unique.
proof fn lemma_upserted_unique(s: Seq<DeviceView>, d: DeviceView)
    requires
        unique_names(s),
    ensures
        unique_names(upserted(s, d)),
{
    if has_name(s, d.name) {
        let k = name_index(s, d.name);
        let t = s.update(k, d);
        assert forall|i: int, j: int| 0 <= i < t.len() && 0 <= j < t.len() && i != j implies t[i].name != t[j].name by {
            if i == k {
                assert(s[k].name == d.name);
            } else if j == k {
                assert(s[k].name == d.name);
            }
        }
    } else {
        let t = s.push(d);
        assert forall|i: int, j: int| 0 <= i < t.len() && 0 <= j < t.len() && i != j implies t[i].name != t[j].name by {
            if i == s.len() as int {
                assert(t[j] == s[j]);
            } else if j == s.len() as int {
                assert(t[i] == s[i]);
            }
        }
    }
}

/// Removing a receiver keeps names unique.
proof fn lemma_without_unique(s: Seq<DeviceView>, name: Seq<char>)
    requires
        unique_names(s),
    ensures
        unique_names(without(s, name)),
{
    if has_name(s, name) {
        let k = name_index(s, name);
        let t = s.remove(k);
        assert forall|i: int, j: int| 0 <= i < t.len() && 0 <= j < t.len() && i != j implies t[i].name != t[j].name by {
            let si = if i < k { i } else { i + 1 };
            let sj = if j < k { j } else { j + 1 };
            assert(t[i] == s[si]);
            assert(t[j] == s[sj]);
        }
    }
}

/// The position of the receiver named `name` in `devices`, if any.
fn position_in(devices: &Vec<DeviceInfo>, name: &str) -> (r: Option<usize>)
    ensures
        match r {
            Some(i) => i < devices@.len() && device_views(devices@)[i as int].name == name@,
            None => !has_name(device_views(devices@), name@),
        },
{
    let mut i: usize = 0;
    while i < devices.len()
        invariant
            i <= devices@.len(),
            forall|j: int| 0 <= j < i ==> device_views(devices@)[j].name != name@,
        decreases devices@.len() - i,
    {
        if str_eq(devices[i].name.as_str(), name) {
            return Some(i);
        }
        i = i + 1;
    }
    None
}

impl Application {
    #[verifier::type_invariant]
    closed spec fn inv(self) -> bool {
        unique_names(device_views(self.devices@))
    }

    /// A session that knows no receiver and is connected to none.
    pub fn new() -> (a: Application)
        ensures
            a@ == (SessionView {
                devices: Seq::empty(),
                has_active_device: false,
                current_device_id: 0,
                local_address: None,
                our_source_url: None,
                last_cast_request: None,
            }),
    {
        let a = Application {
            devices: Vec::new(),
            has_active_device: false,
            current_device_id: 0,
            local_address: None,
            our_source_url: None,
            last_cast_request: None,
        };
        proof {
            assert(device_views(a.devices@) =~= Seq::<DeviceView>::empty());
        }
        a
    }

    /// No two known receivers share a name.
    pub fn names_are_unique(&self) -> (r: bool)
        ensures
            r,
            unique_names(self@.devices),
    {
        proof { use_type_invariant(self); }
        true
    }

    /// The handler id of the latest connection attempt (0 before any).
    pub fn current_device_id(&self) -> (r: u64)
        ensures
            r == self@.current_device_id,
    {
        self.current_device_id
    }

    /// Whether `event` would start a connection (see [`would_connect`]).
    pub fn would_connect(&self, event: &SessionEvent) -> (r: bool)
        ensures
            r == would_connect(self@, event@),
    {
        match event {
            SessionEvent::ConnectToDevice(name) => position_in(&self.devices, name.as_str()).is_some(),
            SessionEvent::QrScanResult(Some(_)) => true,
            _ => false,
        }
    }

    /// Ends the cast (see [`stop_cast_step`]).
    fn stop_cast(&mut self, stop_playback: bool) -> (r: Vec<SessionAction>)
        ensures
            (final(self)@, action_seq(r@)) == stop_cast_step(old(self)@, stop_playback),
    {
        proof { use_type_invariant(&*self); }
        let mut r: Vec<SessionAction> = Vec::new();
        r.push(SessionAction::SetCaptureActive(false));
        r.push(SessionAction::StopScreenCapture);
        if self.has_active_device {
            r.push(SessionAction::ReleaseDevice { stop_playback });
        }
        r.push(SessionAction::RemoveCastGraph);
        self.our_source_url = None;
        self.has_active_device = false;
        proof {
            assert(action_seq(r@) =~= stop_cast_step(old(self)@, stop_playback).1);
        }
        r
    }

    /// Connects to `device` (see [`connect_step`]).
    fn connect(&mut self, device: DeviceInfo) -> (r: Vec<SessionAction>)
        requires
            old(self)@.current_device_id < u64::MAX,
        ensures
            (final(self)@, action_seq(r@)) == connect_step(old(self)@, device@),
    {
        proof { use_type_invariant(&*self); }
        self.current_device_id = self.current_device_id + 1;
        self.has_active_device = true;
        let mut r: Vec<SessionAction> = Vec::new();
        r.push(SessionAction::Connect { device, handler_id: self.current_device_id });
        r.push(SessionAction::ChangeState(AppState::Connecting));
        proof {
            assert(action_seq(r@) =~= connect_step(old(self)@, device@).1);
        }
        r
    }

    /// The current receiver list shown as the only action.
    fn show_receivers(&self) -> (r: Vec<SessionAction>)
        ensures
            action_seq(r@) == seq![ActionView::ShowReceivers(receiver_rows(self@.devices))],
    {
        let items = receiver_items(&self.devices);
        let mut r: Vec<SessionAction> = Vec::new();
        r.push(SessionAction::ShowReceivers(items));
        proof {
            assert(action_seq(r@) =~= seq![ActionView::ShowReceivers(receiver_rows(self@.devices))]);
        }
        r
    }

    /// Adds `device` to the table, or replaces the receiver of its name.
    fn upsert_device(&mut self, device: DeviceInfo)
        ensures
            final(self)@ == (SessionView { devices: upserted(old(self)@.devices, device@), ..old(self)@ }),
    {
        proof { use_type_invariant(&*self); }
        let ghost before = device_views(self.devices@);
        let ghost dv = device@;
        let mut devices: Vec<DeviceInfo> = Vec::new();
        std::mem::swap(&mut devices, &mut self.devices);
        match position_in(&devices, device.name.as_str()) {
            Some(i) => {
                proof { lemma_name_index_unique(before, i as int); }
                devices.set(i, device);
                proof {
                    assert(device_views(devices@) =~= before.update(i as int, dv));
                }
            },
            None => {
                devices.push(device);
                proof {
                    assert(device_views(devices@) =~= before.push(dv));
                }
            },
        }
        proof { lemma_upserted_unique(before, dv); }
        self.devices = devices;
    }

    /// Removes the receiver named `name`; tells whether there was one.
    fn remove_device(&mut self, name: &str) -> (found: bool)
        ensures
            found == has_name(old(self)@.devices, name@),
            final(self)@ == (SessionView { devices: without(old(self)@.devices, name@), ..old(self)@ }),
    {
        proof { use_type_invariant(&*self); }
        let ghost before = device_views(self.devices@);
        let mut devices: Vec<DeviceInfo> = Vec::new();
        std::mem::swap(&mut devices, &mut self.devices);
        let found = match position_in(&devices, name) {
            Some(i) => {
                proof { lemma_name_index_unique(before, i as int); }
                devices.remove(i);
                proof {
                    assert(device_views(devices@) =~= before.remove(i as int));
                }
                true
            },
            None => false,
        };
        proof { lemma_without_unique(before, name@); }
        self.devices = devices;
        found
    }
}


/// The play message was built and its URL is the one the session now casts:
/// it is loaded on the active receiver, if there is one.
pub open spec fn play_built_step(s: SessionView, url: Seq<char>) -> (SessionView, Seq<ActionView>) {
    (
        SessionView { our_source_url: Some(url), ..s },
        if s.has_active_device { seq![ActionView::LoadUrl(url)] } else { Seq::empty() },
    )
}

/// The cast graph was built, or failed to build: on success the session
/// waits for the destination's ports and the UI shows Casting; on failure
/// the cast ends without stopping the receiver's playback.
pub open spec fn graph_built_step(s: SessionView, ok: bool) -> (SessionView, Seq<ActionView>) {
    if ok {
        (s, seq![ActionView::WatchBoundPorts, ActionView::ChangeState(AppState::Casting)])
    } else {
        stop_cast_step(s, false)
    }
}

/// `first`, then the actions of `rest`.
fn prepend(first: Vec<SessionAction>, rest: Vec<SessionAction>) -> (r: Vec<SessionAction>)
    ensures
        action_seq(r@) == action_seq(first@) + action_seq(rest@),
{
    let mut r = first;
    let mut rest = rest;
    let ghost a = r@;
    let ghost b = rest@;
    r.append(&mut rest);
    proof {
        assert(r@ == a + b);
        assert(action_seq(r@) =~= action_seq(a) + action_seq(b));
    }
    r
}

/// A single action.
fn one(a: SessionAction) -> (r: Vec<SessionAction>)
    ensures
        action_seq(r@) == seq![a@],
{
    let mut r: Vec<SessionAction> = Vec::new();
    r.push(a);
    proof {
        assert(action_seq(r@) =~= seq![a@]);
    }
    r
}

/// Two actions, in order.
fn two(a: SessionAction, b: SessionAction) -> (r: Vec<SessionAction>)
    ensures
        action_seq(r@) == seq![a@, b@],
{
    let mut r: Vec<SessionAction> = Vec::new();
    r.push(a);
    r.push(b);
    proof {
        assert(action_seq(r@) =~= seq![a@, b@]);
    }
    r
}

/// No action.
fn none() -> (r: Vec<SessionAction>)
    ensures
        action_seq(r@) == Seq::<ActionView>::empty(),
{
    let r: Vec<SessionAction> = Vec::new();
    proof {
        assert(action_seq(r@) =~= Seq::<ActionView>::empty());
    }
    r
}

impl Application {
    /// Handles one event of the event loop (see [`step`]); the platform
    /// performs the returned actions in order. Receiver names stay unique.
    pub fn handle_event(&mut self, event: SessionEvent) -> (r: Vec<SessionAction>)
        requires
            would_connect(old(self)@, event@) ==> old(self)@.current_device_id < u64::MAX,
        ensures
            (final(self)@, action_seq(r@)) == step(old(self)@, event@),
            unique_names(final(self)@.devices),
    {
        proof { use_type_invariant(&*self); }
        let r = match event {
            SessionEvent::EndSession => {
                let rest = self.stop_cast(true);
                prepend(one(SessionAction::ChangeState(AppState::Disconnected)), rest)
            },
            SessionEvent::ConnectToDevice(name) => {
                match position_in(&self.devices, name.as_str()) {
                    Some(i) => {
                        proof { lemma_name_index_unique(self@.devices, i as int); }
                        let d = self.devices[i].duplicate();
                        self.connect(d)
                    },
                    None => none(),
                }
            },
            SessionEvent::SignallerStarted { bound_port_v4, bound_port_v6 } => {
                match &self.local_address {
                    Some(a) => {
                        let port = if a.is_v6 { bound_port_v6 } else { bound_port_v4 };
                        one(SessionAction::PlayAt { address: a.duplicate(), port })
                    },
                    None => none(),
                }
            },
            SessionEvent::Quit => one(SessionAction::Quit),
            SessionEvent::DeviceAvailable(d) => {
                self.upsert_device(d);
                self.show_receivers()
            },
            SessionEvent::DeviceChanged(d) => {
                self.upsert_device(d);
                self.show_receivers()
            },
            SessionEvent::DeviceRemoved(name) => {
                if self.remove_device(name.as_str()) {
                    self.show_receivers()
                } else {
                    none()
                }
            },
            SessionEvent::FromDevice { id, event } => {
                if id != self.current_device_id {
                    none()
                } else {
                    match event {
                        DeviceEvent::Connected { local_addr } => {
                            self.local_address = Some(local_addr);
                            one(SessionAction::ChangeState(AppState::SelectingSettings))
                        },
                        DeviceEvent::SourceChanged(Some(url)) => {
                            let differs = match &self.our_source_url {
                                Some(ours) => !str_eq(ours.as_str(), url.as_str()),
                                None => false,
                            };
                            if differs {
                                let rest = self.stop_cast(false);
                                prepend(one(SessionAction::ChangeState(AppState::Disconnected)), rest)
                            } else {
                                none()
                            }
                        },
                        _ => none(),
                    }
                }
            },
            SessionEvent::CaptureStarted => {
                self.our_source_url = None;
                let req = match self.last_cast_request {
                    Some(r) => r,
                    None => CastRequest { scale_width: 1280, scale_height: 720, max_framerate: 30 },
                };
                two(SessionAction::SetCaptureActive(true), SessionAction::BuildCastGraph(req))
            },
            SessionEvent::CaptureStopped => one(SessionAction::SetCaptureActive(false)),
            SessionEvent::CaptureCancelled => {
                let rest = self.stop_cast(false);
                prepend(
                    two(
                        SessionAction::SetCaptureActive(false),
                        SessionAction::ChangeState(AppState::Disconnected),
                    ),
                    rest,
                )
            },
            SessionEvent::QrScanResult(found) => {
                match found {
                    Some(d) => self.connect(d),
                    None => none(),
                }
            },
            SessionEvent::StartCast { scale_width, scale_height, max_framerate } => {
                let req = CastRequest { scale_width, scale_height, max_framerate };
                self.last_cast_request = Some(req);
                two(
                    SessionAction::StartScreenCapture(req),
                    SessionAction::ChangeState(AppState::WaitingForMedia),
                )
            },
        };
        proof { use_type_invariant(&*self); }
        r
    }

    /// Records the URL of the play message that was built for the
    /// signaller (see [`play_built_step`]).
    pub fn play_message_built(&mut self, url: String) -> (r: Vec<SessionAction>)
        ensures
            (final(self)@, action_seq(r@)) == play_built_step(old(self)@, url@),
    {
        proof { use_type_invariant(&*self); }
        let ghost u = url@;
        if self.has_active_device {
            let load = url.clone();
            self.our_source_url = Some(url);
            one(SessionAction::LoadUrl(load))
        } else {
            self.our_source_url = Some(url);
            none()
        }
    }

    /// Records whether the cast graph was built (see [`graph_built_step`]).
    pub fn cast_graph_built(&mut self, ok: bool) -> (r: Vec<SessionAction>)
        ensures
            (final(self)@, action_seq(r@)) == graph_built_step(old(self)@, ok),
    {
        if ok {
            two(SessionAction::WatchBoundPorts, SessionAction::ChangeState(AppState::Casting))
        } else {
            self.stop_cast(false)
        }
    }
}


/// A report from any connection but the current one changes nothing and
/// asks for nothing.
pub proof fn law_stale_reports_ignored(s: SessionView, id: u64, e: DeviceEventView)
    requires
        id != s.current_device_id,
    ensures
        step(s, EventView::FromDevice { id, event: e }) == (s, Seq::<ActionView>::empty()),
{
}

/// Ending the session, by the user or by a cancelled capture, lets go of
/// the receiver and the source URL, turns the capture off first and
/// removes the cast graph last.
pub proof fn law_ending_releases_everything(s: SessionView)
    ensures
        !step(s, EventView::EndSession).0.has_active_device,
        step(s, EventView::EndSession).0.our_source_url is None,
        step(s, EventView::EndSession).1.last() == ActionView::RemoveCastGraph,
        !step(s, EventView::CaptureCancelled).0.has_active_device,
        step(s, EventView::CaptureCancelled).0.our_source_url is None,
        step(s, EventView::CaptureCancelled).1[0] == ActionView::SetCaptureActive(false),
        step(s, EventView::CaptureCancelled).1.last() == ActionView::RemoveCastGraph,
{
}

/// Every connection gets a handler id newer than all before it, so that
/// reports of earlier connections are told apart.
pub proof fn law_connections_get_fresh_ids(s: SessionView, d: DeviceView)
    requires
        s.current_device_id < u64::MAX,
    ensures
        connect_step(s, d).0.current_device_id > s.current_device_id,
        connect_step(s, d).1[0] == (ActionView::Connect { device: d, handler_id: connect_step(s, d).0.current_device_id }),
{
}

/// After a receiver is announced, the list shown is the list of the new
/// table, and that table holds the receiver under its name.
pub proof fn law_announced_receiver_is_listed(s: SessionView, d: DeviceView)
    requires
        unique_names(s.devices),
    ensures
        step(s, EventView::DeviceAvailable(d)).1 == seq![ActionView::ShowReceivers(receiver_rows(step(s, EventView::DeviceAvailable(d)).0.devices))],
        has_name(step(s, EventView::DeviceAvailable(d)).0.devices, d.name),
        step(s, EventView::DeviceAvailable(d)).0.devices[name_index(step(s, EventView::DeviceAvailable(d)).0.devices, d.name)] == d,
{
    let t = upserted(s.devices, d);
    lemma_upserted_unique(s.devices, d);
    if has_name(s.devices, d.name) {
        let k = name_index(s.devices, d.name);
        assert(t[k] == d);
        lemma_name_index_unique(t, k);
    } else {
        assert(t[s.devices.len() as int] == d);
        lemma_name_index_unique(t, s.devices.len() as int);
    }
}

/// Removing a known receiver refreshes the list: the only action shows
/// the rows of the new table; that table no longer holds the name, keeps
/// every other receiver, and is one shorter; nothing else of the session
/// changes.
pub proof fn law_removed_receiver_is_unlisted(s: SessionView, n: Seq<char>)
    requires
        unique_names(s.devices),
        has_name(s.devices, n),
    ensures
        step(s, EventView::DeviceRemoved(n)).1
            == seq![ActionView::ShowReceivers(receiver_rows(step(s, EventView::DeviceRemoved(n)).0.devices))],
        !has_name(step(s, EventView::DeviceRemoved(n)).0.devices, n),
        step(s, EventView::DeviceRemoved(n)).0.devices.len() + 1 == s.devices.len(),
        forall|j: int| 0 <= j < s.devices.len() && s.devices[j].name != n
            ==> step(s, EventView::DeviceRemoved(n)).0.devices.contains(s.devices[j]),
        step(s, EventView::DeviceRemoved(n)).0 == (SessionView { devices: step(s, EventView::DeviceRemoved(n)).0.devices, ..s }),
{
    let k = name_index(s.devices, n);
    let t = step(s, EventView::DeviceRemoved(n)).0.devices;
    assert(t == s.devices.remove(k));
    assert forall|j: int| 0 <= j < s.devices.len() && s.devices[j].name != n implies t.contains(s.devices[j]) by {
        if j < k {
            assert(t[j] == s.devices[j]);
        } else {
            assert(j != k);
            assert(t[j - 1] == s.devices[j]);
        }
    }
    if has_name(t, n) {
        let i = choose|i: int| 0 <= i < t.len() && t[i].name == n;
        if i < k {
            assert(t[i] == s.devices[i]);
        } else {
            assert(t[i] == s.devices[i + 1]);
        }
    }
}

/// Removing a receiver that the table does not hold changes nothing and
/// asks for nothing.
pub proof fn law_unknown_removal_is_ignored(s: SessionView, n: Seq<char>)
    requires
        !has_name(s.devices, n),
    ensures
        step(s, EventView::DeviceRemoved(n)) == (s, Seq::<ActionView>::empty()),
{
}

} // verus!
