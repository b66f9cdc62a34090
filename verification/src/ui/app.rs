//! The application: one state machine that merges what the scanner, the
//! watchdogs and the audio backend report with what the user asks for.
//!
//! The machine owns no port, no thread and no clock. `VolumeApp::update`
//! takes a message and the current time and gives back the effects that the
//! caller is to perform; what those effects report comes back as messages.

use vstd::prelude::*;
use vstd::string::*;

use crate::audio::backend::{AudioError, AudioUpdate};
use crate::audio::reconcile::{
    apply_notifications, apply_snapshot, find_refresh, find_session, ids_distinct, lemma_lookup,
    set_local_volume, toggle_local_mute,
};
use crate::audio::session::{AudioSession, Millis};
use crate::comms::device_info::{
    assigned, device_views, renamed, DeviceInfo, DeviceStatus, DeviceView,
};
use crate::comms::protocol::{DisplayUpdateAppCommand, DisplayUpdateVolumeCommand};
use crate::comms::scanner::ScanEvent;
use crate::ui::laws::lemma_step_keeps_wf;
use crate::ui::page;
use crate::ui::step::{
    channel_write, device_from, found_ports, held_ports, last_lost, on_channel_assign,
    on_device_state_loaded, on_device_sync, on_disconnect, on_poll, on_rename_commit,
    on_rename_draft, on_retry_tick, on_scan_event, on_scan_events, on_scan_tick,
    on_select_output, on_sessions_updated, on_start_scan, on_toggle_debug, on_toggle_mute,
    on_volume_changed, on_watchdog_tick, quiet, ready_from, release_all, releases, show, step,
    ticks_of,
};
use crate::ui::views::no_devices::{NoDevicesReason, NoDevicesView};
use crate::ui::views::scanning::{blank_scan, FoundDevice, ScanningState, ScanningView};
use crate::utils::config::{find_assignments, find_rename};
use crate::utils::text::{text_of, texts, trim};

verus! {

/// Delay before a scan that the application starts, so that ports just
/// released are free again.
pub const SCAN_START_DELAY_MS: u64 = 500;

/// Period of the tick that takes in scan events.
pub const SCAN_TICK_MS: u64 = 50;

/// Period of the tick that takes in audio notifications.
pub const AUDIO_POLL_MS: u64 = 16;

/// Period of the full enumeration of the audio sessions.
pub const REFRESH_MS: u64 = 2000;

/// Period of the tick that takes in watchdog reports.
pub const WATCHDOG_TICK_MS: u64 = 500;

/// Period of the countdown to the automatic rescan after a device was lost.
pub const RETRY_TICK_MS: u64 = 1000;

/// Time after which a scan that found no device is tried again.
pub const NONE_FOUND_RETRY_MS: u64 = 3000;

/// What the ready screen holds: the devices, the sessions and what the
/// user is editing.
#[derive(Debug, PartialEq, Eq)]
pub struct ReadyState {
    pub devices: Vec<DeviceInfo>,
    /// The sessions by key; no key occurs twice.
    pub sessions: Vec<AudioSession>,
    pub current_view: page::View,
    /// One draft of a new name per device.
    pub rename_drafts: Vec<String>,
    /// Per device, whether its debug block is open.
    pub debug_open: Vec<bool>,
    pub output_devices: Vec<String>,
    pub current_output: Option<String>,
}

#[derive(Debug, PartialEq, Eq)]
pub enum AppScreen {
    Scanning(ScanningState),
    NoDevices(NoDevicesReason),
    Ready(ReadyState),
}

/// What is kept of the devices between runs, and the output devices of the
/// moment: the answer to `Effect::LoadDeviceState`.
#[derive(Debug, PartialEq, Eq)]
pub struct SavedDeviceState {
    /// User names by UUID text.
    pub renames: Vec<(String, String)>,
    /// Channel assignments by UUID text.
    pub assignments: Vec<(String, [String; 5])>,
    pub output_devices: Vec<String>,
    pub current_output: Option<String>,
}

#[derive(Debug, PartialEq, Eq)]
pub enum Message {
    ShowSessions,
    ShowSettings,
    ShowAbout,
    ShowDevices,
    /// The user set a session's volume, in ten-thousandths of full scale.
    VolumeChanged(String, u16),
    ToggleMute(String),
    RefreshSessions,
    /// A full enumeration of the sessions.
    SessionsUpdated(Vec<AudioSession>),
    /// The notifications that are waiting, oldest first.
    PollAudioReceiver(Vec<AudioUpdate>),
    StartScan,
    /// The scan events that are waiting, oldest first.
    ScanTick(Vec<ScanEvent>),
    /// The watchdog reports that are waiting, oldest first.
    WatchdogTick(Vec<ScanEvent>),
    RetryTick,
    DeviceRenameDraft(usize, String),
    DeviceRenameCommit(usize),
    DeviceToggleDebug(usize),
    DeviceDisconnect(usize),
    /// Device, channel and session key.
    DeviceChannelAssign(usize, usize, String),
    DeviceSync(usize),
    SelectOutput(String),
    /// The answer to `Effect::LoadDeviceState`.
    DeviceStateLoaded(SavedDeviceState),
}

/// What the caller of `VolumeApp::update` is to do, in the order given.
#[derive(Debug, PartialEq, Eq)]
pub enum Effect {
    /// Write the volume to the session of the operating system.
    SetVolume(String, u16),
    /// Write the mute state to the session of the operating system.
    SetMute(String, bool),
    /// Enumerate the sessions and hand the result in as
    /// `Message::SessionsUpdated`.
    RefreshSessions,
    /// Keep these notifications and hand them in again, before any newer
    /// one, with the next poll.
    RequeueUpdates(Vec<AudioUpdate>),
    /// Cancel the watchdog of the device on this port and close the port.
    ReleaseDevice(String),
    /// Discard the watchdog reports that are waiting.
    DrainWatchdogEvents,
    /// Start a scan after the delay; its events come in with `ScanTick`.
    StartScan { delay_ms: u64 },
    /// Forget the event queue of the scan.
    DropScan,
    /// Start a watchdog for the device on this port.
    StartWatchdog(String),
    /// Fetch the saved names and assignments and the output devices, and
    /// hand them in as `Message::DeviceStateLoaded`.
    LoadDeviceState,
    SaveRenames,
    SaveAssignments,
    /// Write both frames to the port, as one sequence under the port's lock.
    WriteChannel { port_name: String, name_frame: Vec<u8>, volume_frame: Vec<u8> },
}

/// The timers that a screen needs.
#[derive(Debug, Clone, Copy, PartialEq, Eq, Structural)]
pub enum TickKind {
    ScanTick,
    PollAudioReceiver,
    RefreshSessions,
    WatchdogTick,
    RetryTick,
}

/// A timer: what to send and how often.
#[derive(Debug, Clone, Copy, PartialEq, Eq, Structural)]
pub struct Tick {
    pub kind: TickKind,
    pub every_ms: u64,
}

/// The ready screen as a plain value.
pub struct ReadyView {
    pub devices: Seq<DeviceView>,
    pub sessions: Seq<AudioSession>,
    pub current_view: page::View,
    pub rename_drafts: Seq<Seq<char>>,
    pub debug_open: Seq<bool>,
    pub output_devices: Seq<Seq<char>>,
    pub current_output: Option<Seq<char>>,
}

/// The screen as a plain value.
pub enum ScreenView {
    Scanning(ScanningView),
    NoDevices(NoDevicesView),
    Ready(ReadyView),
}

/// An effect as a plain value.
pub enum EffectView {
    SetVolume(Seq<char>, u16),
    SetMute(Seq<char>, bool),
    RefreshSessions,
    RequeueUpdates(Seq<AudioUpdate>),
    ReleaseDevice(Seq<char>),
    DrainWatchdogEvents,
    StartScan { delay_ms: u64 },
    DropScan,
    StartWatchdog(Seq<char>),
    LoadDeviceState,
    SaveRenames,
    SaveAssignments,
    WriteChannel { port_name: Seq<char>, name_frame: Seq<u8>, volume_frame: Seq<u8> },
}

/// The application as a plain value.
pub struct AppView {
    pub screen: ScreenView,
    /// Whether a scan's event queue exists.
    pub scan_active: bool,
}

/// What a message leads to: the application afterwards and the effects.
pub struct Outcome {
    pub app: AppView,
    pub effects: Seq<EffectView>,
}

impl View for ReadyState {
    type V = ReadyView;

    open spec fn view(&self) -> ReadyView {
        ReadyView {
            devices: device_views(self.devices@),
            sessions: self.sessions@,
            current_view: self.current_view,
            rename_drafts: texts(self.rename_drafts@),
            debug_open: self.debug_open@,
            output_devices: texts(self.output_devices@),
            current_output: text_of(self.current_output),
        }
    }
}

impl View for AppScreen {
    type V = ScreenView;

    open spec fn view(&self) -> ScreenView {
        match *self {
            AppScreen::Scanning(state) => ScreenView::Scanning(state@),
            AppScreen::NoDevices(reason) => ScreenView::NoDevices(reason@),
            AppScreen::Ready(state) => ScreenView::Ready(state@),
        }
    }
}

impl View for Effect {
    type V = EffectView;

    open spec fn view(&self) -> EffectView {
        match *self {
            Effect::SetVolume(id, volume) => EffectView::SetVolume(id@, volume),
            Effect::SetMute(id, muted) => EffectView::SetMute(id@, muted),
            Effect::RefreshSessions => EffectView::RefreshSessions,
            Effect::RequeueUpdates(updates) => EffectView::RequeueUpdates(updates@),
            Effect::ReleaseDevice(port) => EffectView::ReleaseDevice(port@),
            Effect::DrainWatchdogEvents => EffectView::DrainWatchdogEvents,
            Effect::StartScan { delay_ms } => EffectView::StartScan { delay_ms },
            Effect::DropScan => EffectView::DropScan,
            Effect::StartWatchdog(port) => EffectView::StartWatchdog(port@),
            Effect::LoadDeviceState => EffectView::LoadDeviceState,
            Effect::SaveRenames => EffectView::SaveRenames,
            Effect::SaveAssignments => EffectView::SaveAssignments,
            Effect::WriteChannel { port_name, name_frame, volume_frame } => {
                EffectView::WriteChannel {
                    port_name: port_name@,
                    name_frame: name_frame@,
                    volume_frame: volume_frame@,
                }
            },
        }
    }
}

/// The effects of a list as plain values.
pub open spec fn effect_views(effects: Seq<Effect>) -> Seq<EffectView> {
    Seq::new(effects.len(), |i: int| effects[i]@)
}

/// Whether a ready screen is consistent: one draft and one debug flag per
/// device, five channels per device, and no session key twice.
pub open spec fn ready_wf(ready: ReadyView) -> bool {
    &&& ready.rename_drafts.len() == ready.devices.len()
    &&& ready.debug_open.len() == ready.devices.len()
    &&& forall|i: int|
        0 <= i < ready.devices.len() ==> (#[trigger] ready.devices[i]).channel_assignments.len()
            == 5
    &&& ids_distinct(ready.sessions)
}

/// Whether the application is consistent.
pub open spec fn app_wf(app: AppView) -> bool {
    app.screen matches ScreenView::Ready(ready) ==> ready_wf(ready)
}

/// The application: the screen it shows and whether a scan is under way.
#[derive(Debug)]
pub struct VolumeApp {
    screen: AppScreen,
    scan_active: bool,
}

impl View for VolumeApp {
    type V = AppView;

    closed spec fn view(&self) -> AppView {
        AppView { screen: self.screen@, scan_active: self.scan_active }
    }
}

/// The message that hands in the result of an enumeration: a failed
/// enumeration counts as one that lists no session.
pub fn sessions_message(result: Result<Vec<AudioSession>, AudioError>) -> (message: Message)
    ensures
        message matches Message::SessionsUpdated(sessions) && sessions@ == match result {
            Ok(listed) => listed@,
            Err(_) => Seq::empty(),
        },
{
    match result {
        Ok(sessions) => Message::SessionsUpdated(sessions),
        Err(_) => Message::SessionsUpdated(Vec::new()),
    }
}

/// The ready screen that a completed scan leads to.
pub fn ready_state(found: Vec<FoundDevice>, saved: SavedDeviceState) -> (ready: ReadyState)
    ensures
        ready@ == ready_from(found@, saved),
{
    let mut devices: Vec<DeviceInfo> = Vec::new();
    let mut rename_drafts: Vec<String> = Vec::new();
    let mut debug_open: Vec<bool> = Vec::new();
    let mut i: usize = 0;
    while i < found.len()
        invariant
            i <= found@.len(),
            devices@.len() == i,
            rename_drafts@.len() == i,
            debug_open@.len() == i,
            forall|k: int| 0 <= k < i ==> (#[trigger] devices@[k])@ == device_from(found@[k], saved),
            forall|k: int| 0 <= k < i ==> (#[trigger] rename_drafts@[k])@ == Seq::<char>::empty(),
            forall|k: int| 0 <= k < i ==> !(#[trigger] debug_open@[k]),
        decreases found@.len() - i,
    {
        let uuid = DeviceInfo::uuid_str(&found[i].uuid);
        let device = DeviceInfo {
            port_name: found[i].port_name.clone(),
            uuid: found[i].uuid,
            version: found[i].version,
            rename: find_rename(&saved.renames, &uuid),
            status: DeviceStatus::Connected,
            channel_assignments: find_assignments(&saved.assignments, &uuid),
        };
        devices.push(device);
        rename_drafts.push(String::new());
        debug_open.push(false);
        i += 1;
    }
    let ready = ReadyState {
        devices,
        sessions: Vec::new(),
        current_view: page::View::Sessions,
        rename_drafts,
        debug_open,
        output_devices: saved.output_devices,
        current_output: saved.current_output,
    };
    proof {
        let model = ready_from(found@, saved);
        assert(ready@.devices =~= model.devices);
        assert(ready@.rename_drafts =~= model.rename_drafts);
        assert(ready@.debug_open =~= model.debug_open);
    }
    ready
}

impl ReadyState {
    /// The writes that bring the displays of a device up to date.
    fn sync_effects(&self, device: usize) -> (effects: Vec<Effect>)
        requires
            device < self.devices@.len(),
        ensures
            effect_views(effects@) == Seq::new(
                5,
                |channel: int| channel_write(self@.devices[device as int], self@.sessions, channel),
            ),
    {
        let mut effects: Vec<Effect> = Vec::new();
        let mut channel: usize = 0;
        while channel < 5
            invariant
                channel <= 5,
                device < self.devices@.len(),
                effects@.len() == channel,
                forall|k: int|
                    0 <= k < channel ==> (#[trigger] effects@[k])@ == channel_write(
                        self@.devices[device as int],
                        self@.sessions,
                        k,
                    ),
            decreases 5 - channel,
        {
            let dev = &self.devices[device];
            let key = &dev.channel_assignments[channel];
            proof {
                lemma_lookup(self.sessions@, key@);
            }
            let volume: u8 = if key.as_str().is_empty() {
                0
            } else {
                match find_session(&self.sessions, key) {
                    Some(i) => self.sessions[i].volume_percent(),
                    None => 0,
                }
            };
            let name_frame = DisplayUpdateAppCommand::new(channel as u8, key.as_str()).to_bytes();
            let volume_frame = DisplayUpdateVolumeCommand::new(channel as u8, volume).to_bytes();
            let effect = Effect::WriteChannel {
                port_name: dev.port_name.clone(),
                name_frame,
                volume_frame,
            };
            effects.push(effect);
            channel += 1;
        }
        effects
    }
}

impl VolumeApp {
    /// Whether the application is consistent. Every application that `new`
    /// gives is, and `update` keeps it so.
    pub open spec fn wf(&self) -> bool {
        app_wf(self@)
    }

    /// The application at its start, on the scanning screen without a scan,
    /// and the message that starts the first scan.
    pub fn new() -> (started: (Self, Message))
        ensures
            started.0@ == (AppView {
                screen: ScreenView::Scanning(blank_scan()),
                scan_active: false,
            }),
            started.0.wf(),
            started.1 is StartScan,
    {
        let app = VolumeApp {
            screen: AppScreen::Scanning(ScanningState::default()),
            scan_active: false,
        };
        (app, Message::StartScan)
    }

    /// The screen, for rendering.
    pub fn screen(&self) -> (screen: &AppScreen)
        ensures
            screen@ == self@.screen,
    {
        &self.screen
    }

    /// Whether a scan's event queue exists.
    pub fn scan_active(&self) -> (active: bool)
        ensures
            active == self@.scan_active,
    {
        self.scan_active
    }

    /// The timers that the screen needs.
    pub fn subscription(&self) -> (ticks: Vec<Tick>)
        ensures
            ticks@ == ticks_of(self@.screen),
    {
        let mut ticks: Vec<Tick> = Vec::new();
        match &self.screen {
            AppScreen::Scanning(_) => {
                ticks.push(Tick { kind: TickKind::ScanTick, every_ms: SCAN_TICK_MS });
            },
            AppScreen::Ready(_) => {
                ticks.push(Tick { kind: TickKind::PollAudioReceiver, every_ms: AUDIO_POLL_MS });
                ticks.push(Tick { kind: TickKind::RefreshSessions, every_ms: REFRESH_MS });
                ticks.push(Tick { kind: TickKind::WatchdogTick, every_ms: WATCHDOG_TICK_MS });
            },
            AppScreen::NoDevices(NoDevicesReason::Lost { .. }) => {
                ticks.push(Tick { kind: TickKind::RetryTick, every_ms: RETRY_TICK_MS });
            },
            AppScreen::NoDevices(NoDevicesReason::NoneFound) => {
                ticks.push(Tick { kind: TickKind::RetryTick, every_ms: NONE_FOUND_RETRY_MS });
            },
        }
        ticks
    }

    fn show_page(&mut self, page: page::View)
        ensures
            quiet(final(self)@) == show(old(self)@, page),
    {
        if let AppScreen::Ready(ready) = &mut self.screen {
            ready.current_view = page;
        }
    }

    fn volume_changed(&mut self, id: String, volume: u16, now: Millis) -> (effects: Vec<Effect>)
        ensures
            (Outcome { app: final(self)@, effects: effect_views(effects@) }) == on_volume_changed(
                old(self)@,
                id@,
                volume,
                now,
            ),
    {
        let mut effects: Vec<Effect> = Vec::new();
        if let AppScreen::Ready(ready) = &mut self.screen {
            if set_local_volume(&mut ready.sessions, &id, volume, now) {
                effects.push(Effect::SetVolume(id, volume));
            }
        }
        assert(effect_views(effects@) =~= on_volume_changed(old(self)@, id@, volume, now).effects);
        effects
    }

    fn toggle_mute(&mut self, id: String, now: Millis) -> (effects: Vec<Effect>)
        ensures
            (Outcome { app: final(self)@, effects: effect_views(effects@) }) == on_toggle_mute(
                old(self)@,
                id@,
                now,
            ),
    {
        let mut effects: Vec<Effect> = Vec::new();
        if let AppScreen::Ready(ready) = &mut self.screen {
            if let Some(muted) = toggle_local_mute(&mut ready.sessions, &id, now) {
                effects.push(Effect::SetMute(id, muted));
            }
        }
        assert(effect_views(effects@) =~= on_toggle_mute(old(self)@, id@, now).effects);
        effects
    }

    fn sessions_updated(&mut self, snapshot: Vec<AudioSession>, now: Millis)
        ensures
            quiet(final(self)@) == on_sessions_updated(old(self)@, snapshot@, now),
    {
        if let AppScreen::Ready(ready) = &mut self.screen {
            apply_snapshot(&mut ready.sessions, &snapshot, now);
        }
    }

    fn poll_audio(&mut self, updates: Vec<AudioUpdate>, now: Millis) -> (effects: Vec<Effect>)
        ensures
            (Outcome { app: final(self)@, effects: effect_views(effects@) }) == on_poll(
                old(self)@,
                updates@,
                now,
            ),
    {
        let mut effects: Vec<Effect> = Vec::new();
        let mut updates = updates;
        let ghost all = updates@;
        match &mut self.screen {
            AppScreen::Ready(ready) => {
                match find_refresh(&updates) {
                    Some(k) => {
                        if let AudioUpdate::DefaultDeviceChanged(name) = &updates[k] {
                            ready.current_output = Some(name.clone());
                        }
                        effects.push(Effect::RefreshSessions);
                        let total = updates.len();
                        if k + 1 < total {
                            let rest = updates.split_off(k + 1);
                            effects.push(Effect::RequeueUpdates(rest));
                        }
                    },
                    None => {
                        apply_notifications(&mut ready.sessions, &updates, now);
                    },
                }
            },
            _ => {
                if updates.len() > 0 {
                    assert(updates@ =~= all.skip(0));
                    effects.push(Effect::RequeueUpdates(updates));
                }
            },
        }
        assert(effect_views(effects@) =~= on_poll(old(self)@, all, now).effects);
        effects
    }

    /// The releases of all ports that the screen holds.
    fn release_effects(&self) -> (effects: Vec<Effect>)
        ensures
            effect_views(effects@) == release_all(self@.screen),
    {
        let mut effects: Vec<Effect> = Vec::new();
        let ghost ports = held_ports(self@.screen);
        match &self.screen {
            AppScreen::Ready(ready) => {
                let mut i: usize = 0;
                while i < ready.devices.len()
                    invariant
                        i <= ready.devices@.len(),
                        ports == held_ports(ScreenView::Ready(ready@)),
                        effect_views(effects@) == releases(ports).take(i as int),
                    decreases ready.devices@.len() - i,
                {
                    let ghost before = effect_views(effects@);
                    let release = Effect::ReleaseDevice(ready.devices[i].port_name.clone());
                    effects.push(release);
                    assert(effect_views(effects@) =~= before.push(release@));
                    i += 1;
                }
            },
            AppScreen::Scanning(scan) => {
                let mut i: usize = 0;
                while i < scan.found_devices.len()
                    invariant
                        i <= scan.found_devices@.len(),
                        ports == held_ports(ScreenView::Scanning(scan@)),
                        effect_views(effects@) == releases(ports).take(i as int),
                    decreases scan.found_devices@.len() - i,
                {
                    let ghost before = effect_views(effects@);
                    let release = Effect::ReleaseDevice(scan.found_devices[i].port_name.clone());
                    effects.push(release);
                    assert(effect_views(effects@) =~= before.push(release@));
                    i += 1;
                }
            },
            AppScreen::NoDevices(_) => {},
        }
        effects
    }

    fn start_scan(&mut self) -> (effects: Vec<Effect>)
        ensures
            (Outcome { app: final(self)@, effects: effect_views(effects@) }) == on_start_scan(
                old(self)@,
            ),
    {
        let mut effects = self.release_effects();
        let ghost released = effect_views(effects@);
        self.screen = AppScreen::Scanning(ScanningState::default());
        self.scan_active = true;
        effects.push(Effect::DrainWatchdogEvents);
        effects.push(Effect::StartScan { delay_ms: SCAN_START_DELAY_MS });
        assert(effect_views(effects@) =~= released + seq![
            EffectView::DrainWatchdogEvents,
            EffectView::StartScan { delay_ms: 500 },
        ]);
        effects
    }

    fn handle_scan_event(&mut self, event: &ScanEvent) -> (effects: Vec<Effect>)
        ensures
            (Outcome { app: final(self)@, effects: effect_views(effects@) }) == on_scan_event(
                old(self)@,
                *event,
            ),
    {
        let mut effects: Vec<Effect> = Vec::new();
        match event {
            ScanEvent::Started { total_ports } => {
                if let AppScreen::Scanning(scan) = &mut self.screen {
                    scan.note_started(*total_ports);
                }
            },
            ScanEvent::CheckingPort { name, index, total } => {
                if let AppScreen::Scanning(scan) = &mut self.screen {
                    scan.note_checking(name, *index, *total);
                }
            },
            ScanEvent::PortFailed { name, reason } => {
                if let AppScreen::Scanning(scan) = &mut self.screen {
                    scan.note_failed(name, reason);
                }
            },
            ScanEvent::DeviceFound { port_name, uuid, version } => {
                if let AppScreen::Scanning(scan) = &mut self.screen {
                    scan.note_found(
                        FoundDevice { port_name: port_name.clone(), uuid: *uuid, version: *version },
                    );
                    effects.push(Effect::StartWatchdog(port_name.clone()));
                } else {
                    effects.push(Effect::ReleaseDevice(port_name.clone()));
                }
            },
            ScanEvent::ScanComplete { found } => {
                self.scan_active = false;
                if *found == 0 {
                    effects = self.release_effects();
                    self.screen = AppScreen::NoDevices(NoDevicesReason::NoneFound);
                    effects.push(Effect::DropScan);
                } else {
                    if let AppScreen::Scanning(scan) = &mut self.screen {
                        scan.note_completed();
                    } else {
                        effects = self.release_effects();
                        let mut scan = ScanningState::default();
                        scan.note_completed();
                        self.screen = AppScreen::Scanning(scan);
                    }
                    effects.push(Effect::DropScan);
                    effects.push(Effect::LoadDeviceState);
                }
            },
            ScanEvent::ScanFailed(_) => {
                self.scan_active = false;
                effects = self.release_effects();
                self.screen = AppScreen::NoDevices(NoDevicesReason::NoneFound);
                effects.push(Effect::DropScan);
            },
            ScanEvent::DeviceLost { port_name } => {
                effects = self.release_effects();
                self.screen = AppScreen::NoDevices(
                    NoDevicesReason::Lost {
                        port_name: port_name.clone(),
                        retry_in_secs: crate::comms::scanner::RESCAN_DELAY_SECS,
                    },
                );
            },
        }
        assert(effect_views(effects@) =~= on_scan_event(old(self)@, *event).effects);
        effects
    }

    fn scan_tick(&mut self, events: Vec<ScanEvent>) -> (effects: Vec<Effect>)
        ensures
            (Outcome { app: final(self)@, effects: effect_views(effects@) }) == on_scan_tick(
                old(self)@,
                events@,
            ),
    {
        let mut effects: Vec<Effect> = Vec::new();
        if !self.scan_active {
            let mut k: usize = 0;
            while k < events.len()
                invariant
                    k <= events@.len(),
                    effect_views(effects@) == releases(found_ports(events@.take(k as int))),
                decreases events@.len() - k,
            {
                proof {
                    assert(events@.take(k + 1).drop_last() =~= events@.take(k as int));
                }
                let ghost before = effect_views(effects@);
                if let ScanEvent::DeviceFound { port_name, .. } = &events[k] {
                    effects.push(Effect::ReleaseDevice(port_name.clone()));
                    assert(effect_views(effects@) =~= before.push(
                        EffectView::ReleaseDevice(port_name@),
                    ));
                }
                k += 1;
            }
            assert(events@.take(k as int) =~= events@);
            return effects;
        }
        let mut i: usize = 0;
        assert(effect_views(effects@) =~= Seq::empty());
        while i < events.len()
            invariant
                i <= events@.len(),
                (Outcome { app: self@, effects: effect_views(effects@) }) == on_scan_events(
                    old(self)@,
                    events@.take(i as int),
                ),
            decreases events@.len() - i,
        {
            let ghost before = effect_views(effects@);
            let mut more = self.handle_scan_event(&events[i]);
            let ghost added = effect_views(more@);
            effects.append(&mut more);
            proof {
                assert(events@.take(i + 1).drop_last() =~= events@.take(i as int));
                assert(effect_views(effects@) =~= before + added);
            }
            i += 1;
        }
        assert(events@.take(i as int) =~= events@);
        effects
    }

    fn watchdog_tick(&mut self, events: Vec<ScanEvent>) -> (effects: Vec<Effect>)
        ensures
            (Outcome { app: final(self)@, effects: effect_views(effects@) }) == on_watchdog_tick(
                old(self)@,
                events@,
            ),
    {
        let mut effects: Vec<Effect> = Vec::new();
        assert(effect_views(effects@) =~= Seq::empty());
        if let AppScreen::NoDevices(_) = &self.screen {
            return effects;
        }
        let mut lost: Option<String> = None;
        let mut i: usize = 0;
        while i < events.len()
            invariant
                i <= events@.len(),
                lost == last_lost(events@.take(i as int)),
            decreases events@.len() - i,
        {
            proof {
                assert(events@.take(i + 1).drop_last() =~= events@.take(i as int));
            }
            if let ScanEvent::DeviceLost { port_name } = &events[i] {
                lost = Some(port_name.clone());
            }
            i += 1;
        }
        assert(events@.take(i as int) =~= events@);
        if let Some(port_name) = lost {
            effects = self.release_effects();
            let ghost released = effect_views(effects@);
            self.screen = AppScreen::NoDevices(
                NoDevicesReason::Lost {
                    port_name,
                    retry_in_secs: crate::comms::scanner::RESCAN_DELAY_SECS,
                },
            );
            self.scan_active = false;
            effects.push(Effect::DropScan);
            assert(effect_views(effects@) =~= released + seq![EffectView::DropScan]);
        }
        effects
    }

    fn retry_tick(&mut self) -> (effects: Vec<Effect>)
        ensures
            (Outcome { app: final(self)@, effects: effect_views(effects@) }) == on_retry_tick(
                old(self)@,
            ),
    {
        let mut rescan = false;
        match &mut self.screen {
            AppScreen::NoDevices(NoDevicesReason::NoneFound) => {
                rescan = true;
            },
            AppScreen::NoDevices(NoDevicesReason::Lost { retry_in_secs, .. }) => {
                if *retry_in_secs > 1 {
                    *retry_in_secs = *retry_in_secs - 1;
                } else {
                    rescan = true;
                }
            },
            _ => {},
        }
        if rescan {
            self.start_scan()
        } else {
            let effects: Vec<Effect> = Vec::new();
            assert(effect_views(effects@) =~= Seq::empty());
            effects
        }
    }

    fn rename_draft(&mut self, device: usize, draft: String)
        ensures
            quiet(final(self)@) == on_rename_draft(old(self)@, device, draft@),
    {
        if let AppScreen::Ready(ready) = &mut self.screen {
            if device < ready.rename_drafts.len() {
                ready.rename_drafts[device] = draft;
                assert(texts(ready.rename_drafts@) =~= old(self)@.screen->Ready_0.rename_drafts.update(
                    device as int,
                    draft@,
                ));
            }
        }
    }

    fn rename_commit(&mut self, device: usize) -> (effects: Vec<Effect>)
        ensures
            (Outcome { app: final(self)@, effects: effect_views(effects@) }) == on_rename_commit(
                old(self)@,
                device,
            ),
    {
        let mut effects: Vec<Effect> = Vec::new();
        if let AppScreen::Ready(ready) = &mut self.screen {
            if device < ready.devices.len() && device < ready.rename_drafts.len() {
                let name = trim(ready.rename_drafts[device].as_str());
                let ghost before = device_views(ready.devices@);
                ready.devices[device].commit_rename(name);
                assert(device_views(ready.devices@) =~= before.update(
                    device as int,
                    renamed(before[device as int], name@),
                ));
                effects.push(Effect::SaveRenames);
            }
        }
        assert(effect_views(effects@) =~= on_rename_commit(old(self)@, device).effects);
        effects
    }

    fn toggle_debug(&mut self, device: usize)
        ensures
            quiet(final(self)@) == on_toggle_debug(old(self)@, device),
    {
        if let AppScreen::Ready(ready) = &mut self.screen {
            if device < ready.debug_open.len() {
                let open = ready.debug_open[device];
                ready.debug_open[device] = !open;
            }
        }
    }

    fn select_output(&mut self, name: String) -> (effects: Vec<Effect>)
        ensures
            (Outcome { app: final(self)@, effects: effect_views(effects@) }) == on_select_output(
                old(self)@,
                name@,
            ),
    {
        if let AppScreen::Ready(ready) = &mut self.screen {
            ready.current_output = Some(name);
        }
        let mut effects: Vec<Effect> = Vec::new();
        effects.push(Effect::RefreshSessions);
        assert(effect_views(effects@) =~= seq![EffectView::RefreshSessions]);
        effects
    }

    fn channel_assign(&mut self, device: usize, channel: usize, session: String) -> (effects: Vec<
        Effect,
    >)
        ensures
            (Outcome { app: final(self)@, effects: effect_views(effects@) }) == on_channel_assign(
                old(self)@,
                device,
                channel,
                session@,
            ),
    {
        let mut effects: Vec<Effect> = Vec::new();
        if let AppScreen::Ready(ready) = &mut self.screen {
            if device < ready.devices.len() && channel < 5 {
                let ghost before = device_views(ready.devices@);
                ready.devices[device].assign_channel(channel, session);
                assert(device_views(ready.devices@) =~= before.update(
                    device as int,
                    assigned(before[device as int], channel as int, session@),
                ));
                effects.push(Effect::SaveAssignments);
            }
        }
        assert(effect_views(effects@) =~= on_channel_assign(
            old(self)@,
            device,
            channel,
            session@,
        ).effects);
        effects
    }

    fn device_sync(&self, device: usize) -> (effects: Vec<Effect>)
        ensures
            (Outcome { app: self@, effects: effect_views(effects@) }) == on_device_sync(
                self@,
                device,
            ),
    {
        if let AppScreen::Ready(ready) = &self.screen {
            if device < ready.devices.len() {
                return ready.sync_effects(device);
            }
        }
        let effects: Vec<Effect> = Vec::new();
        assert(effect_views(effects@) =~= Seq::empty());
        effects
    }

    fn disconnect(&mut self, device: usize) -> (effects: Vec<Effect>)
        ensures
            (Outcome { app: final(self)@, effects: effect_views(effects@) }) == on_disconnect(
                old(self)@,
                device,
            ),
    {
        let mut effects: Vec<Effect> = Vec::new();
        let mut none_left = false;
        if let AppScreen::Ready(ready) = &mut self.screen {
            if device < ready.devices.len() && device < ready.rename_drafts.len() && device
                < ready.debug_open.len() {
                let ghost before = ready@;
                let gone = ready.devices.remove(device);
                ready.rename_drafts.remove(device);
                ready.debug_open.remove(device);
                assert(ready@.devices =~= before.devices.remove(device as int));
                assert(ready@.rename_drafts =~= before.rename_drafts.remove(device as int));
                effects.push(Effect::ReleaseDevice(gone.port_name));
            }
            none_left = ready.devices.len() == 0;
        }
        if none_left {
            self.screen = AppScreen::NoDevices(NoDevicesReason::NoneFound);
        }
        assert(effect_views(effects@) =~= on_disconnect(old(self)@, device).effects);
        effects
    }

    fn device_state_loaded(&mut self, saved: SavedDeviceState)
        ensures
            quiet(final(self)@) == on_device_state_loaded(old(self)@, saved),
    {
        let mut screen = AppScreen::NoDevices(NoDevicesReason::NoneFound);
        std::mem::swap(&mut self.screen, &mut screen);
        match screen {
            AppScreen::Scanning(scan) => {
                if scan.complete {
                    self.screen = AppScreen::Ready(ready_state(scan.found_devices, saved));
                } else {
                    self.screen = AppScreen::Scanning(scan);
                }
            },
            other => {
                self.screen = other;
            },
        }
    }

    /// Takes a message in at time `now` and gives the effects to perform,
    /// in order.
    pub fn update(&mut self, message: Message, now: Millis) -> (effects: Vec<Effect>)
        requires
            old(self).wf(),
        ensures
            final(self).wf(),
            (Outcome { app: final(self)@, effects: effect_views(effects@) }) == step(
                old(self)@,
                message,
                now,
            ),
    {
        let mut effects: Vec<Effect> = Vec::new();
        assert(effect_views(effects@) =~= Seq::empty());
        match message {
            Message::ShowSessions => self.show_page(page::View::Sessions),
            Message::ShowSettings => self.show_page(page::View::Settings),
            Message::ShowAbout => self.show_page(page::View::About),
            Message::ShowDevices => self.show_page(page::View::Devices),
            Message::VolumeChanged(id, volume) => {
                effects = self.volume_changed(id, volume, now);
            },
            Message::ToggleMute(id) => {
                effects = self.toggle_mute(id, now);
            },
            Message::RefreshSessions => {
                effects.push(Effect::RefreshSessions);
                assert(effect_views(effects@) =~= seq![EffectView::RefreshSessions]);
            },
            Message::SessionsUpdated(snapshot) => self.sessions_updated(snapshot, now),
            Message::PollAudioReceiver(updates) => {
                effects = self.poll_audio(updates, now);
            },
            Message::StartScan => {
                effects = self.start_scan();
            },
            Message::ScanTick(events) => {
                effects = self.scan_tick(events);
            },
            Message::WatchdogTick(events) => {
                effects = self.watchdog_tick(events);
            },
            Message::RetryTick => {
                effects = self.retry_tick();
            },
            Message::DeviceRenameDraft(device, draft) => self.rename_draft(device, draft),
            Message::DeviceRenameCommit(device) => {
                effects = self.rename_commit(device);
            },
            Message::DeviceToggleDebug(device) => self.toggle_debug(device),
            Message::DeviceDisconnect(device) => {
                effects = self.disconnect(device);
            },
            Message::DeviceChannelAssign(device, channel, session) => {
                effects = self.channel_assign(device, channel, session);
            },
            Message::DeviceSync(device) => {
                effects = self.device_sync(device);
            },
            Message::SelectOutput(name) => {
                effects = self.select_output(name);
            },
            Message::DeviceStateLoaded(saved) => self.device_state_loaded(saved),
        }
        proof {
            lemma_step_keeps_wf(old(self)@, message, now);
        }
        effects
    }
}

} // verus!
