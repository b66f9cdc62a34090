//! What every message leads to: the application as a function of the
//! application before, the message and the time.

use vstd::prelude::*;
use vstd::utf8::encode_utf8;

use crate::audio::backend::AudioUpdate;
use crate::audio::reconcile::{
    after_notifications, after_snapshot, first_refresh, has_id, local_mute_toggled,
    local_volume_written, lookup,
};
use crate::audio::session::{percent_of_volume, AudioSession, Millis};
use crate::comms::device_info::{assigned, renamed, uuid_text, DeviceStatus, DeviceView};
use crate::comms::protocol::{
    clamp_volume, name_buffer, CMD_DISPLAY_UPDATE_APP_NAME, CMD_DISPLAY_UPDATE_APP_VOLUME,
};
use crate::comms::scanner::ScanEvent;
use crate::ui::app::{
    AppView, EffectView, Message, Outcome, ReadyView, SavedDeviceState, ScreenView, Tick,
    TickKind,
};
use crate::ui::page;
use crate::ui::views::no_devices::NoDevicesView;
use crate::ui::views::scanning::{
    after_checking, after_completed, after_failed, after_found, after_started, blank_scan,
    FoundDevice,
};
use crate::utils::config::{assignment_views, rename_for, rename_views, slots_for};
use crate::utils::text::{text_of, texts, trimmed};

verus! {

/// An outcome without effects.
pub open spec fn quiet(app: AppView) -> Outcome {
    Outcome { app, effects: Seq::empty() }
}

/// The outcome of a change to the ready screen; on another screen nothing
/// happens.
pub open spec fn show(app: AppView, page: page::View) -> Outcome {
    match app.screen {
        ScreenView::Ready(ready) => quiet(
            AppView { screen: ScreenView::Ready(ReadyView { current_view: page, ..ready }), ..app },
        ),
        _ => quiet(app),
    }
}

/// The user set the volume of a session: the session takes it with the
/// moment of the write, and the volume is written through.
pub open spec fn on_volume_changed(app: AppView, id: Seq<char>, volume: u16, now: Millis) -> Outcome {
    match app.screen {
        ScreenView::Ready(ready) => Outcome {
            app: AppView {
                screen: ScreenView::Ready(
                    ReadyView {
                        sessions: local_volume_written(ready.sessions, id, volume, now),
                        ..ready
                    },
                ),
                ..app
            },
            effects: if has_id(ready.sessions, id) {
                seq![EffectView::SetVolume(id, volume)]
            } else {
                Seq::empty()
            },
        },
        _ => quiet(app),
    }
}

/// The user toggled the mute state of a session.
pub open spec fn on_toggle_mute(app: AppView, id: Seq<char>, now: Millis) -> Outcome {
    match app.screen {
        ScreenView::Ready(ready) => Outcome {
            app: AppView {
                screen: ScreenView::Ready(
                    ReadyView { sessions: local_mute_toggled(ready.sessions, id, now), ..ready },
                ),
                ..app
            },
            effects: match lookup(ready.sessions, id) {
                Some(i) => seq![EffectView::SetMute(id, !ready.sessions[i].is_muted)],
                None => Seq::empty(),
            },
        },
        _ => quiet(app),
    }
}

/// A full enumeration arrived.
pub open spec fn on_sessions_updated(app: AppView, snapshot: Seq<AudioSession>, now: Millis) -> Outcome {
    match app.screen {
        ScreenView::Ready(ready) => quiet(
            AppView {
                screen: ScreenView::Ready(
                    ReadyView { sessions: after_snapshot(ready.sessions, snapshot, now), ..ready },
                ),
                ..app
            },
        ),
        _ => quiet(app),
    }
}

/// The effect that hands back the notifications from `from` on, if any.
pub open spec fn requeue(updates: Seq<AudioUpdate>, from: int) -> Seq<EffectView> {
    if from < updates.len() {
        seq![EffectView::RequeueUpdates(updates.skip(from))]
    } else {
        Seq::empty()
    }
}

/// The notifications that are waiting were handed in. Up to the first one
/// that asks for a new enumeration they are read; that one, if there is one,
/// drops what was read before it, sets the output device if it names one,
/// and asks for the enumeration; the rest waits for the next poll. On
/// another screen than the ready one all of them wait.
pub open spec fn on_poll(app: AppView, updates: Seq<AudioUpdate>, now: Millis) -> Outcome {
    match app.screen {
        ScreenView::Ready(ready) => match first_refresh(updates) {
            Some(k) => Outcome {
                app: AppView {
                    screen: ScreenView::Ready(
                        ReadyView {
                            current_output: match updates[k] {
                                AudioUpdate::DefaultDeviceChanged(name) => Some(name@),
                                _ => ready.current_output,
                            },
                            ..ready
                        },
                    ),
                    ..app
                },
                effects: seq![EffectView::RefreshSessions] + requeue(updates, k + 1),
            },
            None => quiet(
                AppView {
                    screen: ScreenView::Ready(
                        ReadyView {
                            sessions: after_notifications(ready.sessions, updates, now),
                            ..ready
                        },
                    ),
                    ..app
                },
            ),
        },
        _ => Outcome { app, effects: requeue(updates, 0) },
    }
}

/// The ports that a screen holds open: those of its devices on the ready
/// screen, those of the devices found so far while a scan runs, and none
/// while no device is connected.
pub open spec fn held_ports(screen: ScreenView) -> Seq<Seq<char>> {
    match screen {
        ScreenView::Ready(ready) => Seq::new(
            ready.devices.len(),
            |i: int| ready.devices[i].port_name,
        ),
        ScreenView::Scanning(scan) => Seq::new(
            scan.found_devices.len(),
            |i: int| scan.found_devices[i].port_name@,
        ),
        ScreenView::NoDevices(_) => Seq::empty(),
    }
}

/// The releases of these ports, in order.
pub open spec fn releases(ports: Seq<Seq<char>>) -> Seq<EffectView> {
    Seq::new(ports.len(), |i: int| EffectView::ReleaseDevice(ports[i]))
}

/// The releases of all ports that a screen holds.
pub open spec fn release_all(screen: ScreenView) -> Seq<EffectView> {
    releases(held_ports(screen))
}

/// A scan starts: every port held is released, the watchdog reports that
/// wait are discarded, and the scan is started after its delay.
pub open spec fn on_start_scan(app: AppView) -> Outcome {
    Outcome {
        app: AppView { screen: ScreenView::Scanning(blank_scan()), scan_active: true },
        effects: release_all(app.screen) + seq![
            EffectView::DrainWatchdogEvents,
            EffectView::StartScan { delay_ms: 500 },
        ],
    }
}

/// The screen that shows that a device was lost.
pub open spec fn lost_screen(port_name: Seq<char>) -> ScreenView {
    ScreenView::NoDevices(NoDevicesView::Lost { port_name, retry_in_secs: 3 })
}

/// One event of a scan. A device that is found joins the scan's devices and
/// gets its watchdog; found at another time it is released at once. Where
/// the scan ends without a ready screen to follow, or a device is reported
/// lost, every port held is released.
pub open spec fn on_scan_event(app: AppView, event: ScanEvent) -> Outcome {
    match event {
        ScanEvent::Started { total_ports } => match app.screen {
            ScreenView::Scanning(scan) => quiet(
                AppView { screen: ScreenView::Scanning(after_started(scan, total_ports)), ..app },
            ),
            _ => quiet(app),
        },
        ScanEvent::CheckingPort { name, index, total } => match app.screen {
            ScreenView::Scanning(scan) => quiet(
                AppView {
                    screen: ScreenView::Scanning(after_checking(scan, name@, index, total)),
                    ..app
                },
            ),
            _ => quiet(app),
        },
        ScanEvent::PortFailed { name, reason } => match app.screen {
            ScreenView::Scanning(scan) => quiet(
                AppView { screen: ScreenView::Scanning(after_failed(scan, name@, reason@)), ..app },
            ),
            _ => quiet(app),
        },
        ScanEvent::DeviceFound { port_name, uuid, version } => match app.screen {
            ScreenView::Scanning(scan) => Outcome {
                app: AppView {
                    screen: ScreenView::Scanning(
                        after_found(scan, FoundDevice { port_name, uuid, version }),
                    ),
                    ..app
                },
                effects: seq![EffectView::StartWatchdog(port_name@)],
            },
            _ => Outcome { app, effects: seq![EffectView::ReleaseDevice(port_name@)] },
        },
        ScanEvent::ScanComplete { found } => if found == 0 {
            Outcome {
                app: AppView {
                    screen: ScreenView::NoDevices(NoDevicesView::NoneFound),
                    scan_active: false,
                },
                effects: release_all(app.screen) + seq![EffectView::DropScan],
            }
        } else {
            match app.screen {
                ScreenView::Scanning(scan) => Outcome {
                    app: AppView {
                        screen: ScreenView::Scanning(after_completed(scan)),
                        scan_active: false,
                    },
                    effects: seq![EffectView::DropScan, EffectView::LoadDeviceState],
                },
                _ => Outcome {
                    app: AppView {
                        screen: ScreenView::Scanning(after_completed(blank_scan())),
                        scan_active: false,
                    },
                    effects: release_all(app.screen) + seq![
                        EffectView::DropScan,
                        EffectView::LoadDeviceState,
                    ],
                },
            }
        },
        ScanEvent::ScanFailed(_) => Outcome {
            app: AppView {
                screen: ScreenView::NoDevices(NoDevicesView::NoneFound),
                scan_active: false,
            },
            effects: release_all(app.screen) + seq![EffectView::DropScan],
        },
        ScanEvent::DeviceLost { port_name } => Outcome {
            app: AppView { screen: lost_screen(port_name@), ..app },
            effects: release_all(app.screen),
        },
    }
}

/// The events of a scan, taken in order.
pub open spec fn on_scan_events(app: AppView, events: Seq<ScanEvent>) -> Outcome
    decreases events.len(),
{
    if events.len() == 0 {
        quiet(app)
    } else {
        let before = on_scan_events(app, events.drop_last());
        let last = on_scan_event(before.app, events.last());
        Outcome { app: last.app, effects: before.effects + last.effects }
    }
}

/// The ports of the devices that the events report as found, in order.
pub open spec fn found_ports(events: Seq<ScanEvent>) -> Seq<Seq<char>>
    decreases events.len(),
{
    if events.len() == 0 {
        Seq::empty()
    } else {
        let before = found_ports(events.drop_last());
        match events.last() {
            ScanEvent::DeviceFound { port_name, .. } => before.push(port_name@),
            _ => before,
        }
    }
}

/// The scan events that are waiting were handed in. Without a scan's queue
/// they are not read; devices that they report as found are released.
pub open spec fn on_scan_tick(app: AppView, events: Seq<ScanEvent>) -> Outcome {
    if app.scan_active {
        on_scan_events(app, events)
    } else {
        Outcome { app, effects: releases(found_ports(events)) }
    }
}

/// The port of the last report of a loss among the events.
pub open spec fn last_lost(events: Seq<ScanEvent>) -> Option<String>
    decreases events.len(),
{
    if events.len() == 0 {
        None
    } else {
        match events.last() {
            ScanEvent::DeviceLost { port_name } => Some(port_name),
            _ => last_lost(events.drop_last()),
        }
    }
}

/// The watchdog reports that are waiting were handed in. While no device is
/// connected they change nothing; else the last loss among them takes the
/// application to the screen of the lost device, releases every port held
/// and ends the scan, if one is running.
pub open spec fn on_watchdog_tick(app: AppView, events: Seq<ScanEvent>) -> Outcome {
    if app.screen is NoDevices {
        quiet(app)
    } else {
        match last_lost(events) {
            Some(port_name) => Outcome {
                app: AppView { screen: lost_screen(port_name@), scan_active: false },
                effects: release_all(app.screen) + seq![EffectView::DropScan],
            },
            None => quiet(app),
        }
    }
}

/// The retry timer ticked. After a scan that found nothing the timer's
/// period is the whole wait, and the tick starts the next scan. After the
/// loss of a device the tick counts a second down, and the last second
/// starts the scan. On any other screen nothing happens.
pub open spec fn on_retry_tick(app: AppView) -> Outcome {
    match app.screen {
        ScreenView::NoDevices(NoDevicesView::NoneFound) => on_start_scan(app),
        ScreenView::NoDevices(NoDevicesView::Lost { port_name, retry_in_secs }) => {
            if retry_in_secs > 1 {
                quiet(
                    AppView {
                        screen: ScreenView::NoDevices(
                            NoDevicesView::Lost {
                                port_name,
                                retry_in_secs: (retry_in_secs - 1) as u64,
                            },
                        ),
                        ..app
                    },
                )
            } else {
                on_start_scan(app)
            }
        },
        _ => quiet(app),
    }
}

/// The user typed into the name field of a device.
pub open spec fn on_rename_draft(app: AppView, device: usize, draft: Seq<char>) -> Outcome {
    match app.screen {
        ScreenView::Ready(ready) if device < ready.rename_drafts.len() => quiet(
            AppView {
                screen: ScreenView::Ready(
                    ReadyView {
                        rename_drafts: ready.rename_drafts.update(device as int, draft),
                        ..ready
                    },
                ),
                ..app
            },
        ),
        _ => quiet(app),
    }
}

/// The user committed the name typed for a device: the draft without the
/// whitespace around it becomes the device's name, or the device loses its
/// name if nothing is left; the names are saved.
pub open spec fn on_rename_commit(app: AppView, device: usize) -> Outcome {
    match app.screen {
        ScreenView::Ready(ready) if device < ready.devices.len() && device
            < ready.rename_drafts.len() => Outcome {
            app: AppView {
                screen: ScreenView::Ready(
                    ReadyView {
                        devices: ready.devices.update(
                            device as int,
                            renamed(
                                ready.devices[device as int],
                                trimmed(ready.rename_drafts[device as int]),
                            ),
                        ),
                        ..ready
                    },
                ),
                ..app
            },
            effects: seq![EffectView::SaveRenames],
        },
        _ => quiet(app),
    }
}

/// The user opened or closed the debug block of a device.
pub open spec fn on_toggle_debug(app: AppView, device: usize) -> Outcome {
    match app.screen {
        ScreenView::Ready(ready) if device < ready.debug_open.len() => quiet(
            AppView {
                screen: ScreenView::Ready(
                    ReadyView {
                        debug_open: ready.debug_open.update(
                            device as int,
                            !ready.debug_open[device as int],
                        ),
                        ..ready
                    },
                ),
                ..app
            },
        ),
        _ => quiet(app),
    }
}

/// The user chose an output device: a new enumeration is asked for on any
/// screen.
pub open spec fn on_select_output(app: AppView, name: Seq<char>) -> Outcome {
    Outcome {
        app: match app.screen {
            ScreenView::Ready(ready) => AppView {
                screen: ScreenView::Ready(ReadyView { current_output: Some(name), ..ready }),
                ..app
            },
            _ => app,
        },
        effects: seq![EffectView::RefreshSessions],
    }
}

/// The user assigned a session to a channel of a device, or cleared the
/// channel with an empty key; the assignments are saved.
pub open spec fn on_channel_assign(
    app: AppView,
    device: usize,
    channel: usize,
    session: Seq<char>,
) -> Outcome {
    match app.screen {
        ScreenView::Ready(ready) if device < ready.devices.len() && channel < 5 => Outcome {
            app: AppView {
                screen: ScreenView::Ready(
                    ReadyView {
                        devices: ready.devices.update(
                            device as int,
                            assigned(ready.devices[device as int], channel as int, session),
                        ),
                        ..ready
                    },
                ),
                ..app
            },
            effects: seq![EffectView::SaveAssignments],
        },
        _ => quiet(app),
    }
}

/// The volume that a channel's display shows: that of the assigned session
/// as a percentage, and zero for a channel without a session or with one
/// that is not listed.
pub open spec fn channel_volume(sessions: Seq<AudioSession>, key: Seq<char>) -> u8 {
    if key.len() == 0 {
        0u8
    } else {
        match lookup(sessions, key) {
            Some(i) => percent_of_volume(sessions[i].volume),
            None => 0u8,
        }
    }
}

/// The frames that bring a channel's display up to date.
pub open spec fn channel_write(
    device: DeviceView,
    sessions: Seq<AudioSession>,
    channel: int,
) -> EffectView {
    let key = device.channel_assignments[channel];
    EffectView::WriteChannel {
        port_name: device.port_name,
        name_frame: seq![CMD_DISPLAY_UPDATE_APP_NAME, channel as u8] + name_buffer(
            encode_utf8(key),
        ),
        volume_frame: seq![
            CMD_DISPLAY_UPDATE_APP_VOLUME,
            channel as u8,
            clamp_volume(channel_volume(sessions, key)),
        ],
    }
}

/// The user asked to bring a device's displays up to date: one write per
/// channel, in the order of the channels.
pub open spec fn on_device_sync(app: AppView, device: usize) -> Outcome {
    match app.screen {
        ScreenView::Ready(ready) if device < ready.devices.len() => Outcome {
            app,
            effects: Seq::new(
                5,
                |channel: int| channel_write(ready.devices[device as int], ready.sessions, channel),
            ),
        },
        _ => quiet(app),
    }
}

/// The user disconnected a device: it leaves with its draft and its debug
/// flag and is released; without a device left, the application shows that
/// none is connected.
pub open spec fn on_disconnect(app: AppView, device: usize) -> Outcome {
    match app.screen {
        ScreenView::Ready(ready) => {
            let known = device < ready.devices.len() && device < ready.rename_drafts.len()
                && device < ready.debug_open.len();
            let after = if known {
                ReadyView {
                    devices: ready.devices.remove(device as int),
                    rename_drafts: ready.rename_drafts.remove(device as int),
                    debug_open: ready.debug_open.remove(device as int),
                    ..ready
                }
            } else {
                ready
            };
            Outcome {
                app: AppView {
                    screen: if after.devices.len() == 0 {
                        ScreenView::NoDevices(NoDevicesView::NoneFound)
                    } else {
                        ScreenView::Ready(after)
                    },
                    ..app
                },
                effects: if known {
                    seq![EffectView::ReleaseDevice(ready.devices[device as int].port_name)]
                } else {
                    Seq::empty()
                },
            }
        },
        _ => quiet(app),
    }
}

/// The device that a found device becomes, with what was saved for it.
pub open spec fn device_from(found: FoundDevice, saved: SavedDeviceState) -> DeviceView {
    DeviceView {
        port_name: found.port_name@,
        uuid: found.uuid,
        version: found.version,
        rename: rename_for(rename_views(saved.renames@), uuid_text(found.uuid@)),
        status: DeviceStatus::Connected,
        channel_assignments: slots_for(
            assignment_views(saved.assignments@),
            uuid_text(found.uuid@),
        ),
    }
}

/// The ready screen that a completed scan leads to.
pub open spec fn ready_from(found: Seq<FoundDevice>, saved: SavedDeviceState) -> ReadyView {
    ReadyView {
        devices: Seq::new(found.len(), |i: int| device_from(found[i], saved)),
        sessions: Seq::empty(),
        current_view: page::View::Sessions,
        rename_drafts: Seq::new(found.len(), |i: int| Seq::<char>::empty()),
        debug_open: Seq::new(found.len(), |i: int| false),
        output_devices: texts(saved.output_devices@),
        current_output: text_of(saved.current_output),
    }
}

/// The saved state arrived: a scan that completed and waits for it goes on
/// to the ready screen; at any other time nothing happens.
pub open spec fn on_device_state_loaded(app: AppView, saved: SavedDeviceState) -> Outcome {
    match app.screen {
        ScreenView::Scanning(scan) if scan.complete => quiet(
            AppView { screen: ScreenView::Ready(ready_from(scan.found_devices, saved)), ..app },
        ),
        _ => quiet(app),
    }
}

/// What a message leads to at time `now`.
pub open spec fn step(app: AppView, message: Message, now: Millis) -> Outcome {
    match message {
        Message::ShowSessions => show(app, page::View::Sessions),
        Message::ShowSettings => show(app, page::View::Settings),
        Message::ShowAbout => show(app, page::View::About),
        Message::ShowDevices => show(app, page::View::Devices),
        Message::VolumeChanged(id, volume) => on_volume_changed(app, id@, volume, now),
        Message::ToggleMute(id) => on_toggle_mute(app, id@, now),
        Message::RefreshSessions => Outcome { app, effects: seq![EffectView::RefreshSessions] },
        Message::SessionsUpdated(snapshot) => on_sessions_updated(app, snapshot@, now),
        Message::PollAudioReceiver(updates) => on_poll(app, updates@, now),
        Message::StartScan => on_start_scan(app),
        Message::ScanTick(events) => on_scan_tick(app, events@),
        Message::WatchdogTick(events) => on_watchdog_tick(app, events@),
        Message::RetryTick => on_retry_tick(app),
        Message::DeviceRenameDraft(device, draft) => on_rename_draft(app, device, draft@),
        Message::DeviceRenameCommit(device) => on_rename_commit(app, device),
        Message::DeviceToggleDebug(device) => on_toggle_debug(app, device),
        Message::DeviceDisconnect(device) => on_disconnect(app, device),
        Message::DeviceChannelAssign(device, channel, session) => on_channel_assign(
            app,
            device,
            channel,
            session@,
        ),
        Message::DeviceSync(device) => on_device_sync(app, device),
        Message::SelectOutput(name) => on_select_output(app, name@),
        Message::DeviceStateLoaded(saved) => on_device_state_loaded(app, saved),
    }
}

/// The timers that a screen needs. Both screens without devices have the
/// retry timer: no device found is retried every 3 seconds, a lost device
/// counts its seconds down.
pub open spec fn ticks_of(screen: ScreenView) -> Seq<Tick> {
    match screen {
        ScreenView::Scanning(_) => seq![Tick { kind: TickKind::ScanTick, every_ms: 50 }],
        ScreenView::Ready(_) => seq![
            Tick { kind: TickKind::PollAudioReceiver, every_ms: 16 },
            Tick { kind: TickKind::RefreshSessions, every_ms: 2000 },
            Tick { kind: TickKind::WatchdogTick, every_ms: 500 },
        ],
        ScreenView::NoDevices(NoDevicesView::Lost { .. }) => seq![
            Tick { kind: TickKind::RetryTick, every_ms: 1000 },
        ],
        ScreenView::NoDevices(NoDevicesView::NoneFound) => seq![
            Tick { kind: TickKind::RetryTick, every_ms: 3000 },
        ],
    }
}

/// The ticks of the retry timer after which a screen without devices
/// starts a scan by itself.
pub open spec fn retries_needed(reason: NoDevicesView) -> nat {
    match reason {
        NoDevicesView::NoneFound => 1,
        NoDevicesView::Lost { retry_in_secs, .. } => if retry_in_secs <= 1 {
            1
        } else {
            retry_in_secs as nat
        },
    }
}

/// The application after `count` ticks of the retry timer and nothing else.
pub open spec fn after_retries(app: AppView, count: nat) -> AppView
    decreases count,
{
    if count == 0 {
        app
    } else {
        on_retry_tick(after_retries(app, (count - 1) as nat)).app
    }
}

} // verus!
