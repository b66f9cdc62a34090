//! What holds of every step of the application, whatever the message.

use vstd::multiset::Multiset;
use vstd::prelude::*;
use vstd::seq_lib::{lemma_multiset_commutative, to_multiset_build, to_multiset_remove};

use crate::audio::laws::lemma_snapshot_decides_membership;
use crate::audio::reconcile::{
    after_notifications, lemma_lookup, local_mute_toggled, local_volume_written,
};
use crate::audio::session::Millis;
use crate::comms::device_info::uuid_text;
use crate::comms::scanner::ScanEvent;
use crate::ui::app::{app_wf, AppView, EffectView, Message, ScreenView};
use crate::ui::step::{
    after_retries, found_ports, held_ports, on_rename_commit, on_retry_tick, on_scan_event,
    on_scan_events, on_start_scan, ready_from, release_all, releases, retries_needed, step,
};
use crate::ui::views::scanning::blank_scan;
use crate::utils::config::{assignment_views, lemma_find_key, slots_for};
use crate::utils::text::{is_white_space, lemma_blank_trims_to_nothing};

verus! {

/// The ports that the effects release, in order.
pub open spec fn released_ports(effects: Seq<EffectView>) -> Seq<Seq<char>>
    decreases effects.len(),
{
    if effects.len() == 0 {
        Seq::empty()
    } else {
        let before = released_ports(effects.drop_last());
        match effects.last() {
            EffectView::ReleaseDevice(port) => before.push(port),
            _ => before,
        }
    }
}

/// The ports that a message brings in: those of the devices that a scan
/// reports as found.
pub open spec fn opened_ports(message: Message) -> Seq<Seq<char>> {
    match message {
        Message::ScanTick(events) => found_ports(events@),
        _ => Seq::empty(),
    }
}

/// Whether the ports held after a step and the ports released by it are,
/// counted port by port, the ports held before and the ports brought in.
pub open spec fn accounted(
    held_before: Seq<Seq<char>>,
    opened: Seq<Seq<char>>,
    held_after: Seq<Seq<char>>,
    released: Seq<Seq<char>>,
) -> bool {
    held_before.to_multiset().add(opened.to_multiset()) == held_after.to_multiset().add(
        released.to_multiset(),
    )
}

/// A sequence without elements has the empty multiset.
proof fn lemma_none(ports: Seq<Seq<char>>)
    requires
        ports.len() == 0,
    ensures
        ports.to_multiset() == Multiset::<Seq<char>>::empty(),
{
    broadcast use vstd::multiset::group_multiset_axioms;

    ports.to_multiset_ensures();
}

/// Nothing brought in, nothing released, the same ports held.
proof fn lemma_unchanged(held: Seq<Seq<char>>, opened: Seq<Seq<char>>, released: Seq<Seq<char>>)
    requires
        opened.len() == 0,
        released.len() == 0,
    ensures
        accounted(held, opened, held, released),
{
    lemma_none(opened);
    lemma_none(released);
}

/// All ports held are released.
proof fn lemma_all_released(
    held: Seq<Seq<char>>,
    opened: Seq<Seq<char>>,
    after: Seq<Seq<char>>,
    released: Seq<Seq<char>>,
)
    requires
        opened.len() == 0,
        after.len() == 0,
        released == held,
    ensures
        accounted(held, opened, after, released),
{
    broadcast use vstd::multiset::group_multiset_axioms;

    lemma_none(opened);
    lemma_none(after);
    assert(held.to_multiset().add(opened.to_multiset()) =~= after.to_multiset().add(
        released.to_multiset(),
    ));
}

/// Two steps in a row.
proof fn lemma_in_a_row(
    held: Seq<Seq<char>>,
    opened: Seq<Seq<char>>,
    between: Seq<Seq<char>>,
    released: Seq<Seq<char>>,
    opened_then: Seq<Seq<char>>,
    after: Seq<Seq<char>>,
    released_then: Seq<Seq<char>>,
)
    requires
        accounted(held, opened, between, released),
        accounted(between, opened_then, after, released_then),
    ensures
        accounted(held, opened + opened_then, after, released + released_then),
{
    broadcast use vstd::multiset::group_multiset_axioms;

    lemma_multiset_commutative(opened, opened_then);
    lemma_multiset_commutative(released, released_then);
    let left = held.to_multiset().add((opened + opened_then).to_multiset());
    let right = after.to_multiset().add((released + released_then).to_multiset());
    assert forall|port: Seq<char>| left.count(port) == right.count(port) by {
        assert(held.to_multiset().add(opened.to_multiset()).count(port)
            == between.to_multiset().add(released.to_multiset()).count(port));
        assert(between.to_multiset().add(opened_then.to_multiset()).count(port)
            == after.to_multiset().add(released_then.to_multiset()).count(port));
    }
    assert(left =~= right);
}

/// The releases of some ports release those ports.
proof fn lemma_releases(ports: Seq<Seq<char>>)
    ensures
        released_ports(releases(ports)) == ports,
    decreases ports.len(),
{
    if ports.len() > 0 {
        lemma_releases(ports.drop_last());
        assert(releases(ports).drop_last() =~= releases(ports.drop_last()));
    }
}

/// The ports released by effects in a row are those released by the first,
/// then those released by the second.
proof fn lemma_released_in_a_row(first: Seq<EffectView>, second: Seq<EffectView>)
    ensures
        released_ports(first + second) == released_ports(first) + released_ports(second),
    decreases second.len(),
{
    if second.len() > 0 {
        lemma_released_in_a_row(first, second.drop_last());
        assert((first + second).drop_last() =~= first + second.drop_last());
    }
}

/// Effects of which none is a release release nothing.
proof fn lemma_no_release(effects: Seq<EffectView>)
    requires
        forall|i: int| 0 <= i < effects.len() ==> !(#[trigger] effects[i] is ReleaseDevice),
    ensures
        released_ports(effects).len() == 0,
    decreases effects.len(),
{
    if effects.len() > 0 {
        lemma_no_release(effects.drop_last());
    }
}

/// What the release of all ports held, followed by effects that release
/// nothing, releases: the ports held.
proof fn lemma_release_all_then(screen: ScreenView, then: Seq<EffectView>)
    requires
        forall|i: int| 0 <= i < then.len() ==> !(#[trigger] then[i] is ReleaseDevice),
    ensures
        released_ports(release_all(screen) + then) == held_ports(screen),
{
    lemma_releases(held_ports(screen));
    lemma_released_in_a_row(release_all(screen), then);
    lemma_no_release(then);
}

/// One event of a scan keeps the account of the ports.
proof fn lemma_scan_event_accounted(app: AppView, event: ScanEvent)
    ensures
        accounted(
            held_ports(app.screen),
            found_ports(seq![event]),
            held_ports(on_scan_event(app, event).app.screen),
            released_ports(on_scan_event(app, event).effects),
        ),
{
    broadcast use vstd::multiset::group_multiset_axioms;

    let out = on_scan_event(app, event);
    let held = held_ports(app.screen);
    let after = held_ports(out.app.screen);
    let opened = found_ports(seq![event]);
    let released = released_ports(out.effects);
    assert(seq![event].drop_last() =~= Seq::<ScanEvent>::empty());
    assert(found_ports(Seq::<ScanEvent>::empty()) =~= Seq::<Seq<char>>::empty());
    let nothing = Seq::<EffectView>::empty();
    match event {
        ScanEvent::DeviceFound { port_name, uuid, version } => {
            lemma_none(Seq::<Seq<char>>::empty());
            to_multiset_build(Seq::<Seq<char>>::empty(), port_name@);
            match app.screen {
                ScreenView::Scanning(scan) => {
                    lemma_no_release(out.effects);
                    lemma_none(released);
                    assert(after =~= held.push(port_name@));
                    to_multiset_build(held, port_name@);
                    assert(held.to_multiset().add(opened.to_multiset()) =~= after.to_multiset().add(
                        released.to_multiset(),
                    ));
                },
                _ => {
                    assert(out.effects =~= releases(seq![port_name@]));
                    lemma_releases(seq![port_name@]);
                },
            }
        },
        ScanEvent::ScanComplete { found } => {
            if found == 0 {
                lemma_release_all_then(app.screen, seq![EffectView::DropScan]);
                lemma_all_released(held, opened, after, released);
            } else {
                match app.screen {
                    ScreenView::Scanning(scan) => {
                        lemma_no_release(out.effects);
                        lemma_unchanged(held, opened, released);
                    },
                    _ => {
                        lemma_release_all_then(
                            app.screen,
                            seq![EffectView::DropScan, EffectView::LoadDeviceState],
                        );
                        lemma_all_released(held, opened, after, released);
                    },
                }
            }
        },
        ScanEvent::ScanFailed(_) => {
            lemma_release_all_then(app.screen, seq![EffectView::DropScan]);
            lemma_all_released(held, opened, after, released);
        },
        ScanEvent::DeviceLost { port_name } => {
            lemma_release_all_then(app.screen, nothing);
            lemma_all_released(held, opened, after, released);
        },
        _ => {
            lemma_no_release(out.effects);
            lemma_unchanged(held, opened, released);
        },
    }
}

/// The ports that events in a row report as found.
proof fn lemma_found_in_a_row(events: Seq<ScanEvent>)
    requires
        events.len() > 0,
    ensures
        found_ports(events) == found_ports(events.drop_last()) + found_ports(seq![events.last()]),
{
    let last = seq![events.last()];
    assert(last.drop_last() =~= Seq::<ScanEvent>::empty());
    assert(found_ports(Seq::<ScanEvent>::empty()) =~= Seq::<Seq<char>>::empty());
}

/// The events of a scan keep the account of the ports.
proof fn lemma_scan_events_accounted(app: AppView, events: Seq<ScanEvent>)
    ensures
        accounted(
            held_ports(app.screen),
            found_ports(events),
            held_ports(on_scan_events(app, events).app.screen),
            released_ports(on_scan_events(app, events).effects),
        ),
    decreases events.len(),
{
    if events.len() == 0 {
        lemma_unchanged(
            held_ports(app.screen),
            found_ports(events),
            released_ports(on_scan_events(app, events).effects),
        );
    } else {
        let before = on_scan_events(app, events.drop_last());
        let last = on_scan_event(before.app, events.last());
        lemma_scan_events_accounted(app, events.drop_last());
        lemma_scan_event_accounted(before.app, events.last());
        lemma_found_in_a_row(events);
        lemma_released_in_a_row(before.effects, last.effects);
        lemma_in_a_row(
            held_ports(app.screen),
            found_ports(events.drop_last()),
            held_ports(before.app.screen),
            released_ports(before.effects),
            found_ports(seq![events.last()]),
            held_ports(last.app.screen),
            released_ports(last.effects),
        );
    }
}

/// No port is lost and none is released twice: after every step, the ports
/// that the screen holds and the ports that the step's effects release are,
/// counted port by port, the ports that the screen held before and the
/// ports of the devices that the message reports as found.
pub proof fn lemma_ports_accounted(app: AppView, message: Message, now: Millis)
    ensures
        accounted(
            held_ports(app.screen),
            opened_ports(message),
            held_ports(step(app, message, now).app.screen),
            released_ports(step(app, message, now).effects),
        ),
{
    broadcast use vstd::multiset::group_multiset_axioms;

    let out = step(app, message, now);
    let held = held_ports(app.screen);
    let after = held_ports(out.app.screen);
    let opened = opened_ports(message);
    let released = released_ports(out.effects);
    let restart = seq![EffectView::DrainWatchdogEvents, EffectView::StartScan { delay_ms: 500 }];
    match message {
        Message::ScanTick(events) => {
            if app.scan_active {
                lemma_scan_events_accounted(app, events@);
            } else {
                lemma_releases(found_ports(events@));
            }
        },
        Message::StartScan => {
            lemma_release_all_then(app.screen, restart);
            lemma_all_released(held, opened, after, released);
        },
        Message::RetryTick => {
            if out.effects.len() > 0 {
                lemma_release_all_then(app.screen, restart);
                lemma_all_released(held, opened, after, released);
            } else {
                lemma_no_release(out.effects);
                lemma_unchanged(held, opened, released);
            }
        },
        Message::WatchdogTick(events) => {
            if out.app.screen == app.screen {
                lemma_no_release(out.effects);
                lemma_unchanged(held, opened, released);
            } else {
                lemma_release_all_then(app.screen, seq![EffectView::DropScan]);
                lemma_all_released(held, opened, after, released);
            }
        },
        Message::DeviceDisconnect(device) => {
            if out.effects.len() == 0 {
                lemma_no_release(out.effects);
                lemma_unchanged(held, opened, released);
                assert(after =~= held);
            } else {
                let gone = held[device as int];
                assert(out.effects =~= releases(seq![gone]));
                lemma_releases(seq![gone]);
                assert(after =~= held.remove(device as int));
                to_multiset_remove(held, device as int);
                lemma_none(opened);
                lemma_none(Seq::<Seq<char>>::empty());
                to_multiset_build(Seq::<Seq<char>>::empty(), gone);
                held.to_multiset_ensures();
                assert(held.to_multiset().add(opened.to_multiset()) =~= after.to_multiset().add(
                    released.to_multiset(),
                ));
            }
        },
        Message::PollAudioReceiver(updates) => {
            lemma_no_release(out.effects);
            lemma_unchanged(held, opened, released);
        },
        Message::DeviceSync(device) => {
            lemma_no_release(out.effects);
            lemma_unchanged(held, opened, released);
        },
        _ => {
            lemma_no_release(out.effects);
            lemma_unchanged(held, opened, released);
            assert(after =~= held);
        },
    }
}

/// Saved channel assignments are always five.
proof fn lemma_saved_assignments_len(assignments: Seq<(String, [String; 5])>, uuid: Seq<char>)
    ensures
        slots_for(assignment_views(assignments), uuid).len() == 5,
{
    lemma_find_key(assignment_views(assignments), uuid);
}

/// Scan events never lead to the ready screen, so they leave a consistent
/// application consistent.
proof fn lemma_scan_events_keep_wf(app: AppView, events: Seq<ScanEvent>)
    requires
        app_wf(app),
    ensures
        app_wf(on_scan_events(app, events).app),
    decreases events.len(),
{
    if events.len() > 0 {
        lemma_scan_events_keep_wf(app, events.drop_last());
    }
}

/// Every message leaves a consistent application consistent.
pub proof fn lemma_step_keeps_wf(app: AppView, message: Message, now: Millis)
    requires
        app_wf(app),
    ensures
        app_wf(step(app, message, now).app),
{
    let after = step(app, message, now).app;
    match message {
        Message::VolumeChanged(id, volume) => {
            if let ScreenView::Ready(ready) = app.screen {
                lemma_lookup(ready.sessions, id@);
                let written = local_volume_written(ready.sessions, id@, volume, now);
                assert forall|i: int, j: int| 0 <= i < j < written.len() implies (
                #[trigger] written[i]).id@ != (#[trigger] written[j]).id@ by {
                    assert(ready.sessions[i].id@ != ready.sessions[j].id@);
                }
            }
        },
        Message::ToggleMute(id) => {
            if let ScreenView::Ready(ready) = app.screen {
                lemma_lookup(ready.sessions, id@);
                let toggled = local_mute_toggled(ready.sessions, id@, now);
                assert forall|i: int, j: int| 0 <= i < j < toggled.len() implies (
                #[trigger] toggled[i]).id@ != (#[trigger] toggled[j]).id@ by {
                    assert(ready.sessions[i].id@ != ready.sessions[j].id@);
                }
            }
        },
        Message::SessionsUpdated(snapshot) => {
            if let ScreenView::Ready(ready) = app.screen {
                lemma_snapshot_decides_membership(
                    ready.sessions,
                    snapshot@,
                    now,
                );
            }
        },
        Message::PollAudioReceiver(updates) => {
            if let ScreenView::Ready(ready) = app.screen {
                let notified = after_notifications(ready.sessions, updates@, now);
                assert forall|i: int, j: int| 0 <= i < j < notified.len() implies (
                #[trigger] notified[i]).id@ != (#[trigger] notified[j]).id@ by {
                    assert(ready.sessions[i].id@ != ready.sessions[j].id@);
                }
            }
        },
        Message::ScanTick(events) => {
            lemma_scan_events_keep_wf(app, events@);
        },
        Message::DeviceRenameCommit(device) => {
            if let ScreenView::Ready(ready) = app.screen {
                if let ScreenView::Ready(changed) = after.screen {
                    assert forall|i: int| 0 <= i < changed.devices.len() implies (
                    #[trigger] changed.devices[i]).channel_assignments.len() == 5 by {
                        assert(ready.devices[i].channel_assignments.len() == 5);
                    }
                }
            }
        },
        Message::DeviceChannelAssign(device, channel, session) => {
            if let ScreenView::Ready(ready) = app.screen {
                if let ScreenView::Ready(changed) = after.screen {
                    assert forall|i: int| 0 <= i < changed.devices.len() implies (
                    #[trigger] changed.devices[i]).channel_assignments.len() == 5 by {
                        assert(ready.devices[i].channel_assignments.len() == 5);
                    }
                }
            }
        },
        Message::DeviceDisconnect(device) => {
            if let ScreenView::Ready(ready) = app.screen {
                if let ScreenView::Ready(changed) = after.screen {
                    assert forall|i: int| 0 <= i < changed.devices.len() implies (
                    #[trigger] changed.devices[i]).channel_assignments.len() == 5 by {
                        if device < ready.devices.len() && i >= device {
                            assert(ready.devices[i + 1].channel_assignments.len() == 5);
                        } else {
                            assert(ready.devices[i].channel_assignments.len() == 5);
                        }
                    }
                }
            }
        },
        Message::DeviceStateLoaded(saved) => {
            if let ScreenView::Scanning(scan) = app.screen {
                if scan.complete {
                    let ready = ready_from(scan.found_devices, saved);
                    assert forall|i: int| 0 <= i < ready.devices.len() implies (
                    #[trigger] ready.devices[i]).channel_assignments.len() == 5 by {
                        lemma_saved_assignments_len(
                            saved.assignments@,
                            uuid_text(scan.found_devices[i].uuid@),
                        );
                    }
                }
            }
        },
        _ => {},
    }
}

/// A screen without devices does not wait for the user: the retry timer
/// alone brings the application back to scanning. After no more ticks than
/// `retries_needed` says, the last of them starts a scan, and the
/// application is on the scanning screen with the scan under way.
pub proof fn lemma_retry_starts_scan(app: AppView)
    requires
        app.screen is NoDevices,
    ensures
        ({
            let needed = retries_needed(app.screen->NoDevices_0);
            let before = after_retries(app, (needed - 1) as nat);
            &&& before.screen is NoDevices
            &&& on_retry_tick(before) == on_start_scan(before)
            &&& on_retry_tick(before).effects == seq![
                EffectView::DrainWatchdogEvents,
                EffectView::StartScan { delay_ms: 500 },
            ]
            &&& after_retries(app, needed) == (AppView {
                screen: ScreenView::Scanning(blank_scan()),
                scan_active: true,
            })
        }),
    decreases retries_needed(app.screen->NoDevices_0),
{
    let needed = retries_needed(app.screen->NoDevices_0);
    if needed > 1 {
        let next = on_retry_tick(app).app;
        lemma_retry_starts_scan(next);
        lemma_retries_shift(app, (needed - 1) as nat);
        lemma_retries_shift(app, (needed - 2) as nat);
    } else {
        assert(after_retries(app, 0) == app);
        assert(release_all(app.screen) =~= Seq::<EffectView>::empty());
        assert(on_start_scan(app).effects =~= seq![
            EffectView::DrainWatchdogEvents,
            EffectView::StartScan { delay_ms: 500 },
        ]);
    }
}

/// Ticks of the retry timer may be counted from the first as well as from
/// the last.
proof fn lemma_retries_shift(app: AppView, count: nat)
    ensures
        after_retries(app, count + 1) == after_retries(on_retry_tick(app).app, count),
    decreases count,
{
    if count > 0 {
        lemma_retries_shift(app, (count - 1) as nat);
    } else {
        assert(after_retries(app, 1) == on_retry_tick(after_retries(app, 0)).app);
    }
}

/// Committing a draft of nothing but white space, the empty draft too,
/// takes the user's name away from the device.
pub proof fn lemma_blank_draft_clears_name(app: AppView, device: usize)
    requires
        app.screen matches ScreenView::Ready(ready) && device < ready.devices.len() && device
            < ready.rename_drafts.len() && forall|i: int|
            0 <= i < ready.rename_drafts[device as int].len() ==> is_white_space(
                #[trigger] ready.rename_drafts[device as int][i],
            ),
    ensures
        on_rename_commit(app, device).app.screen matches ScreenView::Ready(ready)
            && ready.devices[device as int].rename is None,
{
    let ready = app.screen->Ready_0;
    lemma_blank_trims_to_nothing(ready.rename_drafts[device as int]);
}

} // verus!
