//! The screen shown while a scan runs.

use vstd::prelude::*;
use vstd::string::*;

use crate::utils::text::{decimal, decimal_text};

verus! {

/// A full progress bar, in thousandths.
pub const PROGRESS_FULL: u16 = 1000;

#[derive(Debug, Clone, Copy, PartialEq, Eq, Structural)]
pub enum LogKind {
    Info,
    Success,
    Failure,
}

#[derive(Debug, PartialEq, Eq)]
pub struct LogEntry {
    pub text: String,
    pub kind: LogKind,
}

/// A device that answered the handshake during the scan that is running.
#[derive(Debug, PartialEq, Eq)]
pub struct FoundDevice {
    pub port_name: String,
    pub uuid: [u8; 16],
    pub version: (u8, u8),
}

#[derive(Debug, PartialEq, Eq)]
pub struct ScanningState {
    pub status: String,
    /// Progress in thousandths, 0 to 1000.
    pub progress: u16,
    pub log: Vec<LogEntry>,
    pub found_devices: Vec<FoundDevice>,
    /// Set when the scan has completed with devices found and their saved
    /// names and channel assignments are being fetched.
    pub complete: bool,
}

/// The scanning screen as a plain value.
pub struct ScanningView {
    pub status: Seq<char>,
    pub progress: u16,
    /// The log's lines, each with its kind.
    pub log: Seq<(Seq<char>, LogKind)>,
    pub found_devices: Seq<FoundDevice>,
    pub complete: bool,
}

impl View for ScanningState {
    type V = ScanningView;

    open spec fn view(&self) -> ScanningView {
        ScanningView {
            status: self.status@,
            progress: self.progress,
            log: Seq::new(self.log@.len(), |i: int| (self.log@[i].text@, self.log@[i].kind)),
            found_devices: self.found_devices@,
            complete: self.complete,
        }
    }
}

/// The screen of a scan that has reported nothing yet.
pub open spec fn blank_scan() -> ScanningView {
    ScanningView {
        status: Seq::empty(),
        progress: 0,
        log: Seq::empty(),
        found_devices: Seq::empty(),
        complete: false,
    }
}

/// Progress while port `index` of `total` is under probe, ports counted from
/// 1: the ports before it as a share of all ports, on 900 thousandths.
pub open spec fn probing_progress(index: usize, total: usize) -> u16 {
    if index == 0 || total == 0 {
        0u16
    } else if (index - 1) * 900 / (total as int) > 1000 {
        1000u16
    } else {
        ((index - 1) * 900 / (total as int)) as u16
    }
}

/// The status line after the ports were listed.
pub open spec fn started_status(total: usize) -> Seq<char> {
    "Found "@ + decimal_text(total as nat) + " port(s) to check…"@
}

/// The log line after the ports were listed.
pub open spec fn started_line(total: usize) -> Seq<char> {
    "Scanning "@ + decimal_text(total as nat) + " port(s)"@
}

/// The status and log line while a port is under probe.
pub open spec fn checking_line(name: Seq<char>) -> Seq<char> {
    "Checking "@ + name + "…"@
}

/// The log line of a port that was given up.
pub open spec fn failed_line(name: Seq<char>, reason: Seq<char>) -> Seq<char> {
    name + ": "@ + reason
}

/// The log line of a port on which a device answered.
pub open spec fn found_line(name: Seq<char>) -> Seq<char> {
    name + ": FaderFlow ✓"@
}

/// The screen after the scan reported its start.
pub open spec fn after_started(screen: ScanningView, total: usize) -> ScanningView {
    ScanningView {
        status: started_status(total),
        log: screen.log.push((started_line(total), LogKind::Info)),
        ..screen
    }
}

/// The screen after the scan announced a port.
pub open spec fn after_checking(
    screen: ScanningView,
    name: Seq<char>,
    index: usize,
    total: usize,
) -> ScanningView {
    ScanningView {
        status: checking_line(name),
        progress: probing_progress(index, total),
        log: screen.log.push((checking_line(name), LogKind::Info)),
        ..screen
    }
}

/// The screen after the scan gave a port up.
pub open spec fn after_failed(screen: ScanningView, name: Seq<char>, reason: Seq<char>) -> ScanningView {
    ScanningView { log: screen.log.push((failed_line(name, reason), LogKind::Failure)), ..screen }
}

/// The screen after a device answered.
pub open spec fn after_found(screen: ScanningView, device: FoundDevice) -> ScanningView {
    ScanningView {
        log: screen.log.push((found_line(device.port_name@), LogKind::Success)),
        found_devices: screen.found_devices.push(device),
        ..screen
    }
}

/// The screen after the scan completed with devices found.
pub open spec fn after_completed(screen: ScanningView) -> ScanningView {
    ScanningView { progress: 1000, complete: true, ..screen }
}

impl Default for ScanningState {
    fn default() -> (state: Self)
        ensures
            state@ == blank_scan(),
    {
        let state = ScanningState {
            status: String::new(),
            progress: 0,
            log: Vec::new(),
            found_devices: Vec::new(),
            complete: false,
        };
        assert(state@.log =~= blank_scan().log);
        state
    }
}

impl ScanningState {
    /// Appends a line to the scan's log.
    pub fn push_log(&mut self, text: String, kind: LogKind)
        ensures
            final(self)@ == (ScanningView { log: old(self)@.log.push((text@, kind)), ..old(self)@ }),
    {
        self.log.push(LogEntry { text, kind });
        assert(final(self)@.log =~= old(self)@.log.push((text@, kind)));
    }

    /// Takes in that the scan listed `total` ports.
    pub fn note_started(&mut self, total: usize)
        ensures
            final(self)@ == after_started(old(self)@, total),
    {
        let count = decimal(total as u64);
        self.status = String::from_str("Found ").concat(count.as_str()).concat(
            " port(s) to check…",
        );
        let line = String::from_str("Scanning ").concat(count.as_str()).concat(" port(s)");
        self.push_log(line, LogKind::Info);
    }

    /// Takes in that port `index` of `total` is under probe.
    pub fn note_checking(&mut self, name: &String, index: usize, total: usize)
        ensures
            final(self)@ == after_checking(old(self)@, name@, index, total),
    {
        self.status = String::from_str("Checking ").concat(name.as_str()).concat("…");
        self.progress = progress_at(index, total);
        let line = String::from_str("Checking ").concat(name.as_str()).concat("…");
        self.push_log(line, LogKind::Info);
    }

    /// Takes in that a port was given up.
    pub fn note_failed(&mut self, name: &String, reason: &String)
        ensures
            final(self)@ == after_failed(old(self)@, name@, reason@),
    {
        let line = name.clone().concat(": ").concat(reason.as_str());
        self.push_log(line, LogKind::Failure);
    }

    /// Takes in that a device answered.
    pub fn note_found(&mut self, device: FoundDevice)
        ensures
            final(self)@ == after_found(old(self)@, device),
    {
        let line = device.port_name.clone().concat(": FaderFlow ✓");
        self.push_log(line, LogKind::Success);
        self.found_devices.push(device);
    }

    /// Takes in that the scan completed with devices found.
    pub fn note_completed(&mut self)
        ensures
            final(self)@ == after_completed(old(self)@),
    {
        self.progress = PROGRESS_FULL;
        self.complete = true;
    }
}

/// Progress while port `index` of `total` is under probe.
pub fn progress_at(index: usize, total: usize) -> (progress: u16)
    ensures
        progress == probing_progress(index, total),
{
    if index == 0 || total == 0 {
        return 0;
    }
    let done: u128 = (index - 1) as u128;
    let share: u128 = done * 900 / (total as u128);
    if share > 1000 {
        1000
    } else {
        share as u16
    }
}

} // verus!
