//! The console's state and its transitions.

use crate::device::{Device, DeviceView};
use crate::input::{command_of, interpret, Command, Event, Mode};
use crate::message::{Message, MessageView, Suspicion};
use vstd::prelude::*;
use vstd::string::*;

verus! {

/// The state of the console: the devices last listed, the cursor into
/// them, the report of the current or last scan, and whether a scan session
/// is active.
pub struct App {
    devices: Vec<Device>,
    cursor: usize,
    report: Option<Vec<Suspicion>>,
    scanning: bool,
}

/// What the loop around the console owes the outside world after an event.
#[derive(Debug, PartialEq, Eq)]
pub enum Action {
    /// Leave the loop.
    Shutdown,
    /// Repaint the whole terminal.
    Clear,
    /// Ask the bridge for its devices and hand the answer back, as a
    /// listing or as the reason why there is none.
    Refresh,
    /// Start a scan of this device. The state already counts the session
    /// as active and shows its empty report; if the scan cannot be
    /// started, the console has to be told so.
    StartScan(Device),
    /// Send the cancellation signal to the running scan.
    CancelScan,
}

/// What went wrong outside, where the console cannot go on.
#[derive(Debug, PartialEq, Eq)]
pub enum Error {
    /// The bridge could not list its devices; holds the reason it gave.
    Discovery(String),
    /// The next terminal event could not be read; holds the reason.
    Input(String),
}

/// An error in words.
pub open spec fn message_of(error: Error) -> Seq<char> {
    match error {
        Error::Discovery(reason) => "Failed to list devices from adb: "@ + reason@,
        Error::Input(reason) => "Failed to read terminal input: "@ + reason@,
    }
}

impl Error {
    /// The error in words, for whoever reports it.
    pub fn message(&self) -> (text: String)
        ensures
            text@ == message_of(*self),
    {
        match self {
            Error::Discovery(reason) => String::from_str("Failed to list devices from adb: ").concat(
                reason.as_str(),
            ),
            Error::Input(reason) => String::from_str("Failed to read terminal input: ").concat(
                reason.as_str(),
            ),
        }
    }
}

/// What an action is to the contracts of this crate.
pub enum ActionView {
    Shutdown,
    Clear,
    Refresh,
    StartScan(DeviceView),
    CancelScan,
}

impl View for Action {
    type V = ActionView;

    open spec fn view(&self) -> ActionView {
        match self {
            Action::Shutdown => ActionView::Shutdown,
            Action::Clear => ActionView::Clear,
            Action::Refresh => ActionView::Refresh,
            Action::StartScan(device) => ActionView::StartScan(device@),
            Action::CancelScan => ActionView::CancelScan,
        }
    }
}

/// The view of an optional action.
pub open spec fn action_view(action: Option<Action>) -> Option<ActionView> {
    match action {
        Some(action) => Some(action@),
        None => None,
    }
}

/// The views of a list of devices, in order.
pub open spec fn device_views(devices: Seq<Device>) -> Seq<DeviceView> {
    devices.map_values(|device: Device| device@)
}

/// The lines of a list of findings, in order.
pub open spec fn finding_lines(findings: Seq<Suspicion>) -> Seq<Seq<char>> {
    findings.map_values(|finding: Suspicion| finding@)
}

/// The state of the console as the contracts of this crate see it.
pub struct AppView {
    pub devices: Seq<DeviceView>,
    pub cursor: nat,
    /// The findings of the current or last scan, in the order in which they
    /// arrived; `None` while no report exists.
    pub report: Option<Seq<Seq<char>>>,
    /// Whether a scan session is active.
    pub scanning: bool,
}

impl AppView {
    /// The state of a console that has just been created.
    pub open spec fn initial() -> AppView {
        AppView { devices: Seq::empty(), cursor: 0, report: None, scanning: false }
    }

    /// What every reachable state satisfies: the cursor is an index into
    /// the devices, or 0 where there are none; and a scan session is active
    /// only while a report exists.
    pub open spec fn wf(self) -> bool {
        &&& if self.devices.len() == 0 {
            self.cursor == 0
        } else {
            self.cursor < self.devices.len()
        }
        &&& self.scanning ==> self.report is Some
    }

    /// The mode that decides what a key means.
    pub open spec fn mode(self) -> Mode {
        if self.scanning {
            Mode::Scanning
        } else if self.report is Some {
            Mode::Report
        } else {
            Mode::Browsing
        }
    }

    /// The device under the cursor, if there is any device.
    pub open spec fn selected(self) -> Option<DeviceView> {
        if self.cursor < self.devices.len() {
            Some(self.devices[self.cursor as int])
        } else {
            None
        }
    }

    /// The cursor one up, unless it is at the top.
    pub open spec fn move_up(self) -> AppView {
        AppView { cursor: if self.cursor == 0 { 0 } else { (self.cursor - 1) as nat }, ..self }
    }

    /// The cursor one down, unless it is at the bottom.
    pub open spec fn move_down(self) -> AppView {
        AppView {
            cursor: if self.cursor + 1 < self.devices.len() {
                self.cursor + 1
            } else {
                self.cursor
            },
            ..self
        }
    }

    /// A new listing in place of the old one. The cursor stays where it is
    /// if it still points at a device, and otherwise goes to the last
    /// device, or to 0 if there is none.
    pub open spec fn with_devices(self, devices: Seq<DeviceView>) -> AppView {
        AppView {
            devices,
            cursor: if self.cursor < devices.len() {
                self.cursor
            } else if devices.len() == 0 {
                0
            } else {
                (devices.len() - 1) as nat
            },
            ..self
        }
    }

    /// The state after a command, and the action that the command leaves to
    /// the loop. A command changes something only in a state in which it
    /// makes sense: a scan starts only from the device list and only if a
    /// device is selected, only a running scan is cancelled, and only a
    /// report that no scan is writing to is dismissed.
    pub open spec fn apply(self, command: Command) -> (AppView, Option<ActionView>) {
        match command {
            Command::MoveUp => (self.move_up(), None),
            Command::MoveDown => (self.move_down(), None),
            Command::StartScan => match self.selected() {
                Some(device) if self.mode() == Mode::Browsing => (
                    AppView { report: Some(Seq::empty()), scanning: true, ..self },
                    Some(ActionView::StartScan(device)),
                ),
                _ => (self, None),
            },
            Command::CancelScan => if self.scanning {
                (AppView { scanning: false, ..self }, Some(ActionView::CancelScan))
            } else {
                (self, None)
            },
            Command::DismissReport => if self.mode() == Mode::Report {
                (AppView { report: None, ..self }, None)
            } else {
                (self, None)
            },
            Command::Quit | Command::ForceQuit => (self, Some(ActionView::Shutdown)),
            Command::Refresh => (self, Some(ActionView::Refresh)),
            Command::ClearScreen => (self, Some(ActionView::Clear)),
        }
    }

    /// The state after a terminal event, and the action that it leaves to
    /// the loop.
    pub open spec fn on_event(self, event: Event) -> (AppView, Option<ActionView>) {
        match command_of(self.mode(), event) {
            Some(command) => self.apply(command),
            None => (self, None),
        }
    }

    /// The state after a message from the bus. A finding goes to the end
    /// of the report, or nowhere if no report exists; the end of the scan
    /// ends the session and leaves the report as it is.
    pub open spec fn receive(self, message: MessageView) -> AppView {
        match message {
            MessageView::ScanEnded => AppView { scanning: false, ..self },
            MessageView::Suspicion(line) => match self.report {
                Some(lines) => AppView { report: Some(lines.push(line)), ..self },
                None => self,
            },
        }
    }

    /// Whether the state is the one that starting a scan leaves: a session
    /// is active and its report is still empty.
    pub open spec fn just_started(self) -> bool {
        self.scanning && self.report == Some(Seq::<Seq<char>>::empty())
    }

    /// The state after a scan could not be started: the session and its
    /// empty report are gone. In any other state nothing changes.
    pub open spec fn start_failed(self) -> AppView {
        if self.just_started() {
            AppView { report: None, scanning: false, ..self }
        } else {
            self
        }
    }
}

impl View for App {
    type V = AppView;

    closed spec fn view(&self) -> AppView {
        AppView {
            devices: device_views(self.devices@),
            cursor: self.cursor as nat,
            report: report_lines(self.report),
            scanning: self.scanning,
        }
    }
}

impl App {
    /// Holds of every console at all times.
    #[verifier::type_invariant]
    pub open spec fn inv(&self) -> bool {
        self@.wf()
    }

    /// A console with no devices, no report and no scan.
    pub fn new() -> (app: App)
        ensures
            app@ == AppView::initial(),
            app@.wf(),
    {
        let app = App { devices: Vec::new(), cursor: 0, report: None, scanning: false };
        assert(app@.devices =~= Seq::empty());
        app
    }

    /// Takes the first listing of the bridge. A failed listing leaves the
    /// console as it is and comes back as the error that ends the start.
    pub fn init(&mut self, listing: Result<Vec<Device>, String>) -> (outcome: Result<(), Error>)
        ensures
            final(self)@.wf(),
            match listing {
                Ok(devices) => {
                    &&& outcome is Ok
                    &&& final(self)@ == old(self)@.with_devices(device_views(devices@))
                },
                Err(reason) => {
                    &&& outcome == Err::<(), Error>(Error::Discovery(reason))
                    &&& final(self)@ == old(self)@
                },
            },
    {
        self.refresh_devices(listing)
    }

    /// Moves the cursor up by one; at the top it stays.
    pub fn key_up(&mut self)
        ensures
            final(self)@ == old(self)@.move_up(),
            final(self)@.wf(),
    {
        proof {
            use_type_invariant(&*self);
        }
        if self.cursor > 0 {
            self.cursor = self.cursor - 1;
        }
    }

    /// Moves the cursor down by one; at the bottom it stays.
    pub fn key_down(&mut self)
        ensures
            final(self)@ == old(self)@.move_down(),
            final(self)@.wf(),
    {
        proof {
            use_type_invariant(&*self);
        }
        if self.devices.len() > 0 && self.cursor < self.devices.len() - 1 {
            self.cursor = self.cursor + 1;
        }
    }

    /// Takes the answer of the bridge to a request for its devices. A
    /// listing replaces the old one as a whole, and the cursor is brought
    /// back into it. A failed listing leaves the console as it is and comes
    /// back as an error; nothing is tried again.
    pub fn refresh_devices(&mut self, listing: Result<Vec<Device>, String>) -> (outcome: Result<
        (),
        Error,
    >)
        ensures
            final(self)@.wf(),
            match listing {
                Ok(devices) => {
                    &&& outcome is Ok
                    &&& final(self)@ == old(self)@.with_devices(device_views(devices@))
                },
                Err(reason) => {
                    &&& outcome == Err::<(), Error>(Error::Discovery(reason))
                    &&& final(self)@ == old(self)@
                },
            },
    {
        proof {
            use_type_invariant(&*self);
        }
        match listing {
            Ok(devices) => {
                let count = devices.len();
                // The cursor can only move towards the top here, so it is
                // a valid cursor for the old listing as well as the new.
                if self.cursor >= count {
                    self.cursor = if count == 0 {
                        0
                    } else {
                        count - 1
                    };
                }
                self.devices = devices;
                Ok(())
            },
            Err(reason) => Err(Error::Discovery(reason)),
        }
    }

    /// The devices of the last listing.
    pub fn devices(&self) -> (devices: &Vec<Device>)
        ensures
            device_views(devices@) == self@.devices,
    {
        &self.devices
    }

    /// The position of the cursor in the devices.
    pub fn cursor(&self) -> (cursor: usize)
        ensures
            cursor == self@.cursor,
    {
        self.cursor
    }

    /// The device under the cursor, or `None` if there is no device.
    pub fn selected(&self) -> (device: Option<&Device>)
        ensures
            match device {
                Some(device) => self@.selected() == Some(device@),
                None => self@.selected() is None,
            },
    {
        if self.cursor < self.devices.len() {
            Some(&self.devices[self.cursor])
        } else {
            None
        }
    }

    /// The findings of the current or last scan, or `None` if no report
    /// exists.
    pub fn report(&self) -> (report: Option<&Vec<Suspicion>>)
        ensures
            match report {
                Some(findings) => self@.report == Some(finding_lines(findings@)),
                None => self@.report is None,
            },
    {
        self.report.as_ref()
    }

    /// Whether a scan session is active.
    pub fn is_scanning(&self) -> (scanning: bool)
        ensures
            scanning == self@.scanning,
    {
        self.scanning
    }

    /// The mode that decides what a key means.
    pub fn mode(&self) -> (mode: Mode)
        ensures
            mode == self@.mode(),
    {
        if self.scanning {
            Mode::Scanning
        } else if self.report.is_some() {
            Mode::Report
        } else {
            Mode::Browsing
        }
    }

    /// Carries out a command and returns what it leaves to the loop.
    pub fn apply(&mut self, command: Command) -> (action: Option<Action>)
        ensures
            (final(self)@, action_view(action)) == old(self)@.apply(command),
            final(self)@.wf(),
    {
        proof {
            use_type_invariant(&*self);
        }
        match command {
            Command::MoveUp => {
                self.key_up();
                None
            },
            Command::MoveDown => {
                self.key_down();
                None
            },
            Command::StartScan => {
                if !self.scanning && self.report.is_none() && self.cursor < self.devices.len() {
                    let device = self.devices[self.cursor].clone();
                    let findings: Vec<Suspicion> = Vec::new();
                    assert(finding_lines(findings@) =~= Seq::empty());
                    self.report = Some(findings);
                    self.scanning = true;
                    Some(Action::StartScan(device))
                } else {
                    None
                }
            },
            Command::CancelScan => {
                if self.scanning {
                    self.scanning = false;
                    Some(Action::CancelScan)
                } else {
                    None
                }
            },
            Command::DismissReport => {
                if !self.scanning && self.report.is_some() {
                    self.report = None;
                }
                None
            },
            Command::Quit | Command::ForceQuit => Some(Action::Shutdown),
            Command::Refresh => Some(Action::Refresh),
            Command::ClearScreen => Some(Action::Clear),
        }
    }

    /// Takes a message from the bus.
    pub fn receive(&mut self, message: Message)
        ensures
            final(self)@ == old(self)@.receive(message@),
            final(self)@.wf(),
    {
        proof {
            use_type_invariant(&*self);
        }
        match message {
            Message::ScanEnded => {
                self.scanning = false;
            },
            Message::Suspicion(finding) => {
                // A field of the state cannot be lent out for the push, so
                // the state is taken apart and put together again.
                let mut state = App::new();
                core::mem::swap(self, &mut state);
                proof {
                    use_type_invariant(&state);
                }
                let App { devices, cursor, report, scanning } = state;
                let mut report = report;
                append_finding(&mut report, finding);
                *self = App { devices, cursor, report, scanning };
            },
        }
    }

    /// Takes back the start of a scan that could not be started: the
    /// session and its empty report are dropped, and the device list shows
    /// again. In any state but the one that starting a scan leaves, nothing
    /// changes.
    pub fn start_failed(&mut self)
        ensures
            final(self)@ == old(self)@.start_failed(),
            final(self)@.wf(),
    {
        proof {
            use_type_invariant(&*self);
        }
        let empty = match &self.report {
            Some(findings) => {
                assert(findings@.len() == 0 ==> finding_lines(findings@) =~= Seq::empty());
                assert(finding_lines(findings@).len() == findings@.len());
                findings.len() == 0
            },
            None => false,
        };
        if self.scanning && empty {
            self.scanning = false;
            self.report = None;
        }
    }
}

/// The lines of a report, or `None` for no report.
pub open spec fn report_lines(report: Option<Vec<Suspicion>>) -> Option<Seq<Seq<char>>> {
    match report {
        Some(findings) => Some(finding_lines(findings@)),
        None => None,
    }
}

/// Puts a finding at the end of the report, if there is a report.
fn append_finding(report: &mut Option<Vec<Suspicion>>, finding: Suspicion)
    ensures
        report_lines(*final(report)) == match report_lines(*old(report)) {
            Some(lines) => Some(lines.push(finding@)),
            None => None,
        },
{
    match report {
        Some(findings) => {
            let ghost before = findings@;
            findings.push(finding);
            assert(finding_lines(findings@) =~= finding_lines(before).push(finding@));
        },
        None => {},
    }
}

/// Takes a terminal event: reads it as a command in the current mode and
/// carries the command out. Returns what is left to the loop; an event that
/// is bound to nothing changes nothing and leaves nothing.
pub fn handle_key(app: &mut App, event: Event) -> (action: Option<Action>)
    ensures
        (final(app)@, action_view(action)) == old(app)@.on_event(event),
        final(app)@.wf(),
{
    proof {
        use_type_invariant(&*app);
    }
    match interpret(app.mode(), event) {
        Some(command) => app.apply(command),
        None => None,
    }
}

} // verus!
