//! One turn of the event loop.
//!
//! The loop around the console waits for whatever comes first, a terminal
//! event or a message from the bus, and hands it to [`step`]. What comes
//! back is the work that the turn leaves to the loop; the answers to that
//! work come in as arrivals of their own.

use crate::app::{action_view, device_views, handle_key, Action, ActionView, App, AppView, Error};
use crate::device::{Device, DeviceView};
use crate::input::Event;
use crate::message::{Message, MessageView};
use vstd::prelude::*;

verus! {

/// Something that happened outside and that the console has to take note
/// of.
#[derive(Debug, PartialEq, Eq)]
pub enum Arrival {
    /// The terminal delivered an event.
    Input(Event),
    /// Reading the terminal failed; holds the reason.
    InputFailed(String),
    /// The terminal will deliver no more events.
    InputClosed,
    /// The bus delivered a message.
    Message(Message),
    /// The bus is closed: no sender is left.
    BusClosed,
    /// The bridge answered a request for its devices, with a listing or
    /// with the reason why it has none.
    Listing(Result<Vec<Device>, String>),
    /// The scan that the console asked for could not be started.
    StartFailed,
}

/// What an arrival is to the contracts of this crate.
pub enum ArrivalView {
    Input(Event),
    InputFailed(Seq<char>),
    InputClosed,
    Message(MessageView),
    BusClosed,
    Listing(Result<Seq<DeviceView>, Seq<char>>),
    StartFailed,
}

impl View for Arrival {
    type V = ArrivalView;

    open spec fn view(&self) -> ArrivalView {
        match self {
            Arrival::Input(event) => ArrivalView::Input(*event),
            Arrival::InputFailed(reason) => ArrivalView::InputFailed(reason@),
            Arrival::InputClosed => ArrivalView::InputClosed,
            Arrival::Message(message) => ArrivalView::Message(message@),
            Arrival::BusClosed => ArrivalView::BusClosed,
            Arrival::Listing(Ok(devices)) => ArrivalView::Listing(Ok(device_views(devices@))),
            Arrival::Listing(Err(reason)) => ArrivalView::Listing(Err(reason@)),
            Arrival::StartFailed => ArrivalView::StartFailed,
        }
    }
}

/// The error that an arrival ends the loop with. Only a terminal that
/// cannot be read does so.
pub open spec fn failure_of(arrival: Arrival) -> Option<Error> {
    match arrival {
        Arrival::InputFailed(reason) => Some(Error::Input(reason)),
        _ => None,
    }
}

impl AppView {
    /// The state after an arrival, and the action that the arrival leaves
    /// to the loop. The loop is over once either source is closed. A
    /// failure changes nothing and leaves nothing. After a failed listing
    /// the loop goes on with the devices it has, and the operator may ask
    /// again; after a failed read it ends with an error.
    pub open spec fn step(self, arrival: ArrivalView) -> (AppView, Option<ActionView>) {
        match arrival {
            ArrivalView::Input(event) => self.on_event(event),
            ArrivalView::Message(message) => (self.receive(message), None),
            ArrivalView::InputClosed | ArrivalView::BusClosed => (
                self,
                Some(ActionView::Shutdown),
            ),
            ArrivalView::Listing(Ok(devices)) => (self.with_devices(devices), None),
            ArrivalView::StartFailed => (self.start_failed(), None),
            ArrivalView::InputFailed(_) | ArrivalView::Listing(Err(_)) => (self, None),
        }
    }
}

/// Takes one arrival. Returns the action that is left to the loop, or the
/// error that ends it.
///
/// A listing that failed once the loop runs is no such error: it is
/// dropped, the devices stay as they are, and `Ctrl+R` asks again. Only the
/// first listing, which [`App::init`] takes, must not fail.
pub fn step(app: &mut App, arrival: Arrival) -> (outcome: Result<Option<Action>, Error>)
    ensures
        final(app)@ == old(app)@.step(arrival@).0,
        final(app)@.wf(),
        match outcome {
            Ok(action) => {
                &&& failure_of(arrival) is None
                &&& action_view(action) == old(app)@.step(arrival@).1
            },
            Err(error) => failure_of(arrival) == Some(error),
        },
{
    proof {
        use_type_invariant(&*app);
    }
    match arrival {
        Arrival::Input(event) => Ok(handle_key(app, event)),
        Arrival::InputFailed(reason) => Err(Error::Input(reason)),
        Arrival::InputClosed => Ok(Some(Action::Shutdown)),
        Arrival::Message(message) => {
            app.receive(message);
            Ok(None)
        },
        Arrival::BusClosed => Ok(Some(Action::Shutdown)),
        Arrival::Listing(listing) => {
            let _ = app.refresh_devices(listing);
            Ok(None)
        },
        Arrival::StartFailed => {
            app.start_failed();
            Ok(None)
        },
    }
}

} // verus!
