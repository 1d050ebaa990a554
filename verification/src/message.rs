//! What travels from a running scan to the console.

use vstd::prelude::*;

verus! {

/// How many messages the bus between the scan and the console holds. A
/// scan that is ahead of the console by this many waits until the console
/// has taken one, so a fast scan cannot pile up findings without bound.
pub const BUS_CAPACITY: usize = 5;

/// How many signals the cancellation channel of a session holds. One is
/// enough: a session is cancelled at most once.
pub const CANCEL_CAPACITY: usize = 1;

/// One finding of a scan. The console stores and shows findings and never
/// looks into them, so a finding is held as the line that the screen shows
/// for it.
#[derive(Debug, PartialEq, Eq)]
pub struct Suspicion {
    pub text: String,
}

impl View for Suspicion {
    type V = Seq<char>;

    open spec fn view(&self) -> Seq<char> {
        self.text@
    }
}

/// A message on the bus between the scan and the console. Both kinds
/// travel on the one bus, so the console sees them in the order in which
/// they were sent.
#[derive(Debug, PartialEq, Eq)]
pub enum Message {
    /// The scan is over: it finished, failed or was cancelled.
    ScanEnded,
    /// The scan found something.
    Suspicion(Suspicion),
}

/// What a message is to the contracts of this crate.
pub enum MessageView {
    ScanEnded,
    Suspicion(Seq<char>),
}

impl View for Message {
    type V = MessageView;

    open spec fn view(&self) -> MessageView {
        match self {
            Message::ScanEnded => MessageView::ScanEnded,
            Message::Suspicion(suspicion) => MessageView::Suspicion(suspicion@),
        }
    }
}

/// How the race between a scan and its cancellation came out.
#[derive(Clone, Copy, Debug, PartialEq, Eq, Structural)]
pub enum ScanOutcome {
    /// The scan ran to its end.
    Completed,
    /// The scan gave up with an error of its own.
    Failed,
    /// The cancellation signal came first and the scan was abandoned.
    Cancelled,
}

/// The message that a scan task sends last, after the race between the scan
/// and its cancellation is over. It is the same for every outcome: the
/// console learns that the scan is over, and not how it ended.
pub fn closing_message(outcome: ScanOutcome) -> (message: Message)
    ensures
        message == Message::ScanEnded,
{
    match outcome {
        ScanOutcome::Completed | ScanOutcome::Failed | ScanOutcome::Cancelled => Message::ScanEnded,
    }
}

} // verus!
