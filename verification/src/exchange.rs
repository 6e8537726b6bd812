//! One request/response exchange of the simulator's transport, as a state
//! machine: the request goes out; while its response is awaited, a
//! Heartbeat Request from the UPF is answered and anything else is passed
//! over; a timeout or a failed receive sends the request again, up to the
//! allowed number of retries. The caller sends, listens with a deadline,
//! and hands back what arrived.
use vstd::prelude::*;
use crate::clock::{spec_ntp_from_unix, NTP_UNIX_OFFSET};
use crate::sim_flow::{handle_unsolicited, is_response, spec_is_response, spec_unsolicited_reply};

verus! {

/// How far an exchange has got: the attempt under way (0 for the first
/// send) and how many retries are allowed after it.
#[derive(Clone, Copy, Debug, PartialEq, Eq, Structural)]
pub struct Exchange {
    pub attempt: u32,
    pub max_retries: u32,
}

/// What the caller reports while it waits for a response.
pub enum ExchangeInput {
    /// A datagram arrived.
    Received(Vec<u8>),
    /// The deadline of the current attempt passed.
    TimedOut,
    /// Receiving failed.
    RecvFailed,
}

pub enum ExchangeInputView {
    Received(Seq<u8>),
    TimedOut,
    RecvFailed,
}

impl View for ExchangeInput {
    type V = ExchangeInputView;

    open spec fn view(&self) -> ExchangeInputView {
        match self {
            ExchangeInput::Received(m) => ExchangeInputView::Received(m@),
            ExchangeInput::TimedOut => ExchangeInputView::TimedOut,
            ExchangeInput::RecvFailed => ExchangeInputView::RecvFailed,
        }
    }
}

/// What the caller is to do next.
pub enum ExchangeAction {
    /// Keep listening until the current deadline.
    Listen,
    /// Send this answer to where the datagram came from, then keep listening.
    Answer(Vec<u8>),
    /// Send the request again, with a new deadline.
    Resend,
    /// The exchange is over: this is the response.
    Deliver(Vec<u8>),
    /// The exchange is over without a response.
    GiveUp,
}

pub enum ExchangeActionView {
    Listen,
    Answer(Seq<u8>),
    Resend,
    Deliver(Seq<u8>),
    GiveUp,
}

impl View for ExchangeAction {
    type V = ExchangeActionView;

    open spec fn view(&self) -> ExchangeActionView {
        match self {
            ExchangeAction::Listen => ExchangeActionView::Listen,
            ExchangeAction::Answer(m) => ExchangeActionView::Answer(m@),
            ExchangeAction::Resend => ExchangeActionView::Resend,
            ExchangeAction::Deliver(m) => ExchangeActionView::Deliver(m@),
            ExchangeAction::GiveUp => ExchangeActionView::GiveUp,
        }
    }
}

impl Exchange {
    /// The first attempt of an exchange that allows `max_retries` retries.
    pub fn new(max_retries: u32) -> (r: Self)
        ensures
            r == (Exchange { attempt: 0, max_retries }),
    {
        Exchange { attempt: 0, max_retries }
    }
}

/// The exchange and the action after `input`, while a response of type
/// `expected` is awaited; `recovery_ts` stamps an answer to a Heartbeat
/// Request.
pub open spec fn spec_exchange_step(x: Exchange, expected: u8, input: ExchangeInputView, recovery_ts: u32) -> (
    Exchange,
    ExchangeActionView,
) {
    match input {
        ExchangeInputView::Received(data) => if spec_is_response(data, expected) {
            (x, ExchangeActionView::Deliver(data))
        } else {
            match spec_unsolicited_reply(data, recovery_ts) {
                Some(answer) => (x, ExchangeActionView::Answer(answer)),
                None => (x, ExchangeActionView::Listen),
            }
        },
        _ => if x.attempt < x.max_retries {
            (Exchange { attempt: (x.attempt + 1) as u32, ..x }, ExchangeActionView::Resend)
        } else {
            (x, ExchangeActionView::GiveUp)
        },
    }
}

/// One step of an exchange. A Heartbeat Request from the UPF is answered
/// with the clock's time now as the Recovery Time Stamp; whatever the clock
/// reads, the step is the one that `spec_exchange_step` gives for some
/// reading, and everything but the stamp of an answer is fixed.
pub fn exchange_step(x: &mut Exchange, expected: u8, input: ExchangeInput) -> (r: ExchangeAction)
    ensures
        exists|u: u64|
            (*final(x), r@) == spec_exchange_step(
                *old(x),
                expected,
                input@,
                #[trigger] spec_ntp_from_unix(u, NTP_UNIX_OFFSET),
            ),
        *final(x) == spec_exchange_step(*old(x), expected, input@, 0).0,
        r@ is Answer <==> spec_exchange_step(*old(x), expected, input@, 0).1 is Answer,
        !(r@ is Answer) ==> r@ == spec_exchange_step(*old(x), expected, input@, 0).1,
{
    match input {
        ExchangeInput::Received(data) => {
            if is_response(&data, expected) {
                proof {
                    let _ = spec_ntp_from_unix(0, NTP_UNIX_OFFSET);
                }
                ExchangeAction::Deliver(data)
            } else {
                match handle_unsolicited(&data) {
                    Some(answer) => ExchangeAction::Answer(answer),
                    None => {
                        proof {
                            let _ = spec_ntp_from_unix(0, NTP_UNIX_OFFSET);
                        }
                        ExchangeAction::Listen
                    },
                }
            }
        },
        _ => {
            proof {
                let _ = spec_ntp_from_unix(0, NTP_UNIX_OFFSET);
            }
            if x.attempt < x.max_retries {
                x.attempt = x.attempt + 1;
                ExchangeAction::Resend
            } else {
                ExchangeAction::GiveUp
            }
        },
    }
}

/// However the UPF behaves, an exchange sends its request at most
/// `max_retries + 1` times: each resend moves the attempt up by one, and
/// an attempt at the limit gives up.
pub proof fn law_exchange_retries_bounded(x: Exchange, expected: u8, input: ExchangeInputView, recovery_ts: u32)
    requires
        x.attempt <= x.max_retries,
    ensures
        ({
            let (x2, act) = spec_exchange_step(x, expected, input, recovery_ts);
            &&& x2.max_retries == x.max_retries
            &&& x2.attempt <= x2.max_retries
            &&& (act == ExchangeActionView::Resend ==> x2.attempt == x.attempt + 1)
            &&& (act != ExchangeActionView::Resend ==> x2.attempt == x.attempt)
            &&& (x.attempt == x.max_retries ==> act != ExchangeActionView::Resend)
        }),
{
}

/// A datagram of the awaited response type ends the exchange with that
/// datagram, whatever the attempt.
pub proof fn law_response_delivered(x: Exchange, expected: u8, data: Seq<u8>, recovery_ts: u32)
    requires
        spec_is_response(data, expected),
    ensures
        spec_exchange_step(x, expected, ExchangeInputView::Received(data), recovery_ts) == (
            x,
            ExchangeActionView::Deliver(data),
        ),
{
}

} // verus!
