use vstd::prelude::*;
use crate::event::{EngineReply, Response};
use crate::frame::{FrameSummary, FrameSummaryView};

verus! {

/// What a caller that awaits a join or a confirmed send is told.
#[derive(Debug, Clone, Copy, PartialEq, Eq, Structural)]
pub enum Signal {
    JoinSuccess,
    NoAck,
}

/// A downlink as the listener gets it.
#[derive(Debug, PartialEq, Eq)]
pub struct Delivery {
    pub fcnt: u32,
    pub payload: Option<Vec<u8>>,
    pub mac_commands: usize,
}

/// Mathematical value of a `Delivery`.
pub struct DeliveryView {
    pub fcnt: u32,
    pub payload: Option<Seq<u8>>,
    pub mac_commands: nat,
}

impl View for Delivery {
    type V = DeliveryView;

    open spec fn view(&self) -> DeliveryView {
        DeliveryView {
            fcnt: self.fcnt,
            payload: match self.payload {
                Some(p) => Some(p@),
                None => None,
            },
            mac_commands: self.mac_commands as nat,
        }
    }
}

/// The side effect that one reply of the protocol engine calls for.
#[derive(Debug, PartialEq, Eq)]
pub enum Effect {
    /// Nothing beyond observing the reply.
    NoEffect,
    /// A timer expiry is to be fed back after this many milliseconds.
    ScheduleTimeout(u32),
    /// The awaiting caller is told.
    Signal(Signal),
    /// The listener gets a downlink, once.
    Deliver(Delivery),
    /// A new session request is to be fed back at once.
    Rejoin,
}

/// Mathematical value of an `Effect`.
pub enum EffectView {
    NoEffect,
    ScheduleTimeout(u32),
    Signal(Signal),
    Deliver(DeliveryView),
    Rejoin,
}

impl View for Effect {
    type V = EffectView;

    open spec fn view(&self) -> EffectView {
        match self {
            Effect::NoEffect => EffectView::NoEffect,
            Effect::ScheduleTimeout(ms) => EffectView::ScheduleTimeout(*ms),
            Effect::Signal(s) => EffectView::Signal(*s),
            Effect::Deliver(d) => EffectView::Deliver(d@),
            Effect::Rejoin => EffectView::Rejoin,
        }
    }
}

/// The effect owed for `reply`, where `frame` is what the engine held as the
/// decoded downlink, if it held one.
///
/// A downlink is delivered with the frame counter of the reply, with its
/// payload where it carries application data. A join that got no accept and a
/// session that ran out both ask for a new session. Errors of the engine have
/// no effect: they are observed and go no further.
pub open spec fn effect_of(reply: EngineReply, frame: Option<FrameSummaryView>) -> EffectView {
    match reply {
        Ok(Response::TimeoutRequest(ms)) => EffectView::ScheduleTimeout(ms),
        Ok(Response::JoinSuccess) => EffectView::Signal(Signal::JoinSuccess),
        Ok(Response::NoAck) => EffectView::Signal(Signal::NoAck),
        Ok(Response::DownlinkReceived(fcnt)) => match frame {
            Some(f) => EffectView::Deliver(
                DeliveryView { fcnt, payload: f.payload, mac_commands: f.mac_commands },
            ),
            None => EffectView::NoEffect,
        },
        Ok(Response::NoJoinAccept) => EffectView::Rejoin,
        Ok(Response::SessionExpired) => EffectView::Rejoin,
        Ok(Response::ReadyToSend) => EffectView::NoEffect,
        Ok(Response::NoUpdate) => EffectView::NoEffect,
        Ok(Response::UplinkSending(_)) => EffectView::NoEffect,
        Ok(Response::JoinRequestSending) => EffectView::NoEffect,
        Err(_) => EffectView::NoEffect,
    }
}

/// Whether the driver asks the engine for its decoded downlink after `reply`.
pub open spec fn wants_downlink(reply: EngineReply) -> bool {
    reply matches Ok(Response::DownlinkReceived(_))
}

/// View of an optional frame summary.
pub open spec fn summary_view(frame: Option<FrameSummary>) -> Option<FrameSummaryView> {
    match frame {
        Some(f) => Some(f@),
        None => None,
    }
}

/// Maps a reply of the protocol engine to the effect it calls for.
pub fn interpret(reply: EngineReply, frame: Option<FrameSummary>) -> (effect: Effect)
    ensures
        effect@ == effect_of(reply, summary_view(frame)),
{
    match reply {
        Ok(Response::TimeoutRequest(ms)) => Effect::ScheduleTimeout(ms),
        Ok(Response::JoinSuccess) => Effect::Signal(Signal::JoinSuccess),
        Ok(Response::NoAck) => Effect::Signal(Signal::NoAck),
        Ok(Response::DownlinkReceived(fcnt)) => match frame {
            Some(f) => Effect::Deliver(
                Delivery { fcnt, payload: f.payload, mac_commands: f.mac_commands },
            ),
            None => Effect::NoEffect,
        },
        Ok(Response::NoJoinAccept) => Effect::Rejoin,
        Ok(Response::SessionExpired) => Effect::Rejoin,
        _ => Effect::NoEffect,
    }
}

} // verus!
