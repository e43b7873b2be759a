use vstd::prelude::*;
use crate::types::Port;

verus! {

/// Channel bandwidth of a radio configuration.
#[derive(Debug, Clone, Copy, PartialEq, Eq, Structural)]
pub enum Bandwidth {
    Khz125,
    Khz250,
    Khz500,
}

/// Spreading factor of a radio configuration.
#[derive(Debug, Clone, Copy, PartialEq, Eq, Structural)]
pub enum SpreadingFactor {
    Sf7,
    Sf8,
    Sf9,
    Sf10,
    Sf11,
    Sf12,
}

/// Coding rate of a radio configuration.
#[derive(Debug, Clone, Copy, PartialEq, Eq, Structural)]
pub enum CodingRate {
    Cr4_5,
    Cr4_6,
    Cr4_7,
    Cr4_8,
}

/// Settings of the radio for one reception.
#[derive(Debug, Clone, Copy, PartialEq, Eq, Structural)]
pub struct RfConfig {
    pub frequency: u32,
    pub bandwidth: Bandwidth,
    pub spreading_factor: SpreadingFactor,
    pub coding_rate: CodingRate,
}

/// Settings of the radio for one transmission.
#[derive(Debug, Clone, Copy, PartialEq, Eq, Structural)]
pub struct TxConfig {
    pub pw: i8,
    pub rf: RfConfig,
}

/// What the transceiver reports through its interrupt line.
#[derive(Debug, Clone, Copy, PartialEq, Eq, Structural)]
pub enum PhyEvent {
    Irq,
}

/// An event of the radio layer.
#[derive(Debug, PartialEq, Eq)]
pub enum RadioEvent {
    TxRequest(TxConfig, Vec<u8>),
    RxRequest(RfConfig),
    CancelRx,
    PhyEvent(PhyEvent),
}

/// An application payload waiting to be sent.
#[derive(Debug, PartialEq, Eq)]
pub struct SendData {
    pub data: Vec<u8>,
    pub fport: Port,
    pub confirmed: bool,
}

/// What is fed into the protocol engine. Events are transient: the driver
/// hands each one to the engine and keeps none.
#[derive(Debug, PartialEq, Eq)]
pub enum Event {
    NewSessionRequest,
    RadioEvent(RadioEvent),
    TimeoutFired,
    SendDataRequest(SendData),
}

/// What the protocol engine answers to an event it has handled.
#[derive(Debug, Clone, Copy, PartialEq, Eq, Structural)]
pub enum Response {
    NoUpdate,
    TimeoutRequest(u32),
    JoinRequestSending,
    JoinSuccess,
    NoJoinAccept,
    UplinkSending(u32),
    DownlinkReceived(u32),
    NoAck,
    ReadyToSend,
    SessionExpired,
}

/// The layer of the protocol engine that refused an event.
#[derive(Debug, Clone, Copy, PartialEq, Eq, Structural)]
pub enum EngineError {
    Radio,
    Session,
    NoSession,
}

/// Outcome of one event-handling step of the protocol engine.
pub type EngineReply = Result<Response, EngineError>;

} // verus!
