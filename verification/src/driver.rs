use vstd::prelude::*;
use vstd::slice::slice_to_vec;
use crate::api::LoraDriver;
use crate::config::LoraConfig;
use crate::error::LoraError;
use crate::event::{EngineError, EngineReply, Event, PhyEvent, RadioEvent, Response, SendData};
use crate::frame::{summary_of, Downlink, FrameSummaryView};
use crate::interpret::{effect_of, interpret, wants_downlink, Effect, EffectView};
use crate::types::{ConnectMode, LoraRegion, Port, QoS, ResetMode};

verus! {

/// The band plan that an engine is made for: one for each band that a
/// configuration can name.
#[derive(Debug, Clone, Copy, PartialEq, Eq, Structural)]
pub enum BandPlan {
    EU868,
    US915,
    AU915,
    KR920,
    AS923,
    IN865,
}

/// What a protocol engine is made from, besides the radio handle and the
/// random source: the band plan, and the join identity as it goes on the air.
#[derive(Debug, Clone, Copy, PartialEq, Eq)]
pub struct EngineSetup {
    pub plan: BandPlan,
    pub dev_eui: [u8; 8],
    pub app_eui: [u8; 8],
    pub app_key: [u8; 16],
}

/// The default band plan, for a configuration that names no band.
pub open spec fn default_plan() -> BandPlan {
    BandPlan::EU868
}

/// The band plan that a configuration asks for: the plan of the band it
/// names, and the default where it sets none or sets the unknown band.
pub open spec fn plan_of(band: Option<LoraRegion>) -> BandPlan {
    match band {
        Some(LoraRegion::EU868) => BandPlan::EU868,
        Some(LoraRegion::US915) => BandPlan::US915,
        Some(LoraRegion::AU915) => BandPlan::AU915,
        Some(LoraRegion::KR920) => BandPlan::KR920,
        Some(LoraRegion::AS923) => BandPlan::AS923,
        Some(LoraRegion::IN865) => BandPlan::IN865,
        Some(LoraRegion::UNKNOWN) => default_plan(),
        None => default_plan(),
    }
}

/// Whether `setup` is what `config` asks the engine to be made from: its band
/// plan, both EUIs with their bytes reversed, and the application key as it is.
pub open spec fn is_setup_of(setup: EngineSetup, config: LoraConfig) -> bool {
    &&& config.has_join_identity()
    &&& setup.plan == plan_of(config.band)
    &&& setup.dev_eui@ == config.device_eui->0@.reverse()
    &&& setup.app_eui@ == config.app_eui->0@.reverse()
    &&& setup.app_key@ == config.app_key->0@
}

/// The two states of the driver: bound to a radio that has no network identity
/// yet, or configured, with a protocol engine that owns the radio.
pub enum DriverState<R, D> {
    Initialized(R),
    Configured(D),
}

/// One pass of an event through the engine: what the engine answered, and the
/// effect that the answer calls for.
#[derive(Debug, PartialEq, Eq)]
pub struct Cycle {
    pub reply: EngineReply,
    pub effect: Effect,
}

/// What became of an event that was handed to the driver.
#[derive(Debug, PartialEq, Eq)]
pub enum Dispatch {
    /// The driver is not configured: the event was dropped.
    Skipped,
    /// The engine handled the event.
    Handled(Cycle),
    /// The engine handled the event, its answer asked for a new session, and
    /// the engine handled the new session request that the driver fed back.
    Retried(Cycle, Cycle),
}

impl Dispatch {
    /// Whether the outcome ends on an answer that asks for a new session and
    /// no new session request has been fed back for it: the second of two
    /// passes reported a join without an accept or a session that ran out.
    pub fn owes_new_session(&self) -> (r: bool)
        ensures
            r == (self matches Dispatch::Retried(_, second) && second.effect@ is Rejoin),
    {
        match self {
            Dispatch::Retried(_, second) => match second.effect {
                Effect::Rejoin => true,
                _ => false,
            },
            _ => false,
        }
    }
}

/// Summary of the frame that the engine handed out, if it handed one out.
pub open spec fn fetched(frame: Option<Downlink>) -> Option<FrameSummaryView> {
    match frame {
        Some(f) => Some(summary_of(f@)),
        None => None,
    }
}

/// Whether interpreting `reply` may take the engine from `engine` to `next`
/// with the effect `effect`: after a received downlink the engine is asked
/// once for its frame, after any other reply it is left alone.
pub open spec fn interpreted<D, T: Fn(D) -> (D, Option<Downlink>)>(
    fetch: T,
    engine: D,
    reply: EngineReply,
    next: D,
    effect: EffectView,
) -> bool {
    if wants_downlink(reply) {
        exists|frame: Option<Downlink>| #[trigger]
            fetch.ensures((engine,), (next, frame)) && effect == effect_of(reply, fetched(frame))
    } else {
        next == engine && effect == effect_of(reply, None)
    }
}

/// Whether one pass of `event` may take the engine from `engine` to `next`
/// with the answer `reply` and the effect `effect`.
pub open spec fn cycled<D, S: Fn(D, Event) -> (D, EngineReply), T: Fn(D) -> (D, Option<Downlink>)>(
    step: S,
    fetch: T,
    engine: D,
    event: Event,
    next: D,
    reply: EngineReply,
    effect: EffectView,
) -> bool {
    exists|mid: D| #[trigger]
        step.ensures((engine, event), (mid, reply)) && interpreted(fetch, mid, reply, next, effect)
}

/// Whether handing `event` to a configured driver may take its engine from
/// `engine` to `next` with the outcome `out`: one pass, and after an answer
/// that asks for a new session exactly one more, of a new session request.
pub open spec fn dispatched<D, S: Fn(D, Event) -> (D, EngineReply), T: Fn(D) -> (D, Option<Downlink>)>(
    step: S,
    fetch: T,
    engine: D,
    event: Event,
    next: D,
    out: Dispatch,
) -> bool {
    match out {
        Dispatch::Skipped => false,
        Dispatch::Handled(c) => !(c.effect@ is Rejoin) && cycled(
            step,
            fetch,
            engine,
            event,
            next,
            c.reply,
            c.effect@,
        ),
        Dispatch::Retried(first, second) => first.effect@ is Rejoin && exists|mid: D| #[trigger]
            cycled(step, fetch, engine, event, mid, first.reply, first.effect@) && cycled(
                step,
                fetch,
                mid,
                Event::NewSessionRequest,
                next,
                second.reply,
                second.effect@,
            ),
    }
}

/// Whether the engine functions can be called wherever handing `event` to a
/// configured driver with the engine `engine` calls them: the step on the
/// engine and the event, then, on whatever engine comes of that, the taking
/// of the downlink and the step on a new session request.
pub open spec fn can_dispatch<D, S: Fn(D, Event) -> (D, EngineReply), T: Fn(D) -> (D, Option<Downlink>)>(
    step: S,
    fetch: T,
    engine: D,
    event: Event,
) -> bool {
    &&& step.requires((engine, event))
    &&& forall|d: D| step.requires((d, Event::NewSessionRequest))
    &&& forall|d: D| fetch.requires((d,))
}

/// Whether `request` is the send request for `data` on `port` with the
/// delivery guarantee `qos`.
pub open spec fn is_request(request: SendData, qos: QoS, port: Port, data: Seq<u8>) -> bool {
    request.data@ == data && request.fport == port && request.confirmed == (qos == QoS::Confirmed)
}

/// Whether configuring a driver in the state `before` with `config` may end
/// with the result `r` in the state `after`.
///
/// A bound driver whose configuration has the join identity becomes
/// configured, with the engine that `bind` makes from the radio, the setup
/// that the configuration asks for and the random source. A bound driver
/// whose configuration lacks a part of the identity stays bound and reports
/// that it is not initialized. A configured driver stays as it is and reports
/// the other error.
pub open spec fn configured<R, D, G, B: FnOnce(R, EngineSetup, G) -> D>(
    bind: B,
    before: DriverState<R, D>,
    config: LoraConfig,
    random: G,
    after: DriverState<R, D>,
    r: Result<(), LoraError>,
) -> bool {
    match before {
        DriverState::Configured(_) => r == Err::<(), LoraError>(LoraError::OtherError) && after
            == before,
        DriverState::Initialized(radio) => if config.has_join_identity() {
            r is Ok && after is Configured && exists|setup: EngineSetup| #[trigger]
                is_setup_of(setup, config) && bind.ensures(
                    (radio, setup, random),
                    after->Configured_0,
                )
        } else {
            r == Err::<(), LoraError>(LoraError::NotInitialized) && after == before
        },
    }
}

/// Configuring a bound driver with a configuration that lacks the device EUI,
/// the application EUI or the application key fails with `NotInitialized` and
/// leaves the driver bound to the radio it had.
pub proof fn incomplete_configuration_is_refused<R, D, G, B: FnOnce(R, EngineSetup, G) -> D>(
    bind: B,
    radio: R,
    config: LoraConfig,
    random: G,
    after: DriverState<R, D>,
    r: Result<(), LoraError>,
)
    requires
        config.device_eui is None || config.app_eui is None || config.app_key is None,
        configured(bind, DriverState::Initialized(radio), config, random, after, r),
    ensures
        r == Err::<(), LoraError>(LoraError::NotInitialized),
        after == DriverState::<R, D>::Initialized(radio),
{
}

/// Configuring a configured driver fails with `OtherError`, whatever the
/// configuration holds, and leaves the engine of the driver as it was.
pub proof fn second_configuration_is_refused<R, D, G, B: FnOnce(R, EngineSetup, G) -> D>(
    bind: B,
    engine: D,
    config: LoraConfig,
    random: G,
    after: DriverState<R, D>,
    r: Result<(), LoraError>,
)
    requires
        configured(bind, DriverState::Configured(engine), config, random, after, r),
    ensures
        r == Err::<(), LoraError>(LoraError::OtherError),
        after == DriverState::<R, D>::Configured(engine),
{
}

/// An event whose answer reports a join without an accept, or a session that
/// ran out, is followed by exactly one new session request: its outcome holds
/// two passes, never one.
pub proof fn lost_session_is_retried<
    D,
    S: Fn(D, Event) -> (D, EngineReply),
    T: Fn(D) -> (D, Option<Downlink>),
>(step: S, fetch: T, engine: D, event: Event, next: D, out: Dispatch)
    requires
        dispatched(step, fetch, engine, event, next, out),
    ensures
        out matches Dispatch::Handled(c) ==> c.reply != Ok::<Response, EngineError>(
            Response::NoJoinAccept,
        ) && c.reply != Ok::<Response, EngineError>(Response::SessionExpired),
        out matches Dispatch::Retried(first, _) ==> first.reply == Ok::<Response, EngineError>(
            Response::NoJoinAccept,
        ) || first.reply == Ok::<Response, EngineError>(Response::SessionExpired),
{
}

/// The driver: sole owner of the radio handle or, once configured, of the
/// protocol engine that has taken the radio over.
///
/// `R` is the radio handle, `D` the protocol engine, `G` the random source.
/// The work of the engine comes in as functions: one that makes it, one that
/// has it handle an event, one that takes its decoded downlink, one that asks
/// whether it can send.
pub struct Sx127xDriver<R, D, G> {
    state: Option<DriverState<R, D>>,
    get_random: G,
}

/// The pending transition of a driver to its configured state.
pub struct Sx127xConfigure<'a, R, D, G> {
    pub state: &'a mut Option<DriverState<R, D>>,
    pub config: &'a LoraConfig,
    pub get_random: G,
}

impl<R, D, G: Copy> Sx127xDriver<R, D, G> {
    /// The place that holds the state. It is empty only while an operation
    /// has taken the state out and not yet stored the next one.
    pub closed spec fn slot(&self) -> Option<DriverState<R, D>> {
        self.state
    }

    /// The driver holds a state. Every operation keeps this.
    pub open spec fn wf(&self) -> bool {
        self.slot() is Some
    }

    /// The state that the driver is in.
    pub open spec fn state(&self) -> DriverState<R, D> {
        self.slot()->0
    }

    /// The random source that the driver was made with.
    pub closed spec fn random_source(&self) -> G {
        self.get_random
    }

    /// Makes a driver from the outcome of binding the radio hardware: bound to
    /// the radio, or the failure of the binding.
    pub fn new(radio: Result<R, LoraError>, get_random: G) -> (r: Result<Self, LoraError>)
        ensures
            radio is Ok <==> r is Ok,
            radio is Err ==> r->Err_0 == radio->Err_0,
            radio is Ok ==> r->Ok_0.wf() && r->Ok_0.state() == DriverState::<R, D>::Initialized(
                radio->Ok_0,
            ) && r->Ok_0.random_source() == get_random,
    {
        match radio {
            Ok(radio) => Ok(Self { state: Some(DriverState::Initialized(radio)), get_random }),
            Err(e) => Err(e),
        }
    }

    /// Whether the driver holds a state, as it does between any two operations.
    pub fn holds_state(&self) -> (r: bool)
        ensures
            r == self.wf(),
    {
        self.state.is_some()
    }

    /// Whether the driver has been configured.
    pub fn is_configured(&self) -> (r: bool)
        requires
            self.wf(),
        ensures
            r == (self.state() is Configured),
    {
        match &self.state {
            Some(DriverState::Configured(_)) => true,
            _ => false,
        }
    }

    /// The radio handle, while the driver is bound and not configured.
    pub fn radio(&self) -> (r: Option<&R>)
        requires
            self.wf(),
        ensures
            r is Some <==> self.state() is Initialized,
            r is Some ==> *r->0 == self.state()->Initialized_0,
    {
        match &self.state {
            Some(DriverState::Initialized(radio)) => Some(radio),
            _ => None,
        }
    }

    /// The protocol engine, once the driver is configured.
    pub fn engine(&self) -> (r: Option<&D>)
        requires
            self.wf(),
        ensures
            r is Some <==> self.state() is Configured,
            r is Some ==> *r->0 == self.state()->Configured_0,
    {
        match &self.state {
            Some(DriverState::Configured(engine)) => Some(engine),
            _ => None,
        }
    }

    /// Turns one answer of the engine into the effect it calls for. After a
    /// received downlink the engine is asked for its decoded frame, whose
    /// payload and MAC command count go into the delivery; after any other
    /// answer the engine is not touched.
    pub fn process_response<T: Fn(D) -> (D, Option<Downlink>)>(
        &self,
        engine: D,
        reply: EngineReply,
        fetch: &T,
    ) -> (r: (D, Effect))
        requires
            wants_downlink(reply) ==> fetch.requires((engine,)),
        ensures
            interpreted(*fetch, engine, reply, r.0, r.1@),
    {
        match reply {
            Ok(Response::DownlinkReceived(_)) => {
                let (next, frame) = fetch(engine);
                let summary = match &frame {
                    Some(f) => Some(f.summary()),
                    None => None,
                };
                let effect = interpret(reply, summary);
                assert(fetch.ensures((engine,), (next, frame)) && effect@ == effect_of(
                    reply,
                    fetched(frame),
                ));
                (next, effect)
            },
            _ => {
                let effect = interpret(reply, None);
                (engine, effect)
            },
        }
    }

    /// One pass of `event` through the engine.
    fn cycle<S: Fn(D, Event) -> (D, EngineReply), T: Fn(D) -> (D, Option<Downlink>)>(
        &self,
        engine: D,
        event: Event,
        step: &S,
        fetch: &T,
    ) -> (r: (D, Cycle))
        requires
            step.requires((engine, event)),
            forall|d: D| fetch.requires((d,)),
        ensures
            cycled(*step, *fetch, engine, event, r.0, r.1.reply, r.1.effect@),
    {
        let (mid, reply) = step(engine, event);
        let (next, effect) = self.process_response(mid, reply, fetch);
        assert(step.ensures((engine, event), (mid, reply)) && interpreted(
            *fetch,
            mid,
            reply,
            next,
            effect@,
        ));
        (next, Cycle { reply, effect })
    }

    /// Hands `event` to the engine and interprets the answer.
    ///
    /// A configured driver takes its engine out, has it handle the event, and
    /// stores it back; where the answer asks for a new session, the engine
    /// handles one new session request before it is stored back. A driver
    /// that is not configured drops the event and stays as it is.
    pub fn process_event<S: Fn(D, Event) -> (D, EngineReply), T: Fn(D) -> (D, Option<Downlink>)>(
        &mut self,
        event: Event,
        step: &S,
        fetch: &T,
    ) -> (out: Dispatch)
        requires
            old(self).wf(),
            old(self).state() is Configured ==> can_dispatch(
                *step,
                *fetch,
                old(self).state()->Configured_0,
                event,
            ),
        ensures
            final(self).wf(),
            final(self).random_source() == old(self).random_source(),
            old(self).state() is Initialized ==> out is Skipped
                && final(self).state() == old(self).state(),
            old(self).state() is Configured ==> final(self).state() is Configured && dispatched(
                *step,
                *fetch,
                old(self).state()->Configured_0,
                event,
                final(self).state()->Configured_0,
                out,
            ),
    {
        match self.state.take() {
            Some(DriverState::Configured(engine)) => {
                let (mid, first) = self.cycle(engine, event, step, fetch);
                match first.effect {
                    Effect::Rejoin => {
                        let (next, second) = self.cycle(mid, Event::NewSessionRequest, step, fetch);
                        self.state = Some(DriverState::Configured(next));
                        assert(cycled(
                            *step,
                            *fetch,
                            engine,
                            event,
                            mid,
                            first.reply,
                            first.effect@,
                        ) && cycled(
                            *step,
                            *fetch,
                            mid,
                            Event::NewSessionRequest,
                            next,
                            second.reply,
                            second.effect@,
                        ));
                        Dispatch::Retried(first, second)
                    },
                    _ => {
                        self.state = Some(DriverState::Configured(mid));
                        Dispatch::Handled(first)
                    },
                }
            },
            other => {
                self.state = other;
                Dispatch::Skipped
            },
        }
    }

    /// Feeds the interrupt of the transceiver to the engine.
    pub fn handle_interrupt<S: Fn(D, Event) -> (D, EngineReply), T: Fn(D) -> (D, Option<Downlink>)>(
        &mut self,
        step: &S,
        fetch: &T,
    ) -> (out: Dispatch)
        requires
            old(self).wf(),
            old(self).state() is Configured ==> can_dispatch(
                *step,
                *fetch,
                old(self).state()->Configured_0,
                Event::RadioEvent(RadioEvent::PhyEvent(PhyEvent::Irq)),
            ),
        ensures
            final(self).wf(),
            final(self).random_source() == old(self).random_source(),
            old(self).state() is Initialized ==> out is Skipped
                && final(self).state() == old(self).state(),
            old(self).state() is Configured ==> final(self).state() is Configured && dispatched(
                *step,
                *fetch,
                old(self).state()->Configured_0,
                Event::RadioEvent(RadioEvent::PhyEvent(PhyEvent::Irq)),
                final(self).state()->Configured_0,
                out,
            ),
    {
        self.process_event(Event::RadioEvent(RadioEvent::PhyEvent(PhyEvent::Irq)), step, fetch)
    }
}

impl<R, D, G: Copy> Sx127xDriver<R, D, G> {
    /// Asks the engine for a new session, by over-the-air activation.
    ///
    /// A driver that is not configured refuses with `OtherError` and stays as
    /// it is. Activation by personalisation is not implemented.
    pub fn join<S: Fn(D, Event) -> (D, EngineReply), T: Fn(D) -> (D, Option<Downlink>)>(
        &mut self,
        mode: ConnectMode,
        step: &S,
        fetch: &T,
    ) -> (r: Result<Dispatch, LoraError>)
        requires
            old(self).wf(),
            mode == ConnectMode::OTAA && old(self).state() is Configured ==> can_dispatch(
                *step,
                *fetch,
                old(self).state()->Configured_0,
                Event::NewSessionRequest,
            ),
        ensures
            final(self).wf(),
            final(self).random_source() == old(self).random_source(),
            mode == ConnectMode::ABP ==> r is Err && r->Err_0 == LoraError::NotImplemented
                && final(self).state() == old(self).state(),
            mode == ConnectMode::OTAA && old(self).state() is Initialized ==> r is Err && r->Err_0
                == LoraError::OtherError && final(self).state() == old(self).state(),
            mode == ConnectMode::OTAA && old(self).state() is Configured ==> r is Ok
                && final(self).state() is Configured && dispatched(
                *step,
                *fetch,
                old(self).state()->Configured_0,
                Event::NewSessionRequest,
                final(self).state()->Configured_0,
                r->Ok_0,
            ),
    {
        match mode {
            ConnectMode::ABP => Err(LoraError::NotImplemented),
            ConnectMode::OTAA => {
                match self.process_event(Event::NewSessionRequest, step, fetch) {
                    Dispatch::Skipped => Err(LoraError::OtherError),
                    out => Ok(out),
                }
            },
        }
    }

    /// Sends `data` on `port`, confirmed or not as `qos` says.
    ///
    /// A driver that is not configured refuses with `OtherError`. A configured
    /// driver asks its engine whether it can send: if not, it refuses with
    /// `SendError` and the engine is not touched; if so, the engine handles
    /// the send request.
    pub fn send<
        Q: Fn(&D) -> bool,
        S: Fn(D, Event) -> (D, EngineReply),
        T: Fn(D) -> (D, Option<Downlink>),
    >(&mut self, qos: QoS, port: Port, data: &[u8], ready: &Q, step: &S, fetch: &T) -> (r: Result<
        Dispatch,
        LoraError,
    >)
        requires
            old(self).wf(),
            old(self).state() is Configured ==> ready.requires((&old(self).state()->Configured_0,)),
            old(self).state() is Configured ==> forall|request: SendData| #[trigger]
                is_request(request, qos, port, data@) ==> can_dispatch(
                    *step,
                    *fetch,
                    old(self).state()->Configured_0,
                    Event::SendDataRequest(request),
                ),
        ensures
            final(self).wf(),
            final(self).random_source() == old(self).random_source(),
            old(self).state() is Initialized ==> r is Err && r->Err_0 == LoraError::OtherError
                && final(self).state() == old(self).state(),
            old(self).state() is Configured && r is Err ==> r->Err_0 == LoraError::SendError
                && final(self).state() == old(self).state() && ready.ensures(
                (&old(self).state()->Configured_0,),
                false,
            ),
            old(self).state() is Configured && r is Ok ==> ready.ensures(
                (&old(self).state()->Configured_0,),
                true,
            ) && final(self).state() is Configured && exists|request: SendData| #[trigger]
                is_request(request, qos, port, data@) && dispatched(
                    *step,
                    *fetch,
                    old(self).state()->Configured_0,
                    Event::SendDataRequest(request),
                    final(self).state()->Configured_0,
                    r->Ok_0,
                ),
    {
        let can_send = match &self.state {
            Some(DriverState::Configured(engine)) => ready(engine),
            _ => {
                return Err(LoraError::OtherError);
            },
        };
        if !can_send {
            return Err(LoraError::SendError);
        }
        let request = SendData {
            data: slice_to_vec(data),
            fport: port,
            confirmed: match qos {
                QoS::Confirmed => true,
                QoS::Unconfirmed => false,
            },
        };
        assert(is_request(request, qos, port, data@));
        let out = self.process_event(Event::SendDataRequest(request), step, fetch);
        Ok(out)
    }

    /// Resetting the module is not implemented: the driver stays as it is.
    pub fn reset(&mut self, mode: ResetMode) -> (r: Result<(), LoraError>)
        ensures
            r == Err::<(), LoraError>(LoraError::NotImplemented),
            *final(self) == *old(self),
    {
        Err(LoraError::NotImplemented)
    }

    /// Sending and waiting for the data that comes with the confirmation is
    /// not implemented: the driver and the buffer stay as they are.
    pub fn send_recv(&mut self, qos: QoS, port: Port, data: &[u8], rx: &mut [u8]) -> (r: Result<
        usize,
        LoraError,
    >)
        ensures
            r == Err::<usize, LoraError>(LoraError::NotImplemented),
            *final(self) == *old(self),
            final(rx)@ == old(rx)@,
    {
        Err(LoraError::NotImplemented)
    }
}

impl<R, D, G: Copy> Sx127xDriver<R, D, G> {
    /// Starts the transition to the configured state. The operation has
    /// exclusive access to the driver until it is polled or dropped.
    pub fn configure<'a>(&'a mut self, config: &'a LoraConfig) -> (op: Sx127xConfigure<'a, R, D, G>)
        ensures
            *op.state == old(self).slot(),
            op.config == config,
            op.get_random == old(self).random_source(),
            final(self).slot() == *final(op.state),
            final(self).random_source() == old(self).random_source(),
    {
        Sx127xConfigure { state: &mut self.state, config, get_random: self.get_random }
    }
}

impl<'a, R: 'a, D: 'a, G: Copy> LoraDriver<'a> for Sx127xDriver<R, D, G> {
    type ConfigureFuture = Sx127xConfigure<'a, R, D, G>;

    fn configure(&'a mut self, config: &'a LoraConfig) -> (op: Sx127xConfigure<'a, R, D, G>)
        ensures
            *op.state == old(self).slot(),
            op.config == config,
            op.get_random == old(self).random_source(),
            final(self).slot() == *final(op.state),
            final(self).random_source() == old(self).random_source(),
    {
        Sx127xDriver::configure(self, config)
    }
}

impl<'a, R, D, G: Copy> Sx127xConfigure<'a, R, D, G> {
    /// Makes the transition, in one step: the operation is done when this
    /// returns.
    pub fn poll<B: FnOnce(R, EngineSetup, G) -> D>(self, bind: B) -> (r: Result<(), LoraError>)
        requires
            *old(self.state) is Some,
            forall|setup: EngineSetup|
                (*old(self.state))->0 is Initialized && #[trigger] is_setup_of(setup, *self.config)
                    ==> bind.requires(
                    ((*old(self.state))->0->Initialized_0, setup, self.get_random),
                ),
        ensures
            *final(self.state) is Some,
            configured(
                bind,
                (*old(self.state))->0,
                *self.config,
                self.get_random,
                (*final(self.state))->0,
                r,
            ),
    {
        match self.state.take() {
            Some(DriverState::Initialized(radio)) => {
                match (self.config.device_eui, self.config.app_eui, self.config.app_key) {
                    (Some(dev_eui), Some(app_eui), Some(app_key)) => {
                        let plan = match self.config.band {
                            Some(LoraRegion::EU868) => BandPlan::EU868,
                            Some(LoraRegion::US915) => BandPlan::US915,
                            Some(LoraRegion::AU915) => BandPlan::AU915,
                            Some(LoraRegion::KR920) => BandPlan::KR920,
                            Some(LoraRegion::AS923) => BandPlan::AS923,
                            Some(LoraRegion::IN865) => BandPlan::IN865,
                            Some(LoraRegion::UNKNOWN) => BandPlan::EU868,
                            None => BandPlan::EU868,
                        };
                        let setup = EngineSetup {
                            plan,
                            dev_eui: dev_eui.reverse().bytes(),
                            app_eui: app_eui.reverse().bytes(),
                            app_key: app_key.bytes(),
                        };
                        assert(is_setup_of(setup, *self.config));
                        let engine = bind(radio, setup, self.get_random);
                        *self.state = Some(DriverState::Configured(engine));
                        Ok(())
                    },
                    _ => {
                        *self.state = Some(DriverState::Initialized(radio));
                        Err(LoraError::NotInitialized)
                    },
                }
            },
            other => {
                *self.state = other;
                Err(LoraError::OtherError)
            },
        }
    }
}

} // verus!
