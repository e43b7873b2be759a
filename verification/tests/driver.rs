use lora_driver::api::LoraDriver;
use lora_driver::config::LoraConfig;
use lora_driver::driver::{BandPlan, Cycle, Dispatch, EngineSetup, Sx127xDriver};
use lora_driver::error::LoraError;
use lora_driver::event::{
    EngineError, EngineReply, Event, PhyEvent, RadioEvent, Response, SendData,
};
use lora_driver::frame::Downlink;
use lora_driver::interpret::{Delivery, Effect, Signal};
use lora_driver::types::{AppKey, ConnectMode, LoraRegion, QoS, ResetMode, EUI};

#[derive(Debug, Clone, PartialEq, Eq)]
struct Radio {
    id: u32,
}

#[derive(Debug, PartialEq, Eq)]
struct Engine {
    radio: Radio,
    setup: EngineSetup,
    random: u32,
    seen: Vec<Event>,
    script: Vec<EngineReply>,
    frame: Option<Vec<u8>>,
    fetched: usize,
    ready: bool,
}

type Driver = Sx127xDriver<Radio, Engine, u32>;

fn bind(radio: Radio, setup: EngineSetup, random: u32) -> Engine {
    Engine {
        radio,
        setup,
        random,
        seen: Vec::new(),
        script: Vec::new(),
        frame: None,
        fetched: 0,
        ready: true,
    }
}

fn step(mut engine: Engine, event: Event) -> (Engine, EngineReply) {
    engine.seen.push(event);
    let reply = if engine.script.is_empty() {
        Ok(Response::NoUpdate)
    } else {
        engine.script.remove(0)
    };
    (engine, reply)
}

fn fetch(mut engine: Engine) -> (Engine, Option<Downlink>) {
    engine.fetched += 1;
    let frame = engine.frame.take().and_then(Downlink::new);
    (engine, frame)
}

fn ready(engine: &Engine) -> bool {
    engine.ready
}

fn full_config() -> LoraConfig {
    LoraConfig::new()
        .device_eui(&EUI::from("0102030405060708").unwrap())
        .app_eui(&EUI::from("1112131415161718").unwrap())
        .app_key(&AppKey::from("000102030405060708090a0b0c0d0e0f").unwrap())
}

fn bound() -> Driver {
    Sx127xDriver::new(Ok(Radio { id: 7 }), 42).unwrap()
}

fn configured_with(script: Vec<EngineReply>, frame: Option<Vec<u8>>) -> Driver {
    let mut driver = bound();
    let config = full_config();
    let made = driver.configure(&config).poll(move |radio, setup, random| {
        let mut engine = bind(radio, setup, random);
        engine.script = script;
        engine.frame = frame;
        engine
    });
    assert_eq!(made, Ok(()));
    driver
}

fn irq() -> Event {
    Event::RadioEvent(RadioEvent::PhyEvent(PhyEvent::Irq))
}

fn downlink_frame() -> Vec<u8> {
    vec![0x60, 0x04, 0x03, 0x02, 0x01, 0x00, 0x05, 0x00, 0x01, 0xaa, 0xbb, 0xd1, 0xd2, 0xd3, 0xd4]
}

#[test]
fn new_driver_is_bound_to_its_radio() {
    let driver = bound();
    assert!(!driver.is_configured());
    assert_eq!(driver.radio(), Some(&Radio { id: 7 }));
    assert_eq!(driver.engine(), None);
}

#[test]
fn failure_of_the_hardware_binding_is_handed_on() {
    let failed: Result<Driver, LoraError> = Sx127xDriver::new(Err(LoraError::OtherError), 42);
    assert_eq!(failed.err(), Some(LoraError::OtherError));
    let failed: Result<Driver, LoraError> = Sx127xDriver::new(Err(LoraError::RecvTimeout), 42);
    assert_eq!(failed.err(), Some(LoraError::RecvTimeout));
}

#[test]
fn configure_without_device_eui_is_not_initialized() {
    let full = full_config();
    let config = LoraConfig { device_eui: None, ..full };
    let mut driver = bound();
    assert_eq!(driver.configure(&config).poll(bind), Err(LoraError::NotInitialized));
    assert!(!driver.is_configured());
    assert_eq!(driver.radio(), Some(&Radio { id: 7 }));
}

#[test]
fn configure_without_app_eui_is_not_initialized() {
    let full = full_config();
    let config = LoraConfig { app_eui: None, ..full };
    let mut driver = bound();
    assert_eq!(driver.configure(&config).poll(bind), Err(LoraError::NotInitialized));
    assert!(!driver.is_configured());
    assert_eq!(driver.radio(), Some(&Radio { id: 7 }));
}

#[test]
fn configure_without_app_key_is_not_initialized() {
    let full = full_config();
    let config = LoraConfig { app_key: None, ..full };
    let mut driver = bound();
    assert_eq!(driver.configure(&config).poll(bind), Err(LoraError::NotInitialized));
    assert!(!driver.is_configured());
    assert_eq!(driver.radio(), Some(&Radio { id: 7 }));
}

#[test]
fn configure_with_nothing_set_is_not_initialized() {
    let mut driver = bound();
    assert_eq!(driver.configure(&LoraConfig::new()).poll(bind), Err(LoraError::NotInitialized));
    assert!(!driver.is_configured());
    // the driver can still be configured afterwards
    assert_eq!(driver.configure(&full_config()).poll(bind), Ok(()));
    assert!(driver.is_configured());
}

#[test]
fn full_configuration_configures_and_a_second_attempt_changes_nothing() {
    let mut driver = bound();
    assert_eq!(driver.configure(&full_config()).poll(bind), Ok(()));
    assert!(driver.is_configured());
    assert_eq!(driver.radio(), None);
    let engine = format!("{:?}", driver.engine());

    let other = full_config().band(LoraRegion::US915);
    assert_eq!(driver.configure(&other).poll(bind), Err(LoraError::OtherError));
    assert!(driver.is_configured());
    assert_eq!(format!("{:?}", driver.engine()), engine);
    assert_eq!(driver.engine().unwrap().setup.plan, BandPlan::EU868);

    assert_eq!(driver.configure(&LoraConfig::new()).poll(bind), Err(LoraError::OtherError));
    assert_eq!(format!("{:?}", driver.engine()), engine);
}

#[test]
fn engine_is_made_from_radio_reversed_euis_key_and_random_source() {
    let mut driver = bound();
    assert_eq!(driver.configure(&full_config()).poll(bind), Ok(()));
    let engine = driver.engine().unwrap();
    assert_eq!(engine.radio, Radio { id: 7 });
    assert_eq!(engine.random, 42);
    assert_eq!(
        engine.setup,
        EngineSetup {
            plan: BandPlan::EU868,
            dev_eui: [8, 7, 6, 5, 4, 3, 2, 1],
            app_eui: [0x18, 0x17, 0x16, 0x15, 0x14, 0x13, 0x12, 0x11],
            app_key: [0, 1, 2, 3, 4, 5, 6, 7, 8, 9, 10, 11, 12, 13, 14, 15],
        }
    );
}

#[test]
fn configuration_without_a_band_gets_the_default_plan() {
    let mut driver = bound();
    assert_eq!(full_config().band, None);
    assert_eq!(driver.configure(&full_config()).poll(bind), Ok(()));
    assert_eq!(driver.engine().unwrap().setup.plan, BandPlan::EU868);
}

#[test]
fn band_of_the_configuration_selects_the_plan_of_the_engine() {
    let plans = [
        (LoraRegion::EU868, BandPlan::EU868),
        (LoraRegion::US915, BandPlan::US915),
        (LoraRegion::AU915, BandPlan::AU915),
        (LoraRegion::KR920, BandPlan::KR920),
        (LoraRegion::AS923, BandPlan::AS923),
        (LoraRegion::IN865, BandPlan::IN865),
        (LoraRegion::UNKNOWN, BandPlan::EU868),
    ];
    for (band, plan) in plans {
        let mut driver = bound();
        let config = full_config().band(band);
        assert_eq!(driver.configure(&config).poll(bind), Ok(()));
        assert_eq!(driver.engine().unwrap().setup.plan, plan);
    }
}

#[test]
fn configure_through_the_driver_trait_is_the_same_operation() {
    let mut driver = bound();
    let config = full_config();
    assert_eq!(LoraDriver::configure(&mut driver, &config).poll(bind), Ok(()));
    assert!(driver.is_configured());
    assert_eq!(
        LoraDriver::configure(&mut driver, &config).poll(bind),
        Err(LoraError::OtherError)
    );
    let mut driver = bound();
    let empty = LoraConfig::new();
    assert_eq!(
        LoraDriver::configure(&mut driver, &empty).poll(bind),
        Err(LoraError::NotInitialized)
    );
    assert!(!driver.is_configured());
}

#[test]
fn dropped_configure_operation_leaves_the_driver_as_it_was() {
    let mut driver = bound();
    let config = full_config();
    {
        let _pending = driver.configure(&config);
    }
    assert!(!driver.is_configured());
    assert_eq!(driver.radio(), Some(&Radio { id: 7 }));
}

#[test]
fn interrupt_before_configuration_is_dropped() {
    let mut driver = bound();
    assert_eq!(driver.handle_interrupt(&step, &fetch), Dispatch::Skipped);
    assert!(!driver.is_configured());
    assert_eq!(driver.radio(), Some(&Radio { id: 7 }));
}

#[test]
fn event_before_configuration_is_dropped() {
    let mut driver = bound();
    assert_eq!(driver.process_event(Event::TimeoutFired, &step, &fetch), Dispatch::Skipped);
    assert_eq!(driver.process_event(Event::NewSessionRequest, &step, &fetch), Dispatch::Skipped);
    assert_eq!(driver.radio(), Some(&Radio { id: 7 }));
}

#[test]
fn interrupt_goes_to_the_engine_as_a_physical_event() {
    let mut driver = configured_with(vec![Ok(Response::TimeoutRequest(5000))], None);
    assert_eq!(
        driver.handle_interrupt(&step, &fetch),
        Dispatch::Handled(Cycle {
            reply: Ok(Response::TimeoutRequest(5000)),
            effect: Effect::ScheduleTimeout(5000),
        })
    );
    let engine = driver.engine().unwrap();
    assert_eq!(engine.seen, vec![irq()]);
    assert_eq!(engine.fetched, 0);
}

#[test]
fn every_event_reaches_the_engine_unchanged() {
    let mut driver = configured_with(Vec::new(), None);
    let send = || Event::SendDataRequest(SendData { data: vec![1, 2], fport: 3, confirmed: true });
    driver.process_event(Event::TimeoutFired, &step, &fetch);
    driver.process_event(send(), &step, &fetch);
    driver.process_event(Event::RadioEvent(RadioEvent::CancelRx), &step, &fetch);
    assert_eq!(
        driver.engine().unwrap().seen,
        vec![Event::TimeoutFired, send(), Event::RadioEvent(RadioEvent::CancelRx)]
    );
}

#[test]
fn received_downlink_is_delivered_once_with_payload_and_frame_counter() {
    let mut driver =
        configured_with(vec![Ok(Response::DownlinkReceived(5))], Some(downlink_frame()));
    assert_eq!(
        driver.handle_interrupt(&step, &fetch),
        Dispatch::Handled(Cycle {
            reply: Ok(Response::DownlinkReceived(5)),
            effect: Effect::Deliver(Delivery {
                fcnt: 5,
                payload: Some(vec![0xaa, 0xbb]),
                mac_commands: 0,
            }),
        })
    );
    let engine = driver.engine().unwrap();
    assert_eq!(engine.fetched, 1);
    assert_eq!(engine.frame, None);
}

#[test]
fn mac_commands_of_a_downlink_are_counted_beside_the_payload() {
    let frame = vec![
        0x60, 0x04, 0x03, 0x02, 0x01, 0x04, 0x05, 0x00, 0x04, 0x0f, 0x08, 0x01, 0x01, 0xaa, 0xbb,
        0xd1, 0xd2, 0xd3, 0xd4,
    ];
    let mut driver = configured_with(vec![Ok(Response::DownlinkReceived(5))], Some(frame));
    assert_eq!(
        driver.handle_interrupt(&step, &fetch),
        Dispatch::Handled(Cycle {
            reply: Ok(Response::DownlinkReceived(5)),
            effect: Effect::Deliver(Delivery {
                fcnt: 5,
                payload: Some(vec![0xaa, 0xbb]),
                mac_commands: 2,
            }),
        })
    );
}

#[test]
fn received_downlink_without_a_frame_has_no_effect() {
    let mut driver = configured_with(vec![Ok(Response::DownlinkReceived(9))], None);
    assert_eq!(
        driver.handle_interrupt(&step, &fetch),
        Dispatch::Handled(Cycle {
            reply: Ok(Response::DownlinkReceived(9)),
            effect: Effect::NoEffect,
        })
    );
    assert_eq!(driver.engine().unwrap().fetched, 1);
}

#[test]
fn frame_is_left_with_the_engine_unless_a_downlink_was_received() {
    let mut driver = configured_with(vec![Ok(Response::NoUpdate)], Some(downlink_frame()));
    driver.handle_interrupt(&step, &fetch);
    let engine = driver.engine().unwrap();
    assert_eq!(engine.fetched, 0);
    assert_eq!(engine.frame, Some(downlink_frame()));
}

#[test]
fn no_join_accept_feeds_back_exactly_one_new_session_request() {
    let mut driver = configured_with(
        vec![Ok(Response::NoJoinAccept), Ok(Response::JoinRequestSending)],
        None,
    );
    assert_eq!(
        driver.process_event(Event::TimeoutFired, &step, &fetch),
        Dispatch::Retried(
            Cycle { reply: Ok(Response::NoJoinAccept), effect: Effect::Rejoin },
            Cycle { reply: Ok(Response::JoinRequestSending), effect: Effect::NoEffect },
        )
    );
    assert_eq!(
        driver.engine().unwrap().seen,
        vec![Event::TimeoutFired, Event::NewSessionRequest]
    );
}

#[test]
fn expired_session_feeds_back_exactly_one_new_session_request() {
    let mut driver = configured_with(
        vec![Ok(Response::SessionExpired), Ok(Response::TimeoutRequest(100))],
        None,
    );
    assert_eq!(
        driver.handle_interrupt(&step, &fetch),
        Dispatch::Retried(
            Cycle { reply: Ok(Response::SessionExpired), effect: Effect::Rejoin },
            Cycle {
                reply: Ok(Response::TimeoutRequest(100)),
                effect: Effect::ScheduleTimeout(100),
            },
        )
    );
    assert_eq!(driver.engine().unwrap().seen, vec![irq(), Event::NewSessionRequest]);
}

#[test]
fn retry_is_not_retried_again_within_one_dispatch() {
    let mut driver = configured_with(
        vec![Ok(Response::NoJoinAccept), Ok(Response::NoJoinAccept), Ok(Response::JoinSuccess)],
        None,
    );
    assert_eq!(
        driver.process_event(Event::TimeoutFired, &step, &fetch),
        Dispatch::Retried(
            Cycle { reply: Ok(Response::NoJoinAccept), effect: Effect::Rejoin },
            Cycle { reply: Ok(Response::NoJoinAccept), effect: Effect::Rejoin },
        )
    );
    let engine = driver.engine().unwrap();
    assert_eq!(engine.seen, vec![Event::TimeoutFired, Event::NewSessionRequest]);
    assert_eq!(engine.script, vec![Ok(Response::JoinSuccess)]);
}

#[test]
fn outcome_says_when_a_new_session_request_is_still_owed() {
    let rejoin = || Cycle { reply: Ok(Response::NoJoinAccept), effect: Effect::Rejoin };
    let expired = || Cycle { reply: Ok(Response::SessionExpired), effect: Effect::Rejoin };
    let sending = || Cycle { reply: Ok(Response::JoinRequestSending), effect: Effect::NoEffect };
    assert!(Dispatch::Retried(rejoin(), rejoin()).owes_new_session());
    assert!(Dispatch::Retried(expired(), expired()).owes_new_session());
    assert!(!Dispatch::Retried(rejoin(), sending()).owes_new_session());
    assert!(!Dispatch::Handled(sending()).owes_new_session());
    assert!(!Dispatch::Skipped.owes_new_session());

    let mut driver = configured_with(
        vec![Ok(Response::NoJoinAccept), Ok(Response::NoJoinAccept), Ok(Response::JoinRequestSending)],
        None,
    );
    let first = driver.process_event(Event::TimeoutFired, &step, &fetch);
    assert!(first.owes_new_session());
    let second = driver.process_event(Event::NewSessionRequest, &step, &fetch);
    assert!(!second.owes_new_session());
    assert_eq!(second, Dispatch::Handled(sending()));
    assert_eq!(
        driver.engine().unwrap().seen,
        vec![Event::TimeoutFired, Event::NewSessionRequest, Event::NewSessionRequest]
    );
}

#[test]
fn error_of_the_engine_is_absorbed() {
    let mut driver = configured_with(
        vec![Err(EngineError::Radio), Err(EngineError::Session), Err(EngineError::NoSession)],
        None,
    );
    for error in [EngineError::Radio, EngineError::Session, EngineError::NoSession] {
        assert_eq!(
            driver.handle_interrupt(&step, &fetch),
            Dispatch::Handled(Cycle { reply: Err(error), effect: Effect::NoEffect })
        );
        assert!(driver.is_configured());
    }
    assert_eq!(driver.engine().unwrap().seen, vec![irq(), irq(), irq()]);
}

#[test]
fn join_success_is_signalled() {
    let mut driver = configured_with(vec![Ok(Response::JoinSuccess)], None);
    assert_eq!(
        driver.handle_interrupt(&step, &fetch),
        Dispatch::Handled(Cycle {
            reply: Ok(Response::JoinSuccess),
            effect: Effect::Signal(Signal::JoinSuccess),
        })
    );
}

#[test]
fn process_response_takes_the_frame_only_after_a_downlink() {
    let driver = bound();
    let mut engine = bind(Radio { id: 1 }, driver_setup(), 0);
    engine.frame = Some(downlink_frame());

    let (engine, effect) = driver.process_response(engine, Ok(Response::NoAck), &fetch);
    assert_eq!(effect, Effect::Signal(Signal::NoAck));
    assert_eq!(engine.fetched, 0);

    let (engine, effect) = driver.process_response(engine, Ok(Response::DownlinkReceived(5)), &fetch);
    assert_eq!(
        effect,
        Effect::Deliver(Delivery { fcnt: 5, payload: Some(vec![0xaa, 0xbb]), mac_commands: 0 })
    );
    assert_eq!(engine.fetched, 1);
    assert_eq!(engine.frame, None);
}

fn driver_setup() -> EngineSetup {
    EngineSetup { plan: BandPlan::EU868, dev_eui: [0; 8], app_eui: [0; 8], app_key: [0; 16] }
}

#[test]
fn join_over_the_air_hands_a_new_session_request_to_the_engine() {
    let mut driver = configured_with(vec![Ok(Response::JoinRequestSending)], None);
    assert_eq!(
        driver.join(ConnectMode::OTAA, &step, &fetch),
        Ok(Dispatch::Handled(Cycle {
            reply: Ok(Response::JoinRequestSending),
            effect: Effect::NoEffect,
        }))
    );
    assert_eq!(driver.engine().unwrap().seen, vec![Event::NewSessionRequest]);
}

#[test]
fn join_before_configuration_is_refused() {
    let mut driver = bound();
    assert_eq!(driver.join(ConnectMode::OTAA, &step, &fetch), Err(LoraError::OtherError));
    assert_eq!(driver.radio(), Some(&Radio { id: 7 }));
}

#[test]
fn join_by_personalisation_is_not_implemented() {
    let mut driver = configured_with(Vec::new(), None);
    assert_eq!(driver.join(ConnectMode::ABP, &step, &fetch), Err(LoraError::NotImplemented));
    assert!(driver.engine().unwrap().seen.is_empty());
    let mut driver = bound();
    assert_eq!(driver.join(ConnectMode::ABP, &step, &fetch), Err(LoraError::NotImplemented));
}

#[test]
fn send_hands_a_send_request_to_a_ready_engine() {
    let mut driver = configured_with(vec![Ok(Response::UplinkSending(3))], None);
    assert_eq!(
        driver.send(QoS::Confirmed, 10, &[1, 2, 3], &ready, &step, &fetch),
        Ok(Dispatch::Handled(Cycle {
            reply: Ok(Response::UplinkSending(3)),
            effect: Effect::NoEffect,
        }))
    );
    driver.send(QoS::Unconfirmed, 11, &[], &ready, &step, &fetch).unwrap();
    assert_eq!(
        driver.engine().unwrap().seen,
        vec![
            Event::SendDataRequest(SendData { data: vec![1, 2, 3], fport: 10, confirmed: true }),
            Event::SendDataRequest(SendData { data: vec![], fport: 11, confirmed: false }),
        ]
    );
}

#[test]
fn send_to_an_engine_that_is_not_ready_is_a_send_error() {
    let mut driver = bound();
    let made = driver.configure(&full_config()).poll(|radio, setup, random| {
        let mut engine = bind(radio, setup, random);
        engine.ready = false;
        engine
    });
    assert_eq!(made, Ok(()));
    let before = format!("{:?}", driver.engine());
    assert_eq!(
        driver.send(QoS::Confirmed, 10, &[1], &ready, &step, &fetch),
        Err(LoraError::SendError)
    );
    assert_eq!(format!("{:?}", driver.engine()), before);
    assert!(driver.engine().unwrap().seen.is_empty());
}

#[test]
fn send_before_configuration_is_refused() {
    let mut driver = bound();
    assert_eq!(
        driver.send(QoS::Confirmed, 10, &[1], &ready, &step, &fetch),
        Err(LoraError::OtherError)
    );
    assert!(!driver.is_configured());
}

#[test]
fn reset_is_not_implemented() {
    let mut driver = configured_with(Vec::new(), None);
    let before = format!("{:?}", driver.engine());
    assert_eq!(driver.reset(ResetMode::Restart), Err(LoraError::NotImplemented));
    assert_eq!(driver.reset(ResetMode::Reload), Err(LoraError::NotImplemented));
    assert_eq!(format!("{:?}", driver.engine()), before);
    let mut driver = bound();
    assert_eq!(driver.reset(ResetMode::Restart), Err(LoraError::NotImplemented));
    assert!(!driver.is_configured());
}

#[test]
fn send_recv_is_not_implemented() {
    let mut driver = configured_with(Vec::new(), None);
    let mut rx = [9u8; 4];
    assert_eq!(
        driver.send_recv(QoS::Confirmed, 1, &[1, 2], &mut rx),
        Err(LoraError::NotImplemented)
    );
    assert_eq!(rx, [9u8; 4]);
    assert!(driver.engine().unwrap().seen.is_empty());
}
