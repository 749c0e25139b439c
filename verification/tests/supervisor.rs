use wifi_station::fault::Fault;
use wifi_station::notice::Notice;
use wifi_station::supervisor::{
    request, notices_for, Action, ConnectionState, Event, State, Step, Supervisor, Timing,
    DROP_BACKOFF_MS, RETRY_BACKOFF_MS, SETTLE_DELAY_MS,
};

fn supervisor() -> Supervisor {
    Supervisor::new(String::from("lab"), String::from("s3cret-s3cret"))
}

fn accept(sup: &mut Supervisor, event: Event) -> Step {
    match sup.handle(event) {
        Ok(step) => step,
        Err(f) => panic!("{:?} raised {:?}", event, f),
    }
}

fn refuse(sup: &mut Supervisor, event: Event) -> Fault {
    match sup.handle(event) {
        Ok(step) => panic!("{:?} was accepted with {:?}", event, step.action),
        Err(f) => f,
    }
}

/// Drives a fresh supervisor to the point where a connect request is outstanding.
fn connecting() -> Supervisor {
    let mut sup = supervisor();
    accept(&mut sup, Event::Boot);
    accept(&mut sup, Event::LinkStatus(ConnectionState::Disconnected));
    accept(&mut sup, Event::RadioStatus { started: false });
    accept(&mut sup, Event::ConfigApplied);
    accept(&mut sup, Event::TimerElapsed);
    accept(&mut sup, Event::StartSucceeded);
    assert_eq!(sup.state(), State::Connecting);
    sup
}

fn all_events() -> Vec<Event> {
    vec![
        Event::Boot,
        Event::LinkStatus(ConnectionState::Disconnected),
        Event::LinkStatus(ConnectionState::Connecting),
        Event::LinkStatus(ConnectionState::Connected),
        Event::Disconnected,
        Event::TimerElapsed,
        Event::RadioStatus { started: false },
        Event::RadioStatus { started: true },
        Event::ConfigApplied,
        Event::ConfigRejected,
        Event::StartSucceeded,
        Event::StartFailed,
        Event::ConnectSucceeded,
        Event::ConnectFailed,
    ]
}

#[test]
fn standard_timing_values() {
    let t = Timing::standard();
    assert_eq!(t.drop_backoff_ms, 5000);
    assert_eq!(t.settle_delay_ms, 5000);
    assert_eq!(t.retry_backoff_ms, 1000);
    assert_eq!(DROP_BACKOFF_MS, 5000);
    assert_eq!(SETTLE_DELAY_MS, 5000);
    assert_eq!(RETRY_BACKOFF_MS, 1000);
}

#[test]
fn new_supervisor_is_idle() {
    let sup = supervisor();
    assert_eq!(sup.state(), State::Idle);
    assert_eq!(sup.timing(), Timing::standard());
    assert_eq!(sup.ssid(), "lab");
}

#[test]
fn boot_asks_for_the_link_state() {
    let mut sup = supervisor();
    let step = accept(&mut sup, Event::Boot);
    assert_eq!(step.action, Action::QueryLink);
    assert!(step.config.is_none());
    assert!(step.notices.is_empty());
    assert_eq!(sup.state(), State::Probing);
}

#[test]
fn bring_up_with_valid_credentials_reaches_connect() {
    let mut sup = supervisor();
    assert_eq!(accept(&mut sup, Event::Boot).action, Action::QueryLink);

    let step = accept(&mut sup, Event::LinkStatus(ConnectionState::Disconnected));
    assert_eq!(step.action, Action::QueryRadio);
    assert!(step.config.is_none());
    assert_eq!(sup.state(), State::CheckingRadio);

    let step = accept(&mut sup, Event::RadioStatus { started: false });
    assert_eq!(step.action, Action::Configure);
    let config = step.config.expect("a configuration comes with Configure");
    assert_eq!(config.ssid.as_str(), "lab");
    assert_eq!(config.passphrase.as_str(), "s3cret-s3cret");
    assert!(step.notices.is_empty());
    assert_eq!(sup.state(), State::Configuring);

    let step = accept(&mut sup, Event::ConfigApplied);
    assert_eq!(step.action, Action::Sleep(5000));
    assert_eq!(step.notices, vec![Notice::Starting]);
    assert_eq!(sup.state(), State::Settling);

    let step = accept(&mut sup, Event::TimerElapsed);
    assert_eq!(step.action, Action::StartRadio);
    assert!(step.notices.is_empty());
    assert_eq!(sup.state(), State::Starting);

    let step = accept(&mut sup, Event::StartSucceeded);
    assert_eq!(step.action, Action::Connect);
    assert_eq!(step.notices, vec![Notice::Started, Notice::Connecting]);
    assert!(step.config.is_none());
    assert_eq!(sup.state(), State::Connecting);

    let step = accept(&mut sup, Event::ConnectSucceeded);
    assert_eq!(step.action, Action::QueryLink);
    assert_eq!(step.notices, vec![Notice::ConnectionUp]);
    assert_eq!(sup.state(), State::Probing);

    let step = accept(&mut sup, Event::LinkStatus(ConnectionState::Connected));
    assert_eq!(step.action, Action::AwaitDisconnect);
    assert_eq!(sup.state(), State::Connected);
}

#[test]
fn credentials_at_the_limits_reach_connect() {
    let ssid: String = std::iter::repeat('s').take(32).collect();
    let passphrase: String = std::iter::repeat('p').take(64).collect();
    let mut sup = Supervisor::new(ssid.clone(), passphrase.clone());
    accept(&mut sup, Event::Boot);
    accept(&mut sup, Event::LinkStatus(ConnectionState::Disconnected));
    let step = accept(&mut sup, Event::RadioStatus { started: false });
    let config = step.config.expect("a configuration comes with Configure");
    assert_eq!(config.ssid.as_str(), ssid.as_str());
    assert_eq!(config.passphrase.as_str(), passphrase.as_str());
    accept(&mut sup, Event::ConfigApplied);
    accept(&mut sup, Event::TimerElapsed);
    assert_eq!(accept(&mut sup, Event::StartSucceeded).action, Action::Connect);
}

#[test]
fn link_reported_as_connecting_counts_as_not_connected() {
    let mut sup = supervisor();
    accept(&mut sup, Event::Boot);
    let step = accept(&mut sup, Event::LinkStatus(ConnectionState::Connecting));
    assert_eq!(step.action, Action::QueryRadio);
    assert_eq!(sup.state(), State::CheckingRadio);
}

#[test]
fn started_radio_is_not_configured_again() {
    let mut sup = supervisor();
    accept(&mut sup, Event::Boot);
    accept(&mut sup, Event::LinkStatus(ConnectionState::Disconnected));
    let step = accept(&mut sup, Event::RadioStatus { started: true });
    assert_eq!(step.action, Action::Connect);
    assert!(step.config.is_none());
    assert_eq!(step.notices, vec![Notice::Connecting]);
    assert_eq!(sup.state(), State::Connecting);
}

#[test]
fn oversized_ssid_faults_before_any_configuration() {
    let ssid: String = std::iter::repeat('s').take(33).collect();
    let mut sup = Supervisor::new(ssid, String::from("fine"));
    let mut actions = vec![accept(&mut sup, Event::Boot).action];
    let fault = refuse(&mut sup, Event::LinkStatus(ConnectionState::Disconnected));
    assert_eq!(fault, Fault::SsidTooLong);
    assert_eq!(sup.state(), State::Probing);
    // Whatever is tried next, nothing is configured and no connection requested.
    for event in all_events() {
        if let Ok(step) = sup.handle(event) {
            assert!(step.config.is_none());
            actions.push(step.action);
        }
    }
    assert!(!actions.contains(&Action::Configure));
    assert!(!actions.contains(&Action::Connect));
    assert!(!actions.contains(&Action::StartRadio));
}

#[test]
fn oversized_passphrase_faults_before_any_configuration() {
    let passphrase: String = std::iter::repeat('p').take(65).collect();
    let mut sup = Supervisor::new(String::from("lab"), passphrase);
    accept(&mut sup, Event::Boot);
    let fault = refuse(&mut sup, Event::LinkStatus(ConnectionState::Disconnected));
    assert_eq!(fault, Fault::PassphraseTooLong);
    assert_eq!(sup.state(), State::Probing);
}

#[test]
fn oversized_credentials_fault_after_a_drop_too() {
    let ssid: String = std::iter::repeat('é').take(17).collect();
    let mut sup = Supervisor::new(ssid, String::from("fine"));
    accept(&mut sup, Event::Boot);
    accept(&mut sup, Event::LinkStatus(ConnectionState::Connected));
    let step = accept(&mut sup, Event::Disconnected);
    assert_eq!(step.action, Action::Sleep(5000));
    assert_eq!(refuse(&mut sup, Event::TimerElapsed), Fault::SsidTooLong);
    assert_eq!(sup.state(), State::WaitingAfterDrop);
}

#[test]
fn rejected_configuration_is_a_fault() {
    let mut sup = supervisor();
    accept(&mut sup, Event::Boot);
    accept(&mut sup, Event::LinkStatus(ConnectionState::Disconnected));
    accept(&mut sup, Event::RadioStatus { started: false });
    assert_eq!(refuse(&mut sup, Event::ConfigRejected), Fault::ConfigurationRejected);
    assert_eq!(sup.state(), State::Configuring);
}

#[test]
fn failed_start_is_a_fault() {
    let mut sup = supervisor();
    accept(&mut sup, Event::Boot);
    accept(&mut sup, Event::LinkStatus(ConnectionState::Disconnected));
    accept(&mut sup, Event::RadioStatus { started: false });
    accept(&mut sup, Event::ConfigApplied);
    accept(&mut sup, Event::TimerElapsed);
    assert_eq!(refuse(&mut sup, Event::StartFailed), Fault::StartFailed);
    assert_eq!(sup.state(), State::Starting);
}

#[test]
fn event_that_answers_nothing_is_refused() {
    let mut sup = supervisor();
    assert_eq!(refuse(&mut sup, Event::ConnectSucceeded), Fault::UnexpectedEvent);
    assert_eq!(refuse(&mut sup, Event::TimerElapsed), Fault::UnexpectedEvent);
    assert_eq!(sup.state(), State::Idle);
    accept(&mut sup, Event::Boot);
    assert_eq!(refuse(&mut sup, Event::Boot), Fault::UnexpectedEvent);
    assert_eq!(sup.state(), State::Probing);
}

#[test]
fn drop_is_followed_by_a_five_second_pause() {
    let mut sup = connecting();
    accept(&mut sup, Event::ConnectSucceeded);
    accept(&mut sup, Event::LinkStatus(ConnectionState::Connected));
    assert_eq!(sup.state(), State::Connected);

    let step = accept(&mut sup, Event::Disconnected);
    assert_eq!(step.action, Action::Sleep(5000));
    assert_eq!(sup.state(), State::WaitingAfterDrop);

    // Until the timer fires nothing moves the supervisor, and nothing is asked.
    for event in all_events() {
        if event != Event::TimerElapsed {
            assert_eq!(refuse(&mut sup, event), Fault::UnexpectedEvent);
            assert_eq!(sup.state(), State::WaitingAfterDrop);
        }
    }

    // The radio is still started, so the supervisor goes straight to connect.
    let step = accept(&mut sup, Event::TimerElapsed);
    assert_eq!(step.action, Action::QueryRadio);
    let step = accept(&mut sup, Event::RadioStatus { started: true });
    assert_eq!(step.action, Action::Connect);
}

#[test]
fn no_connect_request_before_the_drop_backoff_elapses() {
    let mut sup = connecting();
    accept(&mut sup, Event::ConnectSucceeded);
    accept(&mut sup, Event::LinkStatus(ConnectionState::Connected));

    // A clock that only the requested pauses advance.
    let mut now: u64 = 10_000;
    let dropped_at = now;
    let mut connect_at: Option<u64> = None;
    let mut action = accept(&mut sup, Event::Disconnected).action;
    for _ in 0..10 {
        let event = match action {
            Action::Sleep(ms) => {
                now += ms;
                Event::TimerElapsed
            },
            Action::QueryRadio => Event::RadioStatus { started: true },
            Action::QueryLink => Event::LinkStatus(ConnectionState::Disconnected),
            Action::Connect => {
                connect_at = Some(now);
                break;
            },
            other => panic!("unexpected request {:?}", other),
        };
        action = accept(&mut sup, event).action;
    }
    let connect_at = connect_at.expect("a connect request follows the drop");
    assert_eq!(connect_at - dropped_at, 5000);
}

#[test]
fn failed_connect_is_retried_every_second() {
    let mut sup = connecting();
    let mut now: u64 = 0;
    let mut connect_times: Vec<u64> = vec![now];
    let mut action = accept(&mut sup, Event::ConnectFailed).action;
    assert_eq!(action, Action::Sleep(1000));
    assert_eq!(sup.state(), State::RetryBackoff);
    while connect_times.len() < 5 {
        let event = match action {
            Action::Sleep(ms) => {
                now += ms;
                Event::TimerElapsed
            },
            Action::QueryLink => Event::LinkStatus(ConnectionState::Disconnected),
            Action::QueryRadio => Event::RadioStatus { started: true },
            Action::Connect => {
                connect_times.push(now);
                Event::ConnectFailed
            },
            other => panic!("unexpected request {:?}", other),
        };
        action = accept(&mut sup, event).action;
    }
    assert_eq!(connect_times, vec![0, 1000, 2000, 3000, 4000]);
}

#[test]
fn failed_connect_logs_and_pauses_then_looks_again() {
    let mut sup = connecting();
    let step = accept(&mut sup, Event::ConnectFailed);
    assert_eq!(step.action, Action::Sleep(1000));
    assert_eq!(step.notices, vec![Notice::ConnectionFailed]);
    for event in all_events() {
        if event != Event::TimerElapsed {
            assert_eq!(refuse(&mut sup, event), Fault::UnexpectedEvent);
        }
    }
    let step = accept(&mut sup, Event::TimerElapsed);
    assert_eq!(step.action, Action::QueryLink);
    assert_eq!(sup.state(), State::Probing);
}

#[test]
fn custom_timing_is_used_for_every_pause() {
    let timing = Timing { drop_backoff_ms: 70, settle_delay_ms: 30, retry_backoff_ms: 20 };
    let mut sup = Supervisor::with_timing(String::from("lab"), String::from("pw"), timing);
    assert_eq!(sup.timing(), timing);
    accept(&mut sup, Event::Boot);
    accept(&mut sup, Event::LinkStatus(ConnectionState::Disconnected));
    accept(&mut sup, Event::RadioStatus { started: false });
    assert_eq!(accept(&mut sup, Event::ConfigApplied).action, Action::Sleep(30));
    accept(&mut sup, Event::TimerElapsed);
    accept(&mut sup, Event::StartSucceeded);
    assert_eq!(accept(&mut sup, Event::ConnectFailed).action, Action::Sleep(20));
    accept(&mut sup, Event::TimerElapsed);
    accept(&mut sup, Event::LinkStatus(ConnectionState::Connected));
    assert_eq!(accept(&mut sup, Event::Disconnected).action, Action::Sleep(70));
}

#[test]
fn request_gives_the_outstanding_action_of_each_state() {
    let t = Timing::standard();
    assert_eq!(request(State::Idle, t), None);
    assert_eq!(request(State::Probing, t), Some(Action::QueryLink));
    assert_eq!(request(State::Connected, t), Some(Action::AwaitDisconnect));
    assert_eq!(request(State::WaitingAfterDrop, t), Some(Action::Sleep(5000)));
    assert_eq!(request(State::CheckingRadio, t), Some(Action::QueryRadio));
    assert_eq!(request(State::Configuring, t), Some(Action::Configure));
    assert_eq!(request(State::Settling, t), Some(Action::Sleep(5000)));
    assert_eq!(request(State::Starting, t), Some(Action::StartRadio));
    assert_eq!(request(State::Connecting, t), Some(Action::Connect));
    assert_eq!(request(State::RetryBackoff, t), Some(Action::Sleep(1000)));
}

#[test]
fn notices_for_each_logged_move() {
    assert_eq!(
        notices_for(State::CheckingRadio, Event::RadioStatus { started: true }),
        vec![Notice::Connecting]
    );
    assert_eq!(notices_for(State::Configuring, Event::ConfigApplied), vec![Notice::Starting]);
    assert_eq!(
        notices_for(State::Starting, Event::StartSucceeded),
        vec![Notice::Started, Notice::Connecting]
    );
    assert_eq!(
        notices_for(State::Connecting, Event::ConnectSucceeded),
        vec![Notice::ConnectionUp]
    );
    assert_eq!(
        notices_for(State::Connecting, Event::ConnectFailed),
        vec![Notice::ConnectionFailed]
    );
    assert!(notices_for(State::Idle, Event::Boot).is_empty());
    assert!(notices_for(State::CheckingRadio, Event::RadioStatus { started: false }).is_empty());
    assert!(notices_for(State::Connected, Event::Disconnected).is_empty());
}
