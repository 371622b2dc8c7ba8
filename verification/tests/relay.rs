//! End-to-end exercises of the relay's decision logic on concrete data.

use fishinge::config::Config;
use fishinge::log::{write_output, StatusLog};
use fishinge::notifier::{
    health_check, health_check_twice, Notifier, NotifierAction, NotifierPhase, Signal,
    ToggleErrorPolicy,
};
use fishinge::router::{Event, Router, RouterAction};
use fishinge::subscriber::{
    build_subscription_request, found_ids_line, resolve_broadcaster, resolve_reward, subscribe,
    ChannelHit, RewardHit, SubscribeError,
};
use fishinge::toggle::{
    cycle_start, cycle_step, find_command, resolve_channel_id, BotCommand, ToggleAction,
    ToggleError, ToggleReply, ToggleState, UserAccess,
};

fn user(name: &str, channel: &str) -> UserAccess {
    UserAccess {
        username: name.to_string(),
        channel_id: channel.to_string(),
    }
}

fn command(id: &str, name: &str, enabled: bool) -> BotCommand {
    BotCommand {
        id: id.to_string(),
        command: name.to_string(),
        enabled_online: enabled,
    }
}

#[test]
fn default_config_is_the_fishing_trip() {
    let c = Config::empty();
    assert_eq!(c.client_id(), "");
    assert_eq!(c.streamer(), "chobo");
    assert_eq!(c.user_access_token(), "");
    assert_eq!(c.reward_title(), "5 Minute Fishing Trip");
    assert_eq!(c.jwt(), "");
    assert_eq!(c.command_name(), "fishinge");
}

#[test]
fn log_keeps_insertion_order() {
    let mut log = StatusLog::new();
    write_output(&mut log, "first");
    write_output(&mut log, "second");
    assert_eq!(log.len(), 2);
    assert_eq!(log.entry(0).as_str(), "first");
    assert_eq!(log.entry(1).as_str(), "second");
}

#[test]
fn resolve_broadcaster_picks_first_match() {
    let hits = vec![
        ChannelHit {
            broadcaster_login: "someone".to_string(),
            id: "B1".to_string(),
        },
        ChannelHit {
            broadcaster_login: "chobo".to_string(),
            id: "B123".to_string(),
        },
        ChannelHit {
            broadcaster_login: "chobo".to_string(),
            id: "B999".to_string(),
        },
    ];
    let r = resolve_broadcaster(&hits, &"chobo".to_string());
    assert_eq!(r.unwrap(), "B123");
}

#[test]
fn resolve_broadcaster_not_found() {
    let hits = vec![ChannelHit {
        broadcaster_login: "someone".to_string(),
        id: "B1".to_string(),
    }];
    let r = resolve_broadcaster(&hits, &"chobo".to_string());
    let e = r.unwrap_err();
    assert!(matches!(e, SubscribeError::BroadcasterNotFound));
    assert_eq!(e.message(), "oh no, no id found");
}

#[test]
fn resolve_broadcaster_empty_listing() {
    let hits: Vec<ChannelHit> = vec![];
    assert!(resolve_broadcaster(&hits, &"chobo".to_string()).is_err());
}

#[test]
fn resolve_reward_not_found() {
    let hits = vec![RewardHit {
        title: "Something else".to_string(),
        id: "R1".to_string(),
    }];
    let e = resolve_reward(&hits, &"5 Minute Fishing Trip".to_string()).unwrap_err();
    assert!(matches!(e, SubscribeError::RewardNotFound));
    assert_eq!(e.message(), "reward not found");
}

#[test]
fn subscription_request_shape() {
    let req = build_subscription_request(
        "S1".to_string(),
        "B123".to_string(),
        "R456".to_string(),
    );
    assert_eq!(req.kind, "channel.channel_points_custom_reward_redemption.add");
    assert_eq!(req.version, "1");
    assert_eq!(req.method, "websocket");
    assert_eq!(req.broadcaster_user_id, "B123");
    assert_eq!(req.reward_id, "R456");
    assert_eq!(req.session_id, "S1");
}

#[test]
fn subscribe_not_found_registers_nothing() {
    let mut log = StatusLog::new();
    let r = subscribe(
        &mut log,
        "S1".to_string(),
        Err(SubscribeError::BroadcasterNotFound),
    );
    assert!(matches!(r, Err(SubscribeError::BroadcasterNotFound)));
    assert_eq!(log.len(), 0);
}

#[test]
fn resolves_chobo_and_reward_then_registers() {
    let mut log = StatusLog::new();
    let mut router = Router::new();

    let action = router.on_event(
        Event::Welcome {
            session_id: "S1".to_string(),
        },
        &mut log,
    );
    let session_id = match action {
        RouterAction::StartSubscription { session_id } => session_id,
        other => panic!("expected a subscription request, got {:?}", other),
    };
    assert_eq!(session_id, "S1");
    assert_eq!(log.entry(0).as_str(), "Connected to Twitch!");

    let channels = vec![ChannelHit {
        broadcaster_login: "chobo".to_string(),
        id: "B123".to_string(),
    }];
    let broadcaster_id = resolve_broadcaster(&channels, &"chobo".to_string()).unwrap();
    let rewards = vec![
        RewardHit {
            title: "Hydrate".to_string(),
            id: "R1".to_string(),
        },
        RewardHit {
            title: "5 Minute Fishing Trip".to_string(),
            id: "R456".to_string(),
        },
    ];
    let reward_id = resolve_reward(&rewards, &"5 Minute Fishing Trip".to_string()).unwrap();

    let req = subscribe(&mut log, session_id.clone(), Ok((broadcaster_id, reward_id))).unwrap();
    assert_eq!(req.broadcaster_user_id, "B123");
    assert_eq!(req.reward_id, "R456");
    assert_eq!(req.session_id, "S1");

    assert!(log.entry(1).contains("B123"));
    assert!(log.entry(1).contains("R456"));

    router.record_subscription(session_id.clone(), &mut log);
    assert!(router.is_subscribed(&session_id));
}

#[test]
fn found_ids_line_names_both_ids() {
    let line = found_ids_line(&"B123".to_string(), &"R456".to_string());
    assert_eq!(
        line,
        "Found all required ids:\n Broadcaster:\n  B123\n Reward:\n  R456"
    );
}

#[test]
fn welcome_lines_connect_then_reconnect() {
    let mut log = StatusLog::new();
    let mut router = Router::new();
    let a1 = router.on_event(
        Event::Welcome {
            session_id: "S1".to_string(),
        },
        &mut log,
    );
    assert!(matches!(a1, RouterAction::StartSubscription { .. }));
    router.record_subscription("S1".to_string(), &mut log);
    let a2 = router.on_event(
        Event::Welcome {
            session_id: "S2".to_string(),
        },
        &mut log,
    );
    assert!(matches!(a2, RouterAction::StartSubscription { .. }));
    assert_eq!(log.entry(0).as_str(), "Connected to Twitch!");
    assert_eq!(log.entry(2).as_str(), "Reconnected to Twitch!");
}

#[test]
fn welcome_for_subscribed_session_is_ignored() {
    let mut log = StatusLog::new();
    let mut router = Router::new();
    router.on_event(
        Event::Welcome {
            session_id: "S1".to_string(),
        },
        &mut log,
    );
    router.record_subscription("S1".to_string(), &mut log);
    let again = router.on_event(
        Event::Welcome {
            session_id: "S1".to_string(),
        },
        &mut log,
    );
    assert!(matches!(again, RouterAction::Ignore));
}

#[test]
fn notification_forwards_one_signal() {
    let mut log = StatusLog::new();
    let mut router = Router::new();
    let before = log.len();
    let a = router.on_event(Event::Notification, &mut log);
    assert!(matches!(a, RouterAction::ForwardSignal));
    assert_eq!(log.len(), before);
}

#[test]
fn other_events_are_ignored() {
    let mut log = StatusLog::new();
    let mut router = Router::new();
    let a = router.on_event(Event::Other, &mut log);
    assert!(matches!(a, RouterAction::Ignore));
    assert_eq!(log.len(), 0);
}

/// Drives one whole toggle cycle against canned replies; returns the
/// final state.
fn run_full_cycle(config: &Config, log: &mut StatusLog) -> ToggleState {
    let (state, action) = cycle_start();
    assert!(matches!(action, ToggleAction::FetchUsers));
    let users = vec![user("chobo", "C77")];
    let (state, action) = cycle_step(state, ToggleReply::Users { entries: users }, config, log);
    match &action {
        ToggleAction::FetchCommands { channel_id } => assert_eq!(channel_id.as_str(), "C77"),
        other => panic!("expected a command fetch, got {:?}", other),
    }
    let commands = vec![
        command("I1", "hug", false),
        command("I2", "fishinge", false),
    ];
    let (state, action) = cycle_step(
        state,
        ToggleReply::Commands { entries: commands },
        config,
        log,
    );
    let echoed = match action {
        ToggleAction::CommitUpdate { command, .. } => {
            assert!(command.enabled_online);
            assert_eq!(command.id, "I2");
            command
        }
        other => panic!("expected an enabling commit, got {:?}", other),
    };
    let (state, action) = cycle_step(state, ToggleReply::UpdateEcho { echo: echoed }, config, log);
    assert!(matches!(action, ToggleAction::Sleep { seconds: 300 }));
    let (state, action) = cycle_step(state, ToggleReply::Held, config, log);
    let echoed = match action {
        ToggleAction::CommitUpdate { command, .. } => {
            assert!(!command.enabled_online);
            command
        }
        other => panic!("expected a disabling commit, got {:?}", other),
    };
    let (state, action) = cycle_step(state, ToggleReply::UpdateEcho { echo: echoed }, config, log);
    assert!(matches!(action, ToggleAction::Halt));
    state
}

#[test]
fn full_cycle_enables_holds_disables() {
    let config = Config::empty();
    let mut log = StatusLog::new();
    let state = run_full_cycle(&config, &mut log);
    assert!(matches!(state, ToggleState::Done));
    assert_eq!(log.entry(0).as_str(), "Enabled command!");
    assert_eq!(log.entry(1).as_str(), "Waiting 5 minutes...");
    assert_eq!(log.entry(2).as_str(), "Disabled command!");
}

#[test]
fn queued_redemptions_toggle_serially() {
    // Two redemptions stand queued; the Notifier finishes the first
    // cycle before it takes the second, so the second "enabled" line
    // appears only after the first "disabled" line.
    let config = Config::empty();
    let mut log = StatusLog::new();
    run_full_cycle(&config, &mut log);
    run_full_cycle(&config, &mut log);
    let entries: Vec<&str> = (0..log.len()).map(|i| log.entry(i).as_str()).collect();
    let first_disabled = entries.iter().position(|l| *l == "Disabled command!").unwrap();
    let second_enabled = entries
        .iter()
        .enumerate()
        .filter(|(_, l)| **l == "Enabled command!")
        .map(|(i, _)| i)
        .nth(1)
        .unwrap();
    assert!(first_disabled < second_enabled);
}

#[test]
fn cycle_fails_when_channel_missing() {
    let config = Config::empty();
    let mut log = StatusLog::new();
    let (state, _) = cycle_start();
    let users = vec![user("somebody", "C1")];
    let (state, action) = cycle_step(
        state,
        ToggleReply::Users { entries: users },
        &config,
        &mut log,
    );
    assert!(matches!(action, ToggleAction::Halt));
    match state {
        ToggleState::Failed { error } => {
            assert!(matches!(error, ToggleError::ChannelNotFound));
            assert_eq!(error.message(), "channel_id not found");
        }
        other => panic!("expected a failed cycle, got {:?}", other),
    }
}

#[test]
fn cycle_fails_when_command_missing() {
    let config = Config::empty();
    let mut log = StatusLog::new();
    let state = ToggleState::ResolveCommand {
        channel_id: "C77".to_string(),
    };
    let commands = vec![command("I1", "hug", false)];
    let (state, action) = cycle_step(
        state,
        ToggleReply::Commands { entries: commands },
        &config,
        &mut log,
    );
    assert!(matches!(action, ToggleAction::Halt));
    match state {
        ToggleState::Failed { error } => {
            assert_eq!(error.message(), "command \"fishinge\" not found");
        }
        other => panic!("expected a failed cycle, got {:?}", other),
    }
}

#[test]
fn enable_failure_skips_hold_and_disable() {
    let config = Config::empty();
    let mut log = StatusLog::new();
    let state = ToggleState::AwaitEnableEcho {
        channel_id: "C77".to_string(),
        command: command("I2", "fishinge", true),
    };
    let blank_echo = command("I2", "", true);
    let (state, action) = cycle_step(
        state,
        ToggleReply::UpdateEcho { echo: blank_echo },
        &config,
        &mut log,
    );
    assert!(matches!(action, ToggleAction::Halt));
    assert!(!matches!(action, ToggleAction::Sleep { .. }));
    let error = match state {
        ToggleState::Failed { error } => error,
        other => panic!("expected a failed cycle, got {:?}", other),
    };
    assert_eq!(error.message(), "command not enabled correctly");
    assert_eq!(log.len(), 0);

    // Under the continue policy the failure is logged and the loop
    // accepts the next signal.
    let mut notifier = Notifier {
        phase: NotifierPhase::Serving,
        policy: ToggleErrorPolicy::Continue,
    };
    notifier.on_cycle_outcome(Err(error), &mut log);
    assert!(matches!(notifier.phase, NotifierPhase::Serving));
    assert_eq!(
        log.entry(0).as_str(),
        "Error updating command: command not enabled correctly\nAttempting to continue..."
    );
    let next = notifier.on_signal(Some(Signal::Redemption), &mut log);
    assert!(matches!(next, NotifierAction::RunCycle));
}

#[test]
fn disable_failure_is_its_own_error() {
    let config = Config::empty();
    let mut log = StatusLog::new();
    let state = ToggleState::AwaitDisableEcho {
        channel_id: "C77".to_string(),
        command: command("I2", "fishinge", false),
    };
    let blank_echo = command("I2", "", false);
    let (state, _) = cycle_step(
        state,
        ToggleReply::UpdateEcho { echo: blank_echo },
        &config,
        &mut log,
    );
    match state {
        ToggleState::Failed { error } => {
            assert!(matches!(error, ToggleError::DisableRejected));
            assert_eq!(error.message(), "command not disabled correctly");
        }
        other => panic!("expected a failed cycle, got {:?}", other),
    }
}

#[test]
fn terminate_policy_stops_serving_on_failure() {
    let mut log = StatusLog::new();
    let mut notifier = Notifier {
        phase: NotifierPhase::Serving,
        policy: ToggleErrorPolicy::Terminate,
    };
    notifier.on_cycle_outcome(Err(ToggleError::EnableRejected), &mut log);
    assert!(matches!(notifier.phase, NotifierPhase::Stopped));
    assert_eq!(log.entry(0).as_str(), "command not enabled correctly");
}

#[test]
fn health_check_twice_same_outcome() {
    let entries = vec![user("chobo", "C77")];
    let streamer = "chobo".to_string();
    let (first, second) = health_check_twice(&entries, &streamer);
    assert!(first.is_ok());
    assert!(second.is_ok());
    // And against an unhealthy listing, the same failure both times.
    let empty: Vec<UserAccess> = vec![];
    let (first, second) = health_check_twice(&empty, &streamer);
    assert!(matches!(first, Err(ToggleError::ChannelNotFound)));
    assert!(matches!(second, Err(ToggleError::ChannelNotFound)));
}

#[test]
fn notifier_startup_and_handshake() {
    let config = Config::empty();
    let mut log = StatusLog::new();
    let mut notifier = Notifier::new(ToggleErrorPolicy::Continue);
    let entries = vec![user("chobo", "C77")];
    notifier.on_health(&entries, &config, &mut log);
    assert!(matches!(notifier.phase, NotifierPhase::AwaitHandshake));
    notifier.on_handshake(Some(Signal::Handshake), &mut log);
    assert!(matches!(notifier.phase, NotifierPhase::Serving));
    assert_eq!(log.len(), 0);
}

#[test]
fn notifier_unhealthy_startup_never_serves() {
    let config = Config::empty();
    let mut log = StatusLog::new();
    let mut notifier = Notifier::new(ToggleErrorPolicy::Continue);
    let entries: Vec<UserAccess> = vec![];
    notifier.on_health(&entries, &config, &mut log);
    assert!(matches!(notifier.phase, NotifierPhase::Stopped));
    assert_eq!(log.entry(0).as_str(), "channel_id not found");
}

#[test]
fn closed_channel_stops_serving() {
    let mut log = StatusLog::new();
    let mut notifier = Notifier {
        phase: NotifierPhase::Serving,
        policy: ToggleErrorPolicy::Continue,
    };
    let a = notifier.on_signal(None, &mut log);
    assert!(matches!(a, NotifierAction::Stop));
    assert!(matches!(notifier.phase, NotifierPhase::Stopped));
    assert_eq!(log.entry(0).as_str(), "redemption channel closed");
}

#[test]
fn search_helpers_match_exactly() {
    let users = vec![user("chob", "C1"), user("chobo", "C2")];
    assert_eq!(resolve_channel_id(&users, &"chobo".to_string()).unwrap(), "C2");
    let commands = vec![command("I1", "fishing", false), command("I2", "fishinge", true)];
    let found = find_command(&commands, &"fishinge".to_string()).unwrap();
    assert_eq!(found.id, "I2");
    assert!(find_command(&commands, &"absent".to_string()).is_err());
    let healthy = health_check(&users, &"chobo".to_string());
    assert!(healthy.is_ok());
}

#[test]
fn registration_failure_keeps_its_detail() {
    let e = SubscribeError::Registration {
        detail: "subscription endpoint said no".to_string(),
    };
    assert_eq!(e.message(), "subscription endpoint said no");
}

#[test]
fn recording_a_subscription_confirms_it() {
    let mut log = StatusLog::new();
    let mut router = Router::new();
    router.record_subscription("S1".to_string(), &mut log);
    assert_eq!(
        log.entry(0).as_str(),
        "Subscribed to redemption notifications!\nWaiting for redemptions..."
    );
    assert!(router.is_subscribed(&"S1".to_string()));
    assert!(!router.is_subscribed(&"S2".to_string()));
}
