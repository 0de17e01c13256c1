use ws_connection::config::{Backoff, Callbacks, Config, ReconnectPolicy};
use ws_connection::connection::{
    Connection, ConnectionState, Event, Frame, Reaction, SendError, TimerCommand,
    TransportCommand,
};

fn config(immediate: bool, callbacks: Callbacks, reconnect: ReconnectPolicy) -> Config {
    Config::new("wss://example.org/socket".to_string())
        .immediate(immediate)
        .callbacks(callbacks)
        .reconnect(reconnect)
}

fn manual(callbacks: Callbacks) -> Connection {
    let (c, r) = Connection::new(config(false, callbacks, ReconnectPolicy::disabled()));
    assert_eq!(r, Reaction::none());
    c
}

fn opened(callbacks: Callbacks) -> Connection {
    let mut c = manual(callbacks);
    c.open();
    c.transport_opened();
    c
}

#[test]
fn open_send_close_scenario() {
    let mut c = manual(Callbacks::all());
    assert_eq!(c.state(), ConnectionState::Closed);

    let r = c.open();
    assert_eq!(r.transport, TransportCommand::Connect);
    assert_eq!(c.state(), ConnectionState::Connecting);

    let r = c.transport_opened();
    assert_eq!(c.state(), ConnectionState::Open);
    assert!(r.notify_open);
    assert!(!r.notify_close);

    assert_eq!(c.send("hello".to_string()), Ok(Frame::Text("hello".to_string())));

    let r = c.close();
    assert_eq!(r.transport, TransportCommand::Disconnect);
    assert_eq!(c.state(), ConnectionState::Closing);
    assert!(!r.notify_close);

    let r = c.transport_closed();
    assert_eq!(c.state(), ConnectionState::Closed);
    assert!(r.notify_close);
    assert!(!r.notify_open);
    assert_eq!(r.timer, TimerCommand::Nothing);
}

#[test]
fn reconnect_limit_scenario() {
    let policy = ReconnectPolicy::limited(2, Backoff::Fixed(50));
    let (mut c, r) = Connection::new(config(false, Callbacks::all(), policy));
    assert_eq!(r, Reaction::none());
    c.open();

    let mut scheduled = 0;
    let mut connects = 0;
    let mut gave_up = false;
    for _ in 0..3 {
        let r = c.transport_closed();
        assert!(r.notify_close);
        gave_up = gave_up || r.gave_up;
        if let TimerCommand::Schedule(ms) = r.timer {
            assert_eq!(ms, 50);
            scheduled += 1;
            let t = c.reconnect_timer();
            if t.transport == TransportCommand::Connect {
                connects += 1;
            }
        }
    }
    assert_eq!(scheduled, 2);
    assert_eq!(connects, 2);
    assert!(gave_up);
    assert!(c.reconnect_exhausted());
    assert_eq!(c.state(), ConnectionState::Closed);
    assert!(!c.reconnect_pending());
    assert_eq!(c.reconnect_timer(), Reaction::none());
    assert_eq!(c.state(), ConnectionState::Closed);
}

#[test]
fn binary_frame_without_callback_scenario() {
    let mut c = opened(Callbacks::none());
    let payload: Vec<u8> = (0u8..17).collect();
    let r = c.binary_frame(payload.clone());
    assert!(!r.notify_binary);
    assert_eq!(c.latest_binary(), Some(&payload));
    assert_eq!(c.latest_binary().unwrap().len(), 17);
}

#[test]
fn open_builds_one_handle() {
    let mut c = manual(Callbacks::none());
    let mut connects = 0;
    for _ in 0..5 {
        if c.open().transport == TransportCommand::Connect {
            connects += 1;
        }
    }
    assert_eq!(connects, 1);
    c.transport_opened();
    for _ in 0..5 {
        assert_eq!(c.open(), Reaction::none());
    }
    assert_eq!(c.state(), ConnectionState::Open);
    c.close();
    assert_eq!(c.open(), Reaction::none());
    assert_eq!(c.state(), ConnectionState::Closing);
}

#[test]
fn immediate_connection_opens_at_once() {
    let (c, r) = Connection::new(config(true, Callbacks::none(), ReconnectPolicy::disabled()));
    assert_eq!(r.transport, TransportCommand::Connect);
    assert_eq!(c.state(), ConnectionState::Connecting);
}

#[test]
fn send_when_not_open_is_refused() {
    let mut c = manual(Callbacks::all());
    assert_eq!(c.send("x".to_string()), Err(SendError::NotConnected));
    assert_eq!(c.send_bytes(vec![1, 2]), Err(SendError::NotConnected));
    c.open();
    assert_eq!(c.send("x".to_string()), Err(SendError::NotConnected));
    c.transport_opened();
    assert_eq!(c.send_bytes(vec![1, 2]), Ok(Frame::Binary(vec![1, 2])));
    c.close();
    assert_eq!(c.send("x".to_string()), Err(SendError::NotConnected));
    assert_eq!(c.send_bytes(vec![]), Err(SendError::NotConnected));
    c.transport_closed();
    assert_eq!(c.send("x".to_string()), Err(SendError::NotConnected));
}

#[test]
fn text_frames_overwrite_latest_text() {
    let mut c = opened(Callbacks::all());
    assert_eq!(c.latest_text(), None);
    let r = c.text_frame("one".to_string());
    assert!(r.notify_text);
    assert_eq!(c.latest_text(), Some(&"one".to_string()));
    c.text_frame("two".to_string());
    assert_eq!(c.latest_text(), Some(&"two".to_string()));
    c.binary_frame(vec![9, 9]);
    assert_eq!(c.latest_text(), Some(&"two".to_string()));
    c.text_frame(String::new());
    assert_eq!(c.latest_text(), Some(&String::new()));
    assert_eq!(c.latest_binary(), Some(&vec![9, 9]));
}

#[test]
fn frames_while_closing_are_delivered() {
    let mut c = opened(Callbacks::all());
    c.close();
    let r = c.handle(Event::Text("late".to_string()));
    assert!(r.notify_text);
    assert_eq!(c.latest_text(), Some(&"late".to_string()));
}

#[test]
fn abrupt_loss_fires_close_once() {
    let mut c = opened(Callbacks::all());
    let r = c.transport_error();
    assert!(r.notify_error);
    assert!(r.notify_close);
    assert!(!r.notify_open);
    assert_eq!(r.transport, TransportCommand::Disconnect);
    assert_eq!(c.state(), ConnectionState::Closed);
    let r = c.transport_closed();
    assert_eq!(r, Reaction::none());
}

#[test]
fn callbacks_follow_registration() {
    let mut c = opened(Callbacks::none());
    let r = c.transport_closed();
    assert!(!r.notify_close);
    assert_eq!(c.state(), ConnectionState::Closed);
    let mut c = manual(Callbacks::none());
    c.open();
    let r = c.transport_opened();
    assert!(!r.notify_open);
}

#[test]
fn graceful_close_does_not_reconnect() {
    let policy = ReconnectPolicy::unlimited(Backoff::Fixed(10));
    let (mut c, _) = Connection::new(config(true, Callbacks::all(), policy));
    c.transport_opened();
    c.close();
    let r = c.transport_closed();
    assert_eq!(r.timer, TimerCommand::Nothing);
    assert!(!c.reconnect_pending());
}

#[test]
fn open_resets_reconnect_count() {
    let policy = ReconnectPolicy::limited(5, Backoff::Fixed(10));
    let (mut c, _) = Connection::new(config(true, Callbacks::all(), policy));
    c.transport_closed();
    c.reconnect_timer();
    c.transport_closed();
    assert_eq!(c.reconnect_attempts(), 2);
    c.reconnect_timer();
    c.transport_opened();
    assert_eq!(c.reconnect_attempts(), 0);
}

#[test]
fn close_cancels_pending_reconnect() {
    let policy = ReconnectPolicy::limited(3, Backoff::Fixed(10));
    let (mut c, _) = Connection::new(config(true, Callbacks::all(), policy));
    let r = c.transport_error();
    assert_eq!(r.timer, TimerCommand::Schedule(10));
    assert!(c.reconnect_pending());
    let r = c.close();
    assert_eq!(r.timer, TimerCommand::Cancel);
    assert!(!c.reconnect_pending());
    assert_eq!(c.reconnect_timer(), Reaction::none());
    assert_eq!(c.state(), ConnectionState::Closed);
}

#[test]
fn open_by_hand_cancels_pending_reconnect() {
    let policy = ReconnectPolicy::limited(3, Backoff::Fixed(10));
    let (mut c, _) = Connection::new(config(true, Callbacks::all(), policy));
    c.transport_closed();
    let r = c.open();
    assert_eq!(r.transport, TransportCommand::Connect);
    assert_eq!(r.timer, TimerCommand::Cancel);
    assert_eq!(c.reconnect_attempts(), 0);
}

#[test]
fn reconnect_with_zero_limit_gives_up_at_once() {
    let policy = ReconnectPolicy::limited(0, Backoff::Fixed(10));
    let (mut c, _) = Connection::new(config(true, Callbacks::all(), policy));
    let r = c.transport_closed();
    assert!(r.gave_up);
    assert_eq!(r.timer, TimerCommand::Nothing);
    assert!(c.reconnect_exhausted());
}

#[test]
fn exponential_backoff_doubles_up_to_cap() {
    let b = Backoff::Exponential { base: 100, cap: 1000 };
    assert_eq!(b.delay(0), 100);
    assert_eq!(b.delay(1), 200);
    assert_eq!(b.delay(3), 800);
    assert_eq!(b.delay(4), 1000);
    assert_eq!(b.delay(u32::MAX), 1000);
    assert_eq!(Backoff::Fixed(7).delay(9), 7);
    assert_eq!(Backoff::Exponential { base: 5000, cap: 1000 }.delay(0), 1000);
    assert_eq!(Backoff::Exponential { base: u64::MAX, cap: u64::MAX }.delay(2), u64::MAX);
}

#[test]
fn exponential_reconnect_delays() {
    let policy = ReconnectPolicy::unlimited(Backoff::Exponential { base: 100, cap: 250 });
    let (mut c, _) = Connection::new(config(true, Callbacks::all(), policy));
    let mut delays = Vec::new();
    for _ in 0..4 {
        if let TimerCommand::Schedule(ms) = c.handle(Event::Closed).timer {
            delays.push(ms);
        }
        c.handle(Event::ReconnectTimer);
    }
    assert_eq!(delays, vec![100, 200, 250, 250]);
}

#[test]
fn dispose_releases_everything() {
    let c = opened(Callbacks::all());
    let r = c.dispose();
    assert_eq!(r.transport, TransportCommand::Disconnect);
    assert_eq!(r.timer, TimerCommand::Nothing);
    assert!(!r.notify_close);

    let policy = ReconnectPolicy::limited(3, Backoff::Fixed(10));
    let (mut c, _) = Connection::new(config(true, Callbacks::all(), policy));
    c.transport_closed();
    let r = c.dispose();
    assert_eq!(r.transport, TransportCommand::Nothing);
    assert_eq!(r.timer, TimerCommand::Cancel);
}

#[test]
fn default_config() {
    let cfg = Config::new("ws://h".to_string());
    assert!(cfg.immediate);
    assert_eq!(cfg.callbacks, Callbacks::none());
    assert_eq!(cfg.reconnect, ReconnectPolicy::limited(3, Backoff::Fixed(3000)));
    let (c, _) = Connection::new(cfg);
    assert_eq!(c.config().url, "ws://h");
}
