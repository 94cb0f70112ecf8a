use stabilizer_net::net::{
    aggregate_update, CountedStream, MiniconfClient, NetworkProcessor, NetworkUsers, StreamError,
    StreamTarget, TelemetryClient, UpdateState,
};

struct FakeProcessor {
    result: UpdateState,
    egress_calls: usize,
}

impl NetworkProcessor for FakeProcessor {
    fn update(&mut self) -> UpdateState {
        self.result
    }

    fn egress(&mut self) {
        self.egress_calls += 1;
    }
}

struct FakeSettings {
    result: UpdateState,
}

impl MiniconfClient for FakeSettings {
    fn update(&mut self) -> UpdateState {
        self.result
    }
}

struct FakeTelemetry {
    result: UpdateState,
}

impl TelemetryClient for FakeTelemetry {
    fn update(&mut self) -> UpdateState {
        self.result
    }
}

#[derive(Debug, PartialEq)]
struct FakeGenerator(u32);

type Users = NetworkUsers<FakeProcessor, FakeSettings, FakeTelemetry, CountedStream, FakeGenerator>;

fn make_users(
    poll: UpdateState,
    telemetry: UpdateState,
    settings: UpdateState,
    backlog: usize,
) -> Users {
    NetworkUsers::new(
        FakeProcessor {
            result: poll,
            egress_calls: 0,
        },
        FakeSettings { result: settings },
        FakeTelemetry { result: telemetry },
        CountedStream {
            pending: backlog,
            polls: 0,
            remote: None,
        },
        FakeGenerator(7),
    )
}

fn target() -> StreamTarget {
    StreamTarget {
        ip: [10, 0, 0, 2],
        port: 9293,
    }
}

fn remote_of(users: &Users) -> Option<(u8, u16)> {
    users.stream().remote.map(|r| (r.ip[3], r.port))
}

#[test]
fn aggregate_settings_updated_wins() {
    let r = aggregate_update(
        UpdateState::NoChange,
        UpdateState::NoChange,
        UpdateState::Updated,
    );
    assert_eq!(r, UpdateState::Updated);
}

#[test]
fn aggregate_both_no_change() {
    let r = aggregate_update(
        UpdateState::NoChange,
        UpdateState::NoChange,
        UpdateState::NoChange,
    );
    assert_eq!(r, UpdateState::NoChange);
}

#[test]
fn aggregate_poll_passes_through() {
    let r = aggregate_update(
        UpdateState::Updated,
        UpdateState::NoChange,
        UpdateState::NoChange,
    );
    assert_eq!(r, UpdateState::Updated);
}

#[test]
fn aggregate_ignores_telemetry() {
    let r = aggregate_update(
        UpdateState::NoChange,
        UpdateState::Updated,
        UpdateState::NoChange,
    );
    assert_eq!(r, UpdateState::NoChange);
}

#[test]
fn update_reports_settings_precedence() {
    let mut users = make_users(
        UpdateState::NoChange,
        UpdateState::NoChange,
        UpdateState::Updated,
        0,
    );
    assert_eq!(users.update(), UpdateState::Updated);
}

#[test]
fn update_reports_processor_result_without_settings_change() {
    let mut users = make_users(
        UpdateState::Updated,
        UpdateState::NoChange,
        UpdateState::NoChange,
        0,
    );
    assert_eq!(users.update(), UpdateState::Updated);
}

#[test]
fn update_reports_no_change_when_all_quiet() {
    let mut users = make_users(
        UpdateState::NoChange,
        UpdateState::NoChange,
        UpdateState::NoChange,
        0,
    );
    assert_eq!(users.update(), UpdateState::NoChange);
}

#[test]
fn update_ignores_telemetry_report() {
    // Telemetry is forced to report Updated while everyone else is quiet:
    // the aggregate must still be NoChange.
    let mut users = make_users(
        UpdateState::NoChange,
        UpdateState::Updated,
        UpdateState::NoChange,
        0,
    );
    assert_eq!(users.update(), UpdateState::NoChange);
}

#[test]
fn enable_streaming_hands_generator_out_once() {
    let mut users = make_users(
        UpdateState::NoChange,
        UpdateState::NoChange,
        UpdateState::NoChange,
        0,
    );
    let generator = users.enable_streaming(target());
    assert_eq!(generator, Ok(FakeGenerator(7)));
    assert_eq!(remote_of(&users), Some((2, 9293)));
    let second = users.enable_streaming(target());
    assert_eq!(second, Err(StreamError::AlreadyTransferred));
}

#[test]
fn direct_stream_addresses_only_before_handoff() {
    let mut users = make_users(
        UpdateState::NoChange,
        UpdateState::NoChange,
        UpdateState::NoChange,
        0,
    );
    users.direct_stream(target());
    assert_eq!(remote_of(&users), Some((2, 9293)));

    let _generator = users.enable_streaming(StreamTarget {
        ip: [10, 0, 0, 3],
        port: 2000,
    });
    assert_eq!(remote_of(&users), Some((3, 2000)));
    // After the handoff the application owns addressing: no change.
    users.direct_stream(target());
    assert_eq!(remote_of(&users), Some((3, 2000)));
}

#[test]
fn internal_state_never_processes_stream() {
    let mut users = make_users(
        UpdateState::NoChange,
        UpdateState::NoChange,
        UpdateState::NoChange,
        3,
    );
    users.update();
    users.update();
    users.update();
    assert_eq!(users.stream().polls, 0);
    assert_eq!(users.stream().pending, 3);
    assert_eq!(users.processor().egress_calls, 0);
}

#[test]
fn external_state_drains_backlog_in_one_update() {
    let mut users = make_users(
        UpdateState::NoChange,
        UpdateState::NoChange,
        UpdateState::NoChange,
        3,
    );
    let _generator = users.enable_streaming(target()).unwrap();
    users.update();
    // Three chunks of backlog, then the call that reports no more work;
    // the processor's egress queue is driven once per stream poll.
    assert_eq!(users.stream().polls, 4);
    assert_eq!(users.stream().pending, 0);
    assert_eq!(users.processor().egress_calls, 4);

    // A further cycle with nothing pending polls the stream exactly once.
    users.update();
    assert_eq!(users.stream().polls, 5);
}

#[test]
fn update_stream_alone_respects_handoff_state() {
    let mut users = make_users(
        UpdateState::NoChange,
        UpdateState::NoChange,
        UpdateState::NoChange,
        2,
    );
    users.update_stream();
    assert_eq!(users.stream().polls, 0);
    let _generator = users.enable_streaming(target()).unwrap();
    users.update_stream();
    assert_eq!(users.stream().polls, 3);
}
