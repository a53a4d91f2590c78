use opsline::utils::ureq_unix::await_input_step;
use opsline::utils::ureq_unix::input_awaited;
use opsline::utils::ureq_unix::output_transmitted;
use opsline::utils::ureq_unix::FakeResolver;
use opsline::utils::ureq_unix::InputStep;
use opsline::utils::ureq_unix::IoFailure;
use opsline::utils::ureq_unix::Probe;
use opsline::utils::ureq_unix::ProbeAction;
use opsline::utils::ureq_unix::ProbeEvent;
use opsline::utils::ureq_unix::ProbeRead;
use opsline::utils::ureq_unix::SocketAddress;
use opsline::utils::ureq_unix::TransportError;
use opsline::utils::ureq_unix::UnixConnector;

fn run(set: bool, read: ProbeRead, restored: bool) -> (Vec<ProbeAction>, bool) {
    let mut probe = Probe::start();
    let mut actions = Vec::new();
    loop {
        let action = probe.action();
        actions.push(action);
        let event = match action {
            ProbeAction::SetNonBlocking => ProbeEvent::ModeSet { ok: set },
            ProbeAction::ReadByte => ProbeEvent::ReadDone(read),
            ProbeAction::SetBlocking => ProbeEvent::ModeSet { ok: restored },
            ProbeAction::Report { open } => return (actions, open),
        };
        probe = probe.step(event);
    }
}

#[test]
fn connector_keeps_the_path() {
    assert_eq!(UnixConnector::new("/run/user/1000/podman/podman.sock").path(),
        "/run/user/1000/podman/podman.sock");
    assert_eq!(UnixConnector::new("").path(), "");
}

#[test]
fn resolver_gives_the_loopback_placeholder() {
    assert_eq!(FakeResolver.resolve(), SocketAddress { a: 127, b: 0, c: 0, d: 1, port: 0 });
    assert_eq!(FakeResolver::default().resolve(), FakeResolver.resolve());
}

#[test]
fn timeout_is_no_io_error() {
    assert_eq!(TransportError::from_transfer(IoFailure::TimedOut), TransportError::Timeout);
    assert_eq!(TransportError::from_transfer(IoFailure::WouldBlock), TransportError::Timeout);
    assert_eq!(
        TransportError::from_transfer(IoFailure::ConnectionReset),
        TransportError::Io(IoFailure::ConnectionReset)
    );
    assert_eq!(
        TransportError::from_transfer(IoFailure::Other),
        TransportError::Io(IoFailure::Other)
    );
    assert_ne!(
        TransportError::from_transfer(IoFailure::TimedOut),
        TransportError::from_transfer(IoFailure::ConnectionReset)
    );
}

#[test]
fn failed_connection_is_an_io_error() {
    for failure in
        [IoFailure::WouldBlock, IoFailure::TimedOut, IoFailure::ConnectionReset, IoFailure::Other]
    {
        assert_eq!(TransportError::from_connect(failure), TransportError::Io(failure));
    }
}

#[test]
fn buffered_input_needs_no_read() {
    assert_eq!(await_input_step(true), InputStep::Ready);
    assert_eq!(await_input_step(false), InputStep::Read);
}

#[test]
fn read_tells_whether_bytes_came() {
    assert_eq!(input_awaited(Ok(0)), Ok(false));
    assert_eq!(input_awaited(Ok(1)), Ok(true));
    assert_eq!(input_awaited(Ok(4096)), Ok(true));
    assert_eq!(input_awaited(Err(IoFailure::TimedOut)), Err(TransportError::Timeout));
    assert_eq!(input_awaited(Err(IoFailure::WouldBlock)), Err(TransportError::Timeout));
    assert_eq!(
        input_awaited(Err(IoFailure::ConnectionReset)),
        Err(TransportError::Io(IoFailure::ConnectionReset))
    );
}

#[test]
fn write_reports_its_failure() {
    assert_eq!(output_transmitted(Ok(())), Ok(()));
    assert_eq!(output_transmitted(Err(IoFailure::TimedOut)), Err(TransportError::Timeout));
    assert_eq!(
        output_transmitted(Err(IoFailure::Other)),
        Err(TransportError::Io(IoFailure::Other))
    );
}

#[test]
fn probe_of_an_idle_connection() {
    let (actions, open) = run(true, ProbeRead::WouldBlock, true);
    assert_eq!(
        actions,
        vec![
            ProbeAction::SetNonBlocking,
            ProbeAction::ReadByte,
            ProbeAction::SetBlocking,
            ProbeAction::Report { open: true },
        ]
    );
    assert!(open);
}

#[test]
fn probe_that_reads_a_byte() {
    let (actions, open) = run(true, ProbeRead::Returned(1), true);
    assert_eq!(actions.len(), 4);
    assert!(open);
    let (_, open) = run(true, ProbeRead::Returned(0), true);
    assert!(open);
}

#[test]
fn probe_of_a_broken_connection() {
    let (actions, open) = run(true, ProbeRead::Failed, true);
    assert_eq!(
        actions,
        vec![
            ProbeAction::SetNonBlocking,
            ProbeAction::ReadByte,
            ProbeAction::SetBlocking,
            ProbeAction::Report { open: false },
        ]
    );
    assert!(!open);
}

#[test]
fn probe_that_cannot_switch_modes() {
    let (actions, open) = run(false, ProbeRead::WouldBlock, true);
    assert_eq!(actions, vec![ProbeAction::SetNonBlocking, ProbeAction::Report { open: false }]);
    assert!(!open);

    let (actions, open) = run(true, ProbeRead::WouldBlock, false);
    assert_eq!(
        actions,
        vec![
            ProbeAction::SetNonBlocking,
            ProbeAction::ReadByte,
            ProbeAction::SetBlocking,
            ProbeAction::Report { open: false },
        ]
    );
    assert!(!open);
}

#[test]
fn probe_always_restores_blocking_mode() {
    for read in [ProbeRead::Returned(0), ProbeRead::Returned(1), ProbeRead::WouldBlock, ProbeRead::Failed] {
        for restored in [true, false] {
            let (actions, _) = run(true, read, restored);
            let report = actions.len() - 1;
            assert_eq!(actions[report - 1], ProbeAction::SetBlocking);
        }
    }
}

#[test]
fn probe_ignores_events_it_does_not_wait_for() {
    let start = Probe::start();
    assert_eq!(start.step(ProbeEvent::ReadDone(ProbeRead::WouldBlock)), start);

    let reading = start.step(ProbeEvent::ModeSet { ok: true });
    assert_eq!(reading, Probe::AwaitRead);
    assert_eq!(reading.step(ProbeEvent::ModeSet { ok: true }), reading);
    assert_eq!(reading.step(ProbeEvent::ModeSet { ok: false }), reading);

    let restoring = reading.step(ProbeEvent::ReadDone(ProbeRead::Failed));
    assert_eq!(restoring, Probe::AwaitBlocking { open: false });
    assert_eq!(restoring.step(ProbeEvent::ReadDone(ProbeRead::WouldBlock)), restoring);

    let finished = restoring.step(ProbeEvent::ModeSet { ok: true });
    assert_eq!(finished, Probe::Finished { open: false });
    assert_eq!(finished.step(ProbeEvent::ModeSet { ok: true }), finished);
    assert_eq!(finished.step(ProbeEvent::ReadDone(ProbeRead::WouldBlock)), finished);
    assert_eq!(finished.action(), ProbeAction::Report { open: false });
}
