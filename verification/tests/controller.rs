//! Which Neovim there is, and what commands do.
use anvi::controller::{
    Action, AfterCapture, AfterRestart, Captured, Cmd, Controller, Dispatch, Pair, PairStep, Parting,
    Received, RestartEnd, Rpc, Turn, Wait, rpc, superseded,
};
use anvi::policy::SpawnPolicy;
use anvi::protocol::HostEvent;
use anvi::session::{Applied, Phase};

fn owned(lines: &[&str]) -> Vec<String> {
    lines.iter().map(|line| line.to_string()).collect()
}

fn obey(controller: &mut Controller, cmd: Cmd) -> Action {
    match controller.on_received(Received::Cmd(cmd), false, false) {
        Dispatch::Do(action) => action,
        Dispatch::TearDown => panic!("a command tears nothing down"),
    }
}

fn host(generation: u64, event: HostEvent) -> Cmd {
    Cmd::Host { generation, event }
}

/// A controller with a Neovim of generation 1.
fn started() -> Controller {
    let mut controller = Controller::start(0);
    assert_eq!(obey(&mut controller, Cmd::Start), Action::Nothing);
    assert_eq!(controller.run(false, true), Turn::Restart);
    assert_eq!(controller.restart_pair(true), Some(false));
    assert_eq!(
        controller.on_restarted(RestartEnd::Up),
        AfterRestart::Receive(Wait::Forever)
    );
    controller
}

/// A controller that edits these lines in window 99.
fn editing(lines: &[&str]) -> Controller {
    let mut controller = started();
    assert_eq!(obey(&mut controller, Cmd::Hotkey), Action::Capture);
    let field = Captured::Field { hwnd: 99, lines: owned(lines) };
    assert_eq!(
        controller.on_captured(field),
        AfterCapture::StartSession { hwnd: 99, lines: owned(lines) }
    );
    assert_eq!(controller.on_session_started(true, 99, owned(lines)), Some(99));
    controller.on_shown(true);
    assert_eq!(controller.phase(), Phase::Editing);
    controller
}

#[test]
fn existing_rpc_waits_survive_queries_but_stop_on_exit() {
    let mut policy = SpawnPolicy::new(|| false);
    policy.query_end_session();
    assert_eq!(rpc(policy.is_exiting(), Some("completed")), Rpc::Answered("completed"));
    assert_eq!(rpc(policy.is_exiting(), None::<&str>), Rpc::Pending);
    policy.exit();
    assert_eq!(rpc(policy.is_exiting(), Some("completed")), Rpc::Exiting);
    assert_eq!(rpc(policy.is_exiting(), None::<&str>), Rpc::Exiting);
}

#[test]
fn a_saved_session_is_written_back() {
    let mut controller = editing(&["original"]);
    let write = HostEvent::SessionWrite(owned(&["saved"]));
    assert_eq!(obey(&mut controller, host(1, write)), Action::Nothing);
    assert_eq!(
        obey(&mut controller, Cmd::Input("x".to_string())),
        Action::Input("x".to_string())
    );
    assert_eq!(
        obey(&mut controller, host(1, HostEvent::SessionEnd)),
        Action::Finish { target: 99, applied: Applied::WriteBack(owned(&["saved"])) }
    );
    assert_eq!(controller.phase(), Phase::Idle);
    assert_eq!(obey(&mut controller, host(1, HostEvent::SessionEnd)), Action::Nothing);
}

#[test]
fn unsaved_and_unchanged_sessions_leave_the_field_alone() {
    let mut controller = editing(&["original"]);
    assert_eq!(
        obey(&mut controller, host(1, HostEvent::SessionEnd)),
        Action::Finish { target: 99, applied: Applied::Discarded }
    );
    let mut controller = editing(&["original"]);
    let write = HostEvent::SessionWrite(owned(&["original"]));
    obey(&mut controller, host(1, write));
    assert_eq!(
        obey(&mut controller, host(1, HostEvent::SessionEnd)),
        Action::Finish { target: 99, applied: Applied::Unchanged }
    );
}

#[test]
fn the_hotkey_returns_to_the_session() {
    let mut controller = editing(&["a"]);
    assert_eq!(obey(&mut controller, Cmd::Hotkey), Action::Focus);
    assert_eq!(controller.phase(), Phase::Editing);
}

#[test]
fn the_hotkey_needs_a_neovim() {
    let mut controller = Controller::start(0);
    assert_eq!(obey(&mut controller, Cmd::Hotkey), Action::Nothing);
    let mut controller = started();
    controller.recover(false);
    assert_eq!(obey(&mut controller, Cmd::Hotkey), Action::Nothing);
    let mut controller = started();
    assert_eq!(controller.on_hotkey(true), Action::Nothing);
    assert_eq!(controller.begin_session(), Action::Capture);
    assert_eq!(controller.begin_session(), Action::Nothing);
    assert_eq!(controller.on_hotkey(false), Action::Nothing);
}

#[test]
fn a_capture_may_come_to_nothing() {
    let mut controller = started();
    for (captured, error) in [(Captured::Nothing, false), (Captured::Failed, true)] {
        assert_eq!(obey(&mut controller, Cmd::Hotkey), Action::Capture);
        assert_eq!(controller.phase(), Phase::Capturing);
        assert_eq!(controller.on_captured(captured), AfterCapture::GiveUp { error });
        assert_eq!(controller.phase(), Phase::Idle);
    }
}

#[test]
fn a_session_that_neovim_refuses_does_not_begin() {
    let mut controller = started();
    obey(&mut controller, Cmd::Hotkey);
    assert_eq!(controller.on_session_started(false, 99, owned(&["a"])), None);
    assert_eq!(controller.phase(), Phase::Idle);
    assert_eq!(controller.on_session_started(true, 99, owned(&["a"])), None);
}

#[test]
fn a_session_that_nobody_sees_is_dropped() {
    let mut controller = editing(&["a"]);
    controller.on_shown(false);
    assert_eq!(controller.phase(), Phase::Idle);
}

#[test]
fn an_earlier_neovim_is_not_heard() {
    let mut controller = editing(&["original"]);
    let write = HostEvent::SessionWrite(owned(&["stale"]));
    assert_eq!(obey(&mut controller, host(0, write)), Action::Nothing);
    assert_eq!(obey(&mut controller, host(0, HostEvent::SessionEnd)), Action::Nothing);
    assert_eq!(obey(&mut controller, host(2, HostEvent::Disconnected)), Action::Nothing);
    assert_eq!(controller.run(false, true), Turn::Receive(Wait::Forever));
    assert_eq!(
        obey(&mut controller, host(1, HostEvent::SessionEnd)),
        Action::Finish { target: 99, applied: Applied::Discarded }
    );
    assert!(superseded(0, 1));
    assert!(!superseded(1, 1));
}

#[test]
fn a_lost_neovim_is_replaced_and_silenced() {
    let mut controller = editing(&["a"]);
    assert_eq!(obey(&mut controller, host(1, HostEvent::Disconnected)), Action::Nothing);
    assert_eq!(controller.run(false, false), Turn::Receive(Wait::Poll));
    assert_eq!(controller.run(false, true), Turn::Restart);
    assert_eq!(controller.restart_pair(false), None);
    assert_eq!(controller.generation(), 1);
    assert_eq!(controller.restart_pair(true), Some(true));
    assert_eq!(controller.generation(), 2);
    assert_eq!(controller.phase(), Phase::Idle);
    assert_eq!(
        controller.on_restarted(RestartEnd::Cancelled),
        AfterRestart::Receive(Wait::Poll)
    );
    assert_eq!(controller.run(false, true), Turn::Restart);
    assert_eq!(controller.restart_pair(true), Some(false));
    assert_eq!(
        controller.on_restarted(RestartEnd::Up),
        AfterRestart::Receive(Wait::Forever)
    );
    assert_eq!(obey(&mut controller, host(1, HostEvent::Disconnected)), Action::Nothing);
    assert_eq!(controller.run(false, true), Turn::Receive(Wait::Forever));
}

#[test]
fn only_the_first_failure_is_fatal() {
    let mut controller = Controller::start(u64::MAX);
    controller.recover(false);
    assert_eq!(controller.restart_pair(true), Some(false));
    assert_eq!(controller.generation(), 0);
    assert_eq!(controller.on_restarted(RestartEnd::Failed), AfterRestart::Fatal);

    let mut controller = started();
    controller.recover(false);
    controller.restart_pair(true);
    assert_eq!(
        controller.on_restarted(RestartEnd::Failed),
        AfterRestart::Receive(Wait::Forever)
    );
    assert_eq!(controller.on_input("x".to_string(), false), Action::Nothing);
}

#[test]
fn keys_and_sizes_need_a_neovim_that_stays() {
    let mut controller = started();
    assert_eq!(
        obey(&mut controller, Cmd::Resize { cols: 80, rows: 24 }),
        Action::Resize { cols: 80, rows: 24 }
    );
    assert_eq!(controller.on_resize(80, 24, true), Action::Nothing);
    controller.recover(false);
    assert_eq!(obey(&mut controller, Cmd::Input("x".to_string())), Action::Nothing);
    assert_eq!(
        obey(&mut controller, Cmd::Resize { cols: 80, rows: 24 }),
        Action::Nothing
    );
}

#[test]
fn closing_the_window_is_for_neovim() {
    let mut controller = started();
    assert_eq!(obey(&mut controller, Cmd::CloseRequested), Action::Nothing);
    let mut controller = editing(&["a"]);
    assert_eq!(obey(&mut controller, Cmd::CloseRequested), Action::QuitSession);
    assert_eq!(controller.phase(), Phase::Editing);
}

#[test]
fn the_configuration_is_reported() {
    let mut controller = started();
    let resolved = HostEvent::ConfigResolved { dir: "d".to_string(), loaded: true };
    assert_eq!(
        obey(&mut controller, host(1, resolved)),
        Action::ReportConfig { dir: "d".to_string(), loaded: true }
    );
    let error = HostEvent::InitError { kind: "k".to_string(), message: "m".to_string() };
    assert_eq!(
        obey(&mut controller, host(1, error)),
        Action::ReportInitError { kind: "k".to_string(), message: "m".to_string() }
    );
    assert_eq!(obey(&mut controller, host(1, HostEvent::NvimDying)), Action::Nothing);
    assert_eq!(controller.run(false, true), Turn::Restart);
}

#[test]
fn an_exit_ends_everything() {
    let mut controller = editing(&["a"]);
    assert_eq!(obey(&mut controller, Cmd::Exit), Action::Exit);
    assert_eq!(obey(&mut controller, Cmd::LifecycleChanged), Action::Nothing);
    assert_eq!(controller.run(true, true), Turn::TearDown);
    let end = Received::Cmd(host(1, HostEvent::SessionEnd));
    assert_eq!(controller.on_received(end, true, true), Dispatch::Do(Action::Nothing));
    assert_eq!(controller.phase(), Phase::Editing);
    controller.recover(true);
    assert_eq!(controller.teardown(true), [Parting::EndNvim, Parting::Quit]);
    assert_eq!(controller.generation(), 2);
    assert_eq!(controller.teardown(true), [Parting::Quit]);
    assert_eq!(controller.on_received(Received::Closed, false, false), Dispatch::TearDown);
    assert_eq!(
        controller.on_received(Received::Timeout, false, false),
        Dispatch::Do(Action::Nothing)
    );
}

#[test]
fn a_pair_is_replaced_step_by_step() {
    let mut pair = Pair::begin(Some(true));
    assert_eq!(pair.next(), PairStep::EndOld);
    pair.on_ui(RestartEnd::Up);
    assert_eq!(pair.next(), PairStep::EndOld);
    pair.on_cleared(true);
    assert_eq!(pair.next(), PairStep::Spawn);
    pair.on_spawned(RestartEnd::Up);
    assert_eq!(pair.next(), PairStep::AttachUi);
    pair.on_ui(RestartEnd::Up);
    assert_eq!(pair.next(), PairStep::End(RestartEnd::Up));
}

#[test]
fn a_pair_without_a_screen_is_ended_again() {
    for (end, cancelled) in [(RestartEnd::Cancelled, true), (RestartEnd::Failed, false)] {
        let mut pair = Pair::begin(Some(false));
        assert_eq!(pair.next(), PairStep::Hide);
        pair.on_cleared(true);
        pair.on_spawned(RestartEnd::Up);
        pair.on_ui(end);
        assert_eq!(pair.next(), PairStep::EndNew { cancelled });
        pair.on_new_ended();
        assert_eq!(pair.next(), PairStep::End(end));
    }
}

#[test]
fn a_pair_that_may_not_be_started_is_cancelled() {
    assert_eq!(Pair::begin(None).next(), PairStep::End(RestartEnd::Cancelled));
    let mut pair = Pair::begin(Some(true));
    pair.on_cleared(false);
    assert_eq!(pair.next(), PairStep::End(RestartEnd::Cancelled));
    let mut pair = Pair::begin(Some(true));
    pair.on_cleared(true);
    pair.on_spawned(RestartEnd::Failed);
    assert_eq!(pair.next(), PairStep::End(RestartEnd::Failed));
}

#[test]
fn the_window_is_told_last() {
    let mut controller = started();
    assert_eq!(
        controller.teardown(false),
        [Parting::Exit, Parting::EndNvim, Parting::Quit]
    );
    let mut controller = Controller::start(0);
    assert_eq!(controller.teardown(false), [Parting::Exit, Parting::Quit]);
}

#[test]
fn an_exit_may_come_while_a_command_is_acted_on() {
    let mut controller = started();
    for cmd in [Cmd::Start, Cmd::Hotkey, Cmd::Input("x".to_string())] {
        assert_eq!(
            controller.on_received(Received::Cmd(cmd), false, true),
            Dispatch::Do(Action::Nothing)
        );
    }
    assert_eq!(controller.run(false, true), Turn::Receive(Wait::Forever));
    let mut controller = editing(&["a"]);
    let end = Received::Cmd(host(1, HostEvent::SessionEnd));
    assert_eq!(
        controller.on_received(end, false, true),
        Dispatch::Do(Action::Finish { target: 99, applied: Applied::Discarded })
    );
}

#[test]
fn an_old_neovim_stays_silent_for_good() {
    let mut controller = started();
    let old = controller.generation();
    for end in [RestartEnd::Cancelled, RestartEnd::Failed, RestartEnd::Up, RestartEnd::Up] {
        controller.restart_pair(true);
        controller.on_restarted(end);
        assert_eq!(obey(&mut controller, host(old, HostEvent::Disconnected)), Action::Nothing);
        assert_ne!(controller.generation(), old);
    }
    assert_eq!(controller.run(false, true), Turn::Receive(Wait::Forever));
    obey(&mut controller, Cmd::Hotkey);
    controller.on_session_started(true, 5, owned(&["new"]));
    assert_eq!(obey(&mut controller, host(old, HostEvent::SessionEnd)), Action::Nothing);
    assert_eq!(controller.phase(), Phase::Editing);
}
