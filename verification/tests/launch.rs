//! Starting Neovim.
use std::path::PathBuf;

use anvi::launch::{
    Attach, AttachEnd, AttachStep, CONNECT_ATTEMPTS, ChildStatus, Connected, Launch, LaunchEnd,
    LaunchStep, PORT_ATTEMPTS,
};
use anvi::policy::SpawnPolicy;
use anvi::server::{
    Arg, NoChannel, NvimConfig, listen_on, register_host, spawn_child, start_session,
    took_every_byte,
};
use anvi::value::Value;

fn config() -> NvimConfig<PathBuf> {
    NvimConfig {
        nvim_exe: PathBuf::from("/nonexistent/nvim"),
        runtime_dir: PathBuf::from("/nonexistent/runtime"),
        appname: "anvi-test".to_string(),
    }
}

fn report(launch: &Launch, init_lua: &str) -> String {
    let cfg = config();
    launch.report(&cfg.nvim_exe.display().to_string(), &cfg.appname, init_lua)
}

#[test]
fn system_shutdown_inhibits_even_initial_spawn_without_a_query() {
    let policy = SpawnPolicy::new(|| true);
    let launch = Launch::begin(policy.check().is_err());
    assert_eq!(launch.next(), LaunchStep::End(LaunchEnd::Cancelled));
}

#[test]
fn spawn_fails_fast_when_the_bundled_init_lua_is_missing() {
    let mut launch = Launch::begin(false);
    assert_eq!(launch.next(), LaunchStep::FindInitLua);
    launch.on_init_lua(false, false);
    assert_eq!(launch.next(), LaunchStep::End(LaunchEnd::NoInitLua));
    let err = report(&launch, "/nonexistent/runtime/init.lua");
    assert!(err.contains("init.lua"), "unexpected error: {err}");
    assert_eq!(
        err,
        "bundled init.lua not found at /nonexistent/runtime/init.lua \
         (runtime_dir must contain init.lua and lua/anvi/)"
    );
}

#[test]
fn spawn_reports_a_missing_nvim_executable() {
    let mut launch = Launch::begin(false);
    launch.on_init_lua(true, false);
    launch.on_port(Some(7), false);
    assert_eq!(launch.next(), LaunchStep::CreateProcess { port: 7 });
    launch.on_process(false, false);
    assert_eq!(launch.next(), LaunchStep::End(LaunchEnd::NoProcess));
    let err = report(&launch, "init.lua");
    assert!(
        err.contains("failed to spawn nvim"),
        "unexpected error: {err}"
    );
    assert_eq!(err, "failed to spawn nvim at /nonexistent/nvim (NVIM_APPNAME=anvi-test)");
}

/// Goes through a start, and counts the processes that it creates. `inhibited` is asked before each
/// word.
fn run(launch: &mut Launch, mut inhibited: impl FnMut() -> bool) -> usize {
    let mut processes = 0;
    let mut port = 1000;
    loop {
        let now = inhibited();
        match launch.next() {
            LaunchStep::FindInitLua => launch.on_init_lua(true, now),
            LaunchStep::PickPort => {
                port += 1;
                launch.on_port(Some(port), now);
            }
            LaunchStep::CreateProcess { .. } => {
                processes += 1;
                launch.on_process(true, now);
            }
            LaunchStep::DrainStderr { .. } => launch.on_stderr(true),
            LaunchStep::Attach { .. } => launch.on_attached(Err("gone".to_string()), now),
            LaunchStep::End(_) => return processes,
        }
    }
}

#[test]
fn shutdown_query_cancels_a_live_spawn_without_retrying_then_can_resume() {
    let mut words = 0;
    let mut launch = Launch::begin(false);
    // The query comes when the first child is being connected to.
    let processes = run(&mut launch, || {
        words += 1;
        words >= 5
    });
    assert_eq!(launch.next(), LaunchStep::End(LaunchEnd::Cancelled));
    assert_eq!(processes, 1);
    assert!(launch.failures().is_empty());
    assert_eq!(
        report(&launch, "init.lua"),
        "nvim spawning is inhibited by shutdown"
    );

    let mut launch = Launch::begin(false);
    let processes = run(&mut launch, || false);
    assert_eq!(launch.next(), LaunchStep::End(LaunchEnd::GaveUp));
    assert_eq!(
        processes,
        PORT_ATTEMPTS as usize,
        "after cancellation, ordinary failed-child port retries must work again"
    );
    assert_eq!(
        report(&launch, "init.lua"),
        "nvim (/nonexistent/nvim) did not come up on 5 different ports \
         [port 1001: gone; port 1002: gone; port 1003: gone; port 1004: gone; port 1005: gone]; \
         the nvim.stderr log records carry nvim's own message"
    );
}

#[test]
fn a_start_comes_up_on_its_port() {
    let mut launch = Launch::begin(false);
    launch.on_init_lua(true, false);
    launch.on_port(Some(5000), false);
    launch.on_process(true, false);
    assert_eq!(launch.next(), LaunchStep::DrainStderr { port: 5000 });
    launch.on_stderr(true);
    assert_eq!(launch.next(), LaunchStep::Attach { port: 5000 });
    launch.on_attached(Ok(()), false);
    assert_eq!(launch.next(), LaunchStep::End(LaunchEnd::Up { port: 5000 }));
    assert_eq!(report(&launch, "init.lua"), "");
}

#[test]
fn a_cancellation_has_the_last_word() {
    let mut launch = Launch::begin(false);
    launch.on_init_lua(true, false);
    launch.on_port(Some(5000), false);
    launch.on_process(true, false);
    launch.on_stderr(true);
    launch.on_attached(Ok(()), true);
    assert_eq!(launch.next(), LaunchStep::End(LaunchEnd::CancelledUp));
}

#[test]
fn other_failures_end_a_start() {
    let mut launch = Launch::begin(false);
    launch.on_init_lua(true, false);
    launch.on_port(None, false);
    assert_eq!(launch.next(), LaunchStep::End(LaunchEnd::NoPort));
    assert_eq!(
        report(&launch, "init.lua"),
        "failed to pick a free TCP port for nvim"
    );
    let mut launch = Launch::begin(false);
    launch.on_init_lua(true, false);
    launch.on_port(Some(1), false);
    launch.on_process(true, false);
    launch.on_stderr(false);
    assert_eq!(launch.next(), LaunchStep::End(LaunchEnd::NoStderr));
    assert_eq!(
        report(&launch, "init.lua"),
        "nvim was spawned without a piped stderr"
    );
}

#[test]
fn word_out_of_turn_changes_nothing() {
    let mut launch = Launch::begin(false);
    launch.on_process(true, true);
    launch.on_stderr(false);
    launch.on_attached(Ok(()), true);
    launch.on_port(None, true);
    assert_eq!(launch.next(), LaunchStep::FindInitLua);
    let mut attach = Attach::begin(false);
    attach.on_waited(true);
    attach.on_handshake(true, true);
    attach.on_connect(Connected::Timeout, true);
    assert_eq!(attach.next(), AttachStep::PollChild);
}

#[test]
fn a_refused_connection_is_tried_again() {
    let mut attach = Attach::begin(false);
    let mut tries = 0;
    while let AttachStep::PollChild = attach.next() {
        attach.on_child(ChildStatus::Running);
        assert_eq!(attach.next(), AttachStep::Connect);
        tries += 1;
        attach.on_connect(Connected::Refused(format!("refused {tries}")), false);
        assert_eq!(attach.next(), AttachStep::Wait);
        attach.on_waited(false);
    }
    assert_eq!(attach.next(), AttachStep::End(AttachEnd::Unreachable));
    assert_eq!(tries, CONNECT_ATTEMPTS);
    assert_eq!(attach.last_error(), &Some("refused 100".to_string()));
    assert_eq!(
        attach.report(4321, ""),
        "could not connect to the nvim server at 127.0.0.1:4321 within 2s (100 attempts); \
         last error: refused 100"
    );
}

#[test]
fn a_connection_is_registered() {
    let mut attach = Attach::begin(false);
    attach.on_child(ChildStatus::Running);
    attach.on_connect(Connected::Accepted, false);
    assert_eq!(attach.next(), AttachStep::Handshake);
    attach.on_handshake(true, false);
    assert_eq!(attach.next(), AttachStep::End(AttachEnd::Registered));
}

#[test]
fn each_end_of_connecting_is_told_apart() {
    let attach = Attach::begin(true);
    assert_eq!(attach.next(), AttachStep::End(AttachEnd::Cancelled));

    let mut attach = Attach::begin(false);
    attach.on_child(ChildStatus::Exited);
    assert_eq!(attach.next(), AttachStep::End(AttachEnd::ChildGone));
    assert_eq!(
        attach.report(1, "exit status: 1"),
        "nvim exited before accepting a connection (exit status: 1)"
    );

    let mut attach = Attach::begin(false);
    attach.on_child(ChildStatus::Unknown);
    assert_eq!(attach.next(), AttachStep::End(AttachEnd::ChildUnknown));
    assert_eq!(attach.report(1, "e"), "failed to poll the nvim child process: e");

    let mut attach = Attach::begin(false);
    attach.on_child(ChildStatus::Running);
    attach.on_connect(Connected::Timeout, false);
    assert_eq!(attach.next(), AttachStep::End(AttachEnd::ConnectTimeout));
    assert_eq!(attach.report(1, ""), "timed out connecting to nvim");
    assert_eq!(
        attach.report(1, "deadline has elapsed"),
        "timed out connecting to nvim: deadline has elapsed"
    );

    let mut attach = Attach::begin(false);
    attach.on_child(ChildStatus::Running);
    attach.on_connect(Connected::Interrupted, false);
    assert_eq!(attach.next(), AttachStep::End(AttachEnd::Cancelled));

    let mut attach = Attach::begin(false);
    attach.on_child(ChildStatus::Running);
    attach.on_connect(Connected::Accepted, false);
    attach.on_handshake(false, false);
    assert_eq!(attach.next(), AttachStep::End(AttachEnd::NoHandshake));
    assert_eq!(attach.report(1, "not neovim"), "not neovim");

    let mut attach = Attach::begin(false);
    attach.on_child(ChildStatus::Running);
    attach.on_connect(Connected::Accepted, false);
    attach.on_handshake(true, true);
    assert_eq!(attach.next(), AttachStep::End(AttachEnd::CancelledConnected));
    assert_eq!(attach.report(1, ""), "nvim spawning is inhibited by shutdown");
}

#[test]
fn the_child_is_kept_apart_from_other_neovims() {
    let cfg = config();
    let init_lua = PathBuf::from("rt/init.lua");
    let command = spawn_child(&cfg, &init_lua, 65535);
    assert_eq!(command.program, &PathBuf::from("/nonexistent/nvim"));
    assert_eq!(
        command.args,
        [
            Arg::Text("--headless".to_string()),
            Arg::Text("--listen".to_string()),
            Arg::Text("127.0.0.1:65535".to_string()),
            Arg::Text("-u".to_string()),
            Arg::Path(&init_lua),
            Arg::Text("--noplugin".to_string()),
        ]
    );
    assert_eq!(
        command.env,
        [("NVIM_APPNAME".to_string(), "anvi-test".to_string())]
    );
    assert_eq!(command.env_remove, ["VIMRUNTIME", "VIM"]);
    assert_eq!(listen_on(1), "127.0.0.1:1");
}

#[test]
fn a_session_starts_with_its_lines() {
    let lines = vec!["hello".to_string(), String::new()];
    assert_eq!(
        start_session(&lines, Some("markdown")),
        [
            Value::List(vec![Value::Text("hello".to_string()), Value::Text(String::new())]),
            Value::Text("markdown".to_string())
        ]
    );
    assert_eq!(start_session(&vec![], None), [Value::List(vec![]), Value::Nil]);
}

#[test]
fn an_input_may_be_taken_in_part() {
    assert!(took_every_byte(3, 3));
    assert!(took_every_byte(4, 3));
    assert!(!took_every_byte(2, 3));
    assert!(!took_every_byte(-1, 0));
}

#[test]
fn the_first_thing_that_neovim_says_is_its_channel() {
    assert_eq!(register_host(&vec![Value::Integer(1), Value::Nil]), Ok(1));
    assert_eq!(register_host(&vec![]), Err(NoChannel::EmptyInfo));
    assert_eq!(register_host(&vec![Value::Nil]), Err(NoChannel::NotAChannel));
}

#[test]
fn a_missing_channel_is_put_into_words() {
    assert_eq!(
        NoChannel::EmptyInfo.message(),
        "nvim_get_api_info returned an empty array"
    );
    assert_eq!(
        NoChannel::NotAChannel.message(),
        "nvim_get_api_info's first element is not a channel id: "
    );
}
