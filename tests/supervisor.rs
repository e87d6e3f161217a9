use watchx::supervisor::{
    parse_command, Action, Aggressiveness, Notice, Reply, Step, Supervisor, POLL_LIMIT, PORT_RETRIES,
};

fn commands(list: &[&str]) -> Vec<String> {
    list.iter().map(|s| s.to_string()).collect()
}

fn step(sup: &mut Supervisor, reply: Reply) -> Step {
    sup.step(reply)
}

#[test]
fn parses_program_and_arguments() {
    let c = parse_command("  node   server.js --port 3000 ").unwrap();
    assert_eq!(c.program, "node");
    assert_eq!(c.args, vec!["server.js", "--port", "3000"]);
}

#[test]
fn whitespace_command_is_invalid() {
    assert!(parse_command(" \t  ").is_none());
    assert!(parse_command("").is_none());
}

#[test]
fn reclaims_port_owner_then_launches() {
    let mut sup = Supervisor::new(&commands(&["node server.js"]), 3000, Aggressiveness::Graceful);
    let s = sup.begin_restart();
    assert_eq!(s, Step { action: Action::ListPortOwners { port: 3000 }, notice: None });
    let s = step(&mut sup, Reply::Owners(vec![42]));
    assert_eq!(s.action, Action::Terminate { pid: 42, force: false });
    let s = step(&mut sup, Reply::Done);
    assert_eq!(s.action, Action::Pause { millis: 500 });
    let s = step(&mut sup, Reply::Done);
    assert_eq!(s.action, Action::ListPortOwners { port: 3000 });
    let s = step(&mut sup, Reply::Owners(vec![42]));
    assert_eq!(s.action, Action::Terminate { pid: 42, force: true });
    let s = step(&mut sup, Reply::Done);
    assert_eq!(s.action, Action::Pause { millis: 1000 });
    let s = step(&mut sup, Reply::Done);
    assert_eq!(s.action, Action::ProbePort { port: 3000 });
    let s = step(&mut sup, Reply::Flag(true));
    assert_eq!(s, Step { action: Action::ClearGroup, notice: Some(Notice::PortFreed) });
    let s = step(&mut sup, Reply::Done);
    assert_eq!(s.action, Action::ProbePort { port: 3000 });
    let s = step(&mut sup, Reply::Flag(true));
    assert_eq!(s.action, Action::Spawn { index: 0 });
    let line = sup.command_line(0).as_ref().unwrap();
    assert_eq!(line.program, "node");
    assert_eq!(line.args, vec!["server.js"]);
    let s = step(&mut sup, Reply::Flag(true));
    assert_eq!(s.action, Action::Finished);
    assert_eq!(sup.live_handles(), 1);
    assert!(!sup.is_restarting());
}

#[test]
fn owner_gone_after_grace_is_not_forced() {
    let mut sup = Supervisor::new(&commands(&["app"]), 8080, Aggressiveness::Graceful);
    sup.begin_restart();
    step(&mut sup, Reply::Owners(vec![7, 9]));
    step(&mut sup, Reply::Done);
    step(&mut sup, Reply::Done);
    let s = step(&mut sup, Reply::Owners(vec![9]));
    assert_eq!(s.action, Action::Terminate { pid: 9, force: false });
}

#[test]
fn immediate_policy_forces_at_once() {
    let mut sup = Supervisor::new(&commands(&["app"]), 8080, Aggressiveness::Immediate);
    sup.begin_restart();
    let s = step(&mut sup, Reply::Owners(vec![7, 9]));
    assert_eq!(s.action, Action::Terminate { pid: 7, force: true });
    let s = step(&mut sup, Reply::Done);
    assert_eq!(s.action, Action::Terminate { pid: 9, force: true });
    let s = step(&mut sup, Reply::Done);
    assert_eq!(s.action, Action::Pause { millis: 1000 });
    let s = step(&mut sup, Reply::Done);
    assert_eq!(s.action, Action::ProbePort { port: 8080 });
    let s = step(&mut sup, Reply::Flag(false));
    assert_eq!(s.notice, Some(Notice::PortStillInUse));
}

fn launch_all(sup: &mut Supervisor, n: usize) {
    let s = sup.begin_restart();
    assert_eq!(s.action, Action::ListPortOwners { port: sup.port() });
    let s = step(sup, Reply::Owners(Vec::new()));
    assert_eq!(s.notice, Some(Notice::NoPortOwners));
    step(sup, Reply::Flag(true));
    step(sup, Reply::Done);
    let mut s = step(sup, Reply::Flag(true));
    for i in 0..n {
        assert_eq!(s.action, Action::Spawn { index: i });
        s = step(sup, Reply::Flag(true));
    }
    assert_eq!(s.action, Action::Finished);
}

#[test]
fn whitespace_command_is_reported_and_others_start() {
    let mut sup = Supervisor::new(&commands(&["   ", "node server.js"]), 3000, Aggressiveness::Graceful);
    sup.begin_restart();
    step(&mut sup, Reply::Owners(Vec::new()));
    step(&mut sup, Reply::Flag(true));
    step(&mut sup, Reply::Done);
    let s = step(&mut sup, Reply::Flag(true));
    assert_eq!(s.action, Action::Proceed);
    let s = step(&mut sup, Reply::Done);
    assert_eq!(s, Step { action: Action::Spawn { index: 1 }, notice: Some(Notice::InvalidCommand { index: 0 }) });
    let s = step(&mut sup, Reply::Flag(true));
    assert_eq!(s.action, Action::Finished);
    assert_eq!(sup.live_handles(), 1);
}

#[test]
fn second_restart_while_running_is_refused() {
    let mut sup = Supervisor::new(&commands(&["app"]), 3000, Aggressiveness::Graceful);
    let first = sup.begin_restart();
    assert_eq!(first.action, Action::ListPortOwners { port: 3000 });
    let second = sup.begin_restart();
    assert_eq!(second, Step { action: Action::Finished, notice: Some(Notice::AlreadyRestarting) });
    assert!(sup.is_restarting());
    let s = step(&mut sup, Reply::Owners(Vec::new()));
    assert_eq!(s.action, Action::ProbePort { port: 3000 });
}

#[test]
fn old_generation_is_stopped_before_launch() {
    let mut sup = Supervisor::new(&commands(&["a", "b"]), 3000, Aggressiveness::Graceful);
    launch_all(&mut sup, 2);
    assert_eq!(sup.live_handles(), 2);
    sup.begin_restart();
    step(&mut sup, Reply::Owners(Vec::new()));
    let s = step(&mut sup, Reply::Flag(true));
    assert_eq!(s.action, Action::KillHandle { slot: 0 });
    let s = step(&mut sup, Reply::Done);
    assert_eq!(s.action, Action::PollHandle { slot: 0 });
    let s = step(&mut sup, Reply::Flag(true));
    assert_eq!(s.action, Action::KillHandle { slot: 1 });
    step(&mut sup, Reply::Done);
    let s = step(&mut sup, Reply::Flag(true));
    assert_eq!(s.action, Action::ClearGroup);
    step(&mut sup, Reply::Done);
    assert_eq!(sup.live_handles(), 0);
}

#[test]
fn process_that_never_exits_is_left_behind() {
    let mut sup = Supervisor::new(&commands(&["a"]), 3000, Aggressiveness::Graceful);
    launch_all(&mut sup, 1);
    sup.begin_restart();
    step(&mut sup, Reply::Owners(Vec::new()));
    step(&mut sup, Reply::Flag(true));
    let mut s = step(&mut sup, Reply::Done);
    let mut polls: u64 = 0;
    loop {
        assert_eq!(s.action, Action::PollHandle { slot: 0 });
        polls += 1;
        s = step(&mut sup, Reply::Flag(false));
        if s.action != (Action::Pause { millis: 100 }) {
            break;
        }
        s = step(&mut sup, Reply::Done);
    }
    assert_eq!(polls, POLL_LIMIT);
    assert_eq!(s, Step { action: Action::ClearGroup, notice: Some(Notice::HandleOrphaned { slot: 0 }) });
}

#[test]
fn busy_port_is_retried_then_reported() {
    let mut sup = Supervisor::new(&commands(&["a"]), 3000, Aggressiveness::Graceful);
    sup.begin_restart();
    step(&mut sup, Reply::Owners(Vec::new()));
    step(&mut sup, Reply::Flag(false));
    let mut s = step(&mut sup, Reply::Done);
    for left in (1..=PORT_RETRIES).rev() {
        assert_eq!(s.action, Action::ProbePort { port: 3000 });
        s = step(&mut sup, Reply::Flag(false));
        assert_eq!(s, Step { action: Action::ListPortOwners { port: 3000 }, notice: Some(Notice::PortRetry { attempts_left: left }) });
        s = step(&mut sup, Reply::Owners(Vec::new()));
        assert_eq!(s.action, Action::ProbePort { port: 3000 });
        s = step(&mut sup, Reply::Flag(false));
        assert_eq!(s, Step { action: Action::Pause { millis: 1000 }, notice: Some(Notice::PortStillInUse) });
        s = step(&mut sup, Reply::Done);
    }
    assert_eq!(s.action, Action::ProbePort { port: 3000 });
    let s = step(&mut sup, Reply::Flag(false));
    assert_eq!(s, Step { action: Action::Spawn { index: 0 }, notice: Some(Notice::CouldNotFreePort) });
    let s = step(&mut sup, Reply::Flag(false));
    assert_eq!(s.action, Action::Finished);
    assert_eq!(sup.live_handles(), 0);
}

#[test]
fn idle_supervisor_ignores_replies() {
    let mut sup = Supervisor::new(&commands(&["a"]), 3000, Aggressiveness::Graceful);
    let s = step(&mut sup, Reply::Flag(true));
    assert_eq!(s, Step { action: Action::Finished, notice: None });
    assert_eq!(sup.live_handles(), 0);
}

#[test]
fn first_launch_starts_commands_without_reclaiming() {
    let mut sup = Supervisor::new(&commands(&["a", "  ", "b"]), 3000, Aggressiveness::Graceful);
    let s = sup.begin_launch();
    assert_eq!(s, Step { action: Action::Spawn { index: 0 }, notice: None });
    let s = step(&mut sup, Reply::Flag(true));
    assert_eq!(s.action, Action::Proceed);
    let s = step(&mut sup, Reply::Done);
    assert_eq!(s, Step { action: Action::Spawn { index: 2 }, notice: Some(Notice::InvalidCommand { index: 1 }) });
    let s = step(&mut sup, Reply::Flag(true));
    assert_eq!(s.action, Action::Finished);
    assert_eq!(sup.live_handles(), 2);
    let again = sup.begin_launch();
    assert_eq!(again, Step { action: Action::Finished, notice: Some(Notice::AlreadyLaunched) });
    assert_eq!(sup.live_handles(), 2);
}
