use hypridle_manager::config::Config;
use hypridle_manager::power::PowerSource;
use hypridle_manager::supervisor::{Action, Supervisor};

fn config(quiet: bool) -> Config {
    Config {
        hypridle_ac_conf: "/etc/hypr/ac.conf".to_string(),
        hypridle_bat_conf: "/etc/hypr/bat.conf".to_string(),
        log_level: "debug".to_string(),
        hypridle_quiet: quiet,
    }
}

/// A driver whose processes are numbers: it writes down what it is asked to
/// do, counts the children alive, and installs what each start gives.
struct Driver {
    log: Vec<String>,
    next_pid: u32,
    live: Vec<u32>,
    most_live: usize,
}

impl Driver {
    fn new() -> Driver {
        Driver { log: Vec::new(), next_pid: 100, live: Vec::new(), most_live: 0 }
    }

    fn perform(
        &mut self,
        supervisor: &mut Supervisor<u32>,
        actions: Vec<Action<u32>>,
        spawn_succeeds: bool,
    ) {
        for action in actions {
            match action {
                Action::Stop(pid) => {
                    self.live.retain(|live| *live != pid);
                    self.log.push(format!("stop {}", pid));
                }
                Action::Start(command) => {
                    let mut line = command.program.clone();
                    for arg in &command.args {
                        line.push(' ');
                        line.push_str(arg);
                    }
                    if spawn_succeeds {
                        let pid = self.next_pid;
                        self.next_pid += 1;
                        self.live.push(pid);
                        self.log.push(format!("start {} as {}", line, pid));
                        supervisor.install(Some(pid));
                    } else {
                        self.log.push(format!("fail {}", line));
                        supervisor.install(None);
                    }
                }
            }
            self.most_live = self.most_live.max(self.live.len());
        }
    }
}

#[test]
fn startup_starts_a_child_for_the_initial_source() {
    let (mut supervisor, actions) = Supervisor::<u32>::start(config(false), true);
    assert_eq!(supervisor.source(), PowerSource::OnBattery);
    assert_eq!(supervisor.child(), None);
    assert_eq!(actions.len(), 1);
    let mut driver = Driver::new();
    driver.perform(&mut supervisor, actions, true);
    assert_eq!(driver.log, vec!["start hypridle -c /etc/hypr/bat.conf as 100"]);
    assert_eq!(supervisor.child(), Some(&100));
}

#[test]
fn startup_on_ac_power_uses_the_ac_config() {
    let (mut supervisor, actions) = Supervisor::<u32>::start(config(true), false);
    assert_eq!(supervisor.source(), PowerSource::OnACPower);
    let mut driver = Driver::new();
    driver.perform(&mut supervisor, actions, true);
    assert_eq!(driver.log, vec!["start hypridle -c /etc/hypr/ac.conf -q as 100"]);
}

#[test]
fn battery_then_repeat_then_ac_power() {
    let (mut supervisor, actions) = Supervisor::<u32>::start(config(false), true);
    let mut driver = Driver::new();
    driver.perform(&mut supervisor, actions, true);
    assert_eq!(driver.log, vec!["start hypridle -c /etc/hypr/bat.conf as 100"]);

    let actions = supervisor.notify(true);
    assert!(actions.is_empty());
    driver.perform(&mut supervisor, actions, true);
    assert_eq!(driver.log.len(), 1);
    assert_eq!(supervisor.source(), PowerSource::OnBattery);
    assert_eq!(supervisor.child(), Some(&100));

    let actions = supervisor.notify(false);
    assert_eq!(actions.len(), 2);
    assert!(matches!(actions[0], Action::Stop(100)));
    assert!(matches!(actions[1], Action::Start(_)));
    assert_eq!(supervisor.child(), None);
    driver.perform(&mut supervisor, actions, true);
    assert_eq!(
        driver.log,
        vec![
            "start hypridle -c /etc/hypr/bat.conf as 100",
            "stop 100",
            "start hypridle -c /etc/hypr/ac.conf as 101",
        ]
    );
    assert_eq!(supervisor.source(), PowerSource::OnACPower);
    assert_eq!(supervisor.child(), Some(&101));
    assert_eq!(driver.live, vec![101]);
}

#[test]
fn repeated_values_start_nothing() {
    let (mut supervisor, actions) = Supervisor::<u32>::start(config(true), false);
    let mut driver = Driver::new();
    driver.perform(&mut supervisor, actions, true);
    for _ in 0..5 {
        let actions = supervisor.notify(false);
        assert!(actions.is_empty());
        driver.perform(&mut supervisor, actions, true);
    }
    assert_eq!(driver.log, vec!["start hypridle -c /etc/hypr/ac.conf -q as 100"]);
    assert_eq!(supervisor.child(), Some(&100));
    assert_eq!(supervisor.source(), PowerSource::OnACPower);
}

#[test]
fn child_follows_every_change() {
    let (mut supervisor, actions) = Supervisor::<u32>::start(config(false), false);
    let mut driver = Driver::new();
    driver.perform(&mut supervisor, actions, true);
    let reported = [true, true, false, true, true, true, false, false];
    for on_battery in reported {
        let actions = supervisor.notify(on_battery);
        driver.perform(&mut supervisor, actions, true);
        assert_eq!(supervisor.source(), PowerSource::from_on_battery(on_battery));
    }
    assert_eq!(
        driver.log,
        vec![
            "start hypridle -c /etc/hypr/ac.conf as 100",
            "stop 100",
            "start hypridle -c /etc/hypr/bat.conf as 101",
            "stop 101",
            "start hypridle -c /etc/hypr/ac.conf as 102",
            "stop 102",
            "start hypridle -c /etc/hypr/bat.conf as 103",
            "stop 103",
            "start hypridle -c /etc/hypr/ac.conf as 104",
        ]
    );
    assert_eq!(supervisor.child(), Some(&104));
}

#[test]
fn never_more_than_one_child_alive() {
    let (mut supervisor, actions) = Supervisor::<u32>::start(config(false), true);
    let mut driver = Driver::new();
    driver.perform(&mut supervisor, actions, true);
    let reported = [false, true, true, false, false, true, false];
    let spawns = [true, true, true, false, true, true, true];
    for (on_battery, spawn_succeeds) in reported.into_iter().zip(spawns) {
        let actions = supervisor.notify(on_battery);
        driver.perform(&mut supervisor, actions, spawn_succeeds);
        assert!(driver.live.len() <= 1);
        assert_eq!(supervisor.child().copied(), driver.live.first().copied());
    }
    assert_eq!(driver.most_live, 1);
}

#[test]
fn stop_comes_before_start() {
    let (mut supervisor, actions) = Supervisor::<u32>::start(config(false), true);
    let mut driver = Driver::new();
    driver.perform(&mut supervisor, actions, true);
    let actions = supervisor.notify(false);
    assert_eq!(actions.len(), 2);
    match &actions[0] {
        Action::Stop(pid) => assert_eq!(*pid, 100),
        Action::Start(_) => panic!("the start came first"),
    }
    match &actions[1] {
        Action::Start(command) => {
            assert_eq!(command.program, "hypridle");
            assert_eq!(command.args, vec!["-c", "/etc/hypr/ac.conf"]);
        }
        Action::Stop(_) => panic!("a second stop"),
    }
}

#[test]
fn failed_first_start_leaves_the_slot_empty() {
    let (mut supervisor, actions) = Supervisor::<u32>::start(config(false), true);
    let mut driver = Driver::new();
    driver.perform(&mut supervisor, actions, false);
    assert_eq!(driver.log, vec!["fail hypridle -c /etc/hypr/bat.conf"]);
    assert_eq!(supervisor.child(), None);
    assert_eq!(supervisor.source(), PowerSource::OnBattery);
}

#[test]
fn failed_start_is_tried_afresh_on_the_next_change() {
    let (mut supervisor, actions) = Supervisor::<u32>::start(config(true), true);
    let mut driver = Driver::new();
    driver.perform(&mut supervisor, actions, true);

    let actions = supervisor.notify(false);
    driver.perform(&mut supervisor, actions, false);
    assert_eq!(supervisor.child(), None);
    assert_eq!(supervisor.source(), PowerSource::OnACPower);

    let actions = supervisor.notify(false);
    assert!(actions.is_empty());

    let actions = supervisor.notify(true);
    assert_eq!(actions.len(), 1);
    assert!(matches!(actions[0], Action::Start(_)));
    driver.perform(&mut supervisor, actions, true);
    assert_eq!(
        driver.log,
        vec![
            "start hypridle -c /etc/hypr/bat.conf -q as 100",
            "stop 100",
            "fail hypridle -c /etc/hypr/ac.conf -q",
            "start hypridle -c /etc/hypr/bat.conf -q as 101",
        ]
    );
    assert_eq!(supervisor.child(), Some(&101));
    assert_eq!(driver.live, vec![101]);
}

#[test]
fn install_replaces_what_the_slot_holds() {
    let (mut supervisor, _) = Supervisor::<u32>::start(config(false), false);
    supervisor.install(Some(7));
    assert_eq!(supervisor.child(), Some(&7));
    supervisor.install(None);
    assert_eq!(supervisor.child(), None);
    supervisor.install(Some(9));
    assert_eq!(supervisor.child(), Some(&9));
    assert_eq!(supervisor.source(), PowerSource::OnACPower);
}

#[test]
fn supervisor_keeps_its_config() {
    let (mut supervisor, _) = Supervisor::<u32>::start(config(true), false);
    let _ = supervisor.notify(true);
    supervisor.install(Some(1));
    let _ = supervisor.notify(false);
    assert_eq!(supervisor.config().hypridle_ac_conf, "/etc/hypr/ac.conf");
    assert_eq!(supervisor.config().hypridle_bat_conf, "/etc/hypr/bat.conf");
    assert_eq!(supervisor.config().log_level, "debug");
    assert!(supervisor.config().hypridle_quiet);
}

#[test]
fn handles_need_not_be_numbers() {
    let (mut supervisor, _) = Supervisor::<String>::start(config(false), true);
    supervisor.install(Some("first".to_string()));
    let actions = supervisor.notify(false);
    assert_eq!(actions.len(), 2);
    match &actions[0] {
        Action::Stop(handle) => assert_eq!(handle, "first"),
        Action::Start(_) => panic!("the start came first"),
    }
    assert_eq!(supervisor.child(), None);
}
