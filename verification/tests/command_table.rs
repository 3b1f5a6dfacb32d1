use gnirehtet::adb::{cmd_start, cmd_stop};
use gnirehtet::cli_args::{CommandLineArguments, PARAM_DNS_SERVERS, PARAM_NONE, PARAM_ROUTES, PARAM_SERIAL};
use gnirehtet::command::{cmd_autorun, cmd_autostart, cmd_run, resolve_command, Command, Execution, Resolution};
use gnirehtet::usage::{append_command_usage, command_usage_text, usage_text};

fn strings(v: &[&str]) -> Vec<String> {
    v.iter().map(|s| s.to_string()).collect()
}

#[test]
fn command_names_in_order() {
    let names: Vec<&str> = Command::all().iter().map(|c| c.command()).collect();
    assert_eq!(
        names,
        vec!["install", "uninstall", "reinstall", "run", "autorun", "start", "autostart", "stop", "restart", "tunnel", "relay"]
    );
}

#[test]
fn accepted_parameters_of_commands() {
    assert_eq!(Command::Install.accepted_parameters(), PARAM_SERIAL);
    assert_eq!(Command::Run.accepted_parameters(), PARAM_SERIAL | PARAM_DNS_SERVERS | PARAM_ROUTES);
    assert_eq!(Command::Autorun.accepted_parameters(), PARAM_DNS_SERVERS | PARAM_ROUTES);
    assert_eq!(Command::Relay.accepted_parameters(), PARAM_NONE);
    assert_eq!(Command::Restart.accepted_parameters(), 7);
}

#[test]
fn resolve_names() {
    assert_eq!(resolve_command("install"), Resolution::Found(Command::Install));
    assert_eq!(resolve_command("autostart"), Resolution::Found(Command::Autostart));
    assert_eq!(resolve_command("rt"), Resolution::Renamed(Command::Run));
    assert_eq!(resolve_command("installs"), Resolution::Unknown);
    assert_eq!(resolve_command(""), Resolution::Unknown);
}

#[test]
fn usage_of_relay() {
    assert_eq!(
        command_usage_text(&Command::Relay),
        "  gnirehtet relay\n      Start the relay server in the current terminal.\n"
    );
}

#[test]
fn usage_of_run() {
    assert_eq!(
        command_usage_text(&Command::Run),
        "  gnirehtet run [serial] [-d DNS[,DNS2,...]] [-r ROUTE[,ROUTE2,...]]\n      \
         Enable reverse tethering for exactly one device:\n        \
         - install the client if necessary;\n        \
         - start the client;\n        \
         - start the relay server;\n        \
         - on Ctrl+C, stop both the relay server and the client.\n"
    );
}

#[test]
fn usage_of_autostart() {
    assert_eq!(
        command_usage_text(&Command::Autostart),
        "  gnirehtet autostart [-d DNS[,DNS2,...]] [-r ROUTE[,ROUTE2,...]]\n      \
         Listen for device connexions and start a client on every detected\n      \
         device.\n      \
         Accept the same parameters as the start command (excluding the\n      \
         serial, which will be taken from the detected device).\n"
    );
}

#[test]
fn append_keeps_what_was_there() {
    let mut msg = "before\n".to_string();
    append_command_usage(&mut msg, &Command::Reinstall);
    assert_eq!(msg, "before\n  gnirehtet reinstall [serial]\n      Uninstall then install.\n");
}

#[test]
fn whole_usage_text() {
    let text = usage_text();
    assert!(text.starts_with(
        "Syntax: gnirehtet (install|uninstall|reinstall|run|autorun|start|autostart|stop|restart|tunnel|relay) ...\n\n  gnirehtet install [serial]\n      Install the client on the Android device and exit.\n"
    ));
    assert!(text.ends_with(
        "\n\n  gnirehtet relay\n      Start the relay server in the current terminal.\n"
    ));
    for c in Command::all() {
        assert!(text.contains(&command_usage_text(&c)));
    }
}

#[test]
fn restart_stops_then_starts() {
    let args = CommandLineArguments::parse(
        PARAM_SERIAL | PARAM_DNS_SERVERS | PARAM_ROUTES,
        strings(&["abc", "-d", "1.1.1.1"]),
    )
    .unwrap();
    let serial = "abc".to_string();
    let dns = "1.1.1.1".to_string();
    let mut expected = cmd_stop(Some(&serial));
    expected.extend(cmd_start(Some(&serial), Some(&dns), None));
    assert_eq!(Command::Restart.execute(&args), Execution::Steps(expected));
}

#[test]
fn run_and_autorun_executions() {
    let serial = "abc".to_string();
    assert_eq!(
        cmd_run(Some(&serial), None, None),
        Execution::Run { start: cmd_start(Some(&serial), None, None), stop: cmd_stop(Some(&serial)) }
    );
    let routes = "10.0.0.0/8".to_string();
    assert_eq!(cmd_autorun(None, Some(&routes)), Execution::Autorun(cmd_autostart(None, Some(&routes))));
    let autostart = cmd_autostart(None, Some(&routes));
    let device = "emulator-5554".to_string();
    assert_eq!(autostart.start_ops(&device), cmd_start(Some(&device), None, Some(&routes)));
}

#[test]
fn relay_needs_no_adb() {
    let args = CommandLineArguments::parse(PARAM_NONE, vec![]).unwrap();
    assert_eq!(Command::Relay.execute(&args), Execution::Relay);
}
