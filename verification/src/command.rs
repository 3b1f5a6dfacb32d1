use vstd::prelude::*;
use vstd::string::*;
use crate::adb::{
    cmd_install, cmd_reinstall, cmd_start, cmd_stop, cmd_tunnel, cmd_uninstall, install_ops,
    opt_text, reinstall_ops, start_ops, stop_ops, tunnel_ops, uninstall_ops,
};
use crate::cli_args::{
    ArgsView, CommandLineArguments, PARAM_DNS_SERVERS, PARAM_NONE, PARAM_ROUTES, PARAM_SERIAL,
};
use crate::adb::{adb_args, install_args, query_args, start_args};
use crate::client::needs_install;
use crate::session::{
    adb_failure, lemma_run_concat, op_views, output_of, run, run_after, step, utf8_lossy,
    OutcomeView, Op, OpView, INSTALL_PAUSE_MILLIS,
};

verus! {

pub const INSTALL_DESCRIPTION: &'static str = "Install the client on the Android device and exit.\n\
        If several devices are connected via adb, then serial must be\n\
        specified.";

pub const UNINSTALL_DESCRIPTION: &'static str = "Uninstall the client from the Android device and exit.\n\
        If several devices are connected via adb, then serial must be\n\
        specified.";

pub const REINSTALL_DESCRIPTION: &'static str = "Uninstall then install.";

pub const RUN_DESCRIPTION: &'static str = "Enable reverse tethering for exactly one device:\n  \
          - install the client if necessary;\n  \
          - start the client;\n  \
          - start the relay server;\n  \
          - on Ctrl+C, stop both the relay server and the client.";

pub const AUTORUN_DESCRIPTION: &'static str = "Enable reverse tethering for all devices:\n  \
          - monitor devices and start clients (autostart);\n  \
          - start the relay server.";

pub const START_DESCRIPTION: &'static str = "Start a client on the Android device and exit.\n\
        If several devices are connected via adb, then serial must be\n\
        specified.\n\
        If -d is given, then make the Android device use the specified\n\
        DNS server(s). Otherwise, use 8.8.8.8 (Google public DNS).\n\
        If -r is given, then only reverse tether the specified routes.\n\
        Otherwise, use 0.0.0.0/0 (redirect the whole traffic).\n\
        If the client is already started, then do nothing, and ignore\n\
        the other parameters.\n\
        10.0.2.2 is mapped to the host 'localhost'.";

pub const AUTOSTART_DESCRIPTION: &'static str = "Listen for device connexions and start a client on every detected\n\
        device.\n\
        Accept the same parameters as the start command (excluding the\n\
        serial, which will be taken from the detected device).";

pub const STOP_DESCRIPTION: &'static str = "Stop the client on the Android device and exit.\n\
        If several devices are connected via adb, then serial must be\n\
        specified.";

pub const RESTART_DESCRIPTION: &'static str = "Stop then start.";

pub const TUNNEL_DESCRIPTION: &'static str = "Set up the 'adb reverse' tunnel.\n\
        If a device is unplugged then plugged back while gnirehtet is\n\
        active, resetting the tunnel is sufficient to get the\n\
        connection back.";

pub const RELAY_DESCRIPTION: &'static str = "Start the relay server in the current terminal.";

/// The commands of gnirehtet.
#[derive(Clone, Copy, Debug, PartialEq, Eq, Structural)]
pub enum Command {
    Install,
    Uninstall,
    Reinstall,
    Run,
    Autorun,
    Start,
    Autostart,
    Stop,
    Restart,
    Tunnel,
    Relay,
}

/// Every command, in the order of the usage text.
pub open spec fn commands() -> Seq<Command> {
    seq![
        Command::Install,
        Command::Uninstall,
        Command::Reinstall,
        Command::Run,
        Command::Autorun,
        Command::Start,
        Command::Autostart,
        Command::Stop,
        Command::Restart,
        Command::Tunnel,
        Command::Relay,
    ]
}

/// What a name on the command line designates.
#[derive(Clone, Copy, Debug, PartialEq, Eq, Structural)]
pub enum Resolution {
    /// The command of that name.
    Found(Command),
    /// A former name of this command.
    Renamed(Command),
    /// No command.
    Unknown,
}

/// The command that `name` designates: the one of that name; `rt`, the
/// former name of `run`; or none.
pub open spec fn lookup(name: Seq<char>) -> Resolution {
    if exists|c: Command| c.command_name() == name {
        Resolution::Found(choose|c: Command| c.command_name() == name)
    } else if name == "rt"@ {
        Resolution::Renamed(Command::Run)
    } else {
        Resolution::Unknown
    }
}

/// Every command is listed in `commands()`.
pub proof fn lemma_commands_complete(c: Command)
    ensures
        commands().contains(c),
{
    let all = commands();
    match c {
        Command::Install => assert(all[0] == c),
        Command::Uninstall => assert(all[1] == c),
        Command::Reinstall => assert(all[2] == c),
        Command::Run => assert(all[3] == c),
        Command::Autorun => assert(all[4] == c),
        Command::Start => assert(all[5] == c),
        Command::Autostart => assert(all[6] == c),
        Command::Stop => assert(all[7] == c),
        Command::Restart => assert(all[8] == c),
        Command::Tunnel => assert(all[9] == c),
        Command::Relay => assert(all[10] == c),
    }
}

/// No two commands have the same name, so a name designates at most one
/// command.
pub proof fn lemma_command_names_distinct(a: Command, b: Command)
    ensures
        a.command_name() == b.command_name() ==> a == b,
{
    reveal_strlit("install");
    reveal_strlit("uninstall");
    reveal_strlit("reinstall");
    reveal_strlit("run");
    reveal_strlit("autorun");
    reveal_strlit("start");
    reveal_strlit("autostart");
    reveal_strlit("stop");
    reveal_strlit("restart");
    reveal_strlit("tunnel");
    reveal_strlit("relay");
    if a.command_name() == b.command_name() && a != b {
        assert(a.command_name()[0] == b.command_name()[0]);
        assert(a.command_name().len() == b.command_name().len());
    }
}

/// `rt` is not the name of any command.
pub proof fn lemma_former_name_is_free(c: Command)
    ensures
        c.command_name() != "rt"@,
{
    reveal_strlit("rt");
    reveal_strlit("install");
    reveal_strlit("uninstall");
    reveal_strlit("reinstall");
    reveal_strlit("run");
    reveal_strlit("autorun");
    reveal_strlit("start");
    reveal_strlit("autostart");
    reveal_strlit("stop");
    reveal_strlit("restart");
    reveal_strlit("tunnel");
    reveal_strlit("relay");
    assert(c.command_name().len() != 2 || c.command_name()[0] != 'r');
}

/// Whether two texts are equal.
fn same_text(a: &str, b: &str) -> (same: bool)
    ensures
        same == (a@ == b@),
{
    String::from_str(a) == String::from_str(b)
}

/// Finds the command that `name` designates on the command line.
pub fn resolve_command(name: &str) -> (resolution: Resolution)
    ensures
        resolution == lookup(name@),
{
    let all = Command::all();
    let mut i: usize = 0;
    while i < all.len()
        invariant
            all@ == commands(),
            0 <= i <= all.len(),
            forall|j: int| 0 <= j < i ==> commands()[j].command_name() != name@,
        decreases all.len() - i,
    {
        let c = all[i];
        if same_text(c.command(), name) {
            proof {
                let d = choose|d: Command| d.command_name() == name@;
                lemma_command_names_distinct(c, d);
            }
            return Resolution::Found(c);
        }
        i = i + 1;
    }
    proof {
        assert forall|c: Command| c.command_name() != name@ by {
            lemma_commands_complete(c);
        }
    }
    if same_text(name, "rt") {
        Resolution::Renamed(Command::Run)
    } else {
        Resolution::Unknown
    }
}

/// What the device-watching commands start on each device that shows up:
/// the client, with these DNS servers and routes.
#[derive(Clone, Debug, PartialEq, Eq)]
pub struct Autostart {
    dns_servers: Option<String>,
    routes: Option<String>,
}

/// What carrying out a command takes.
#[derive(Clone, Debug, PartialEq, Eq)]
pub enum Execution {
    /// Carry out these ops, in a `Session`.
    Steps(Vec<Op>),
    /// Carry out `start` in the background and run the relay server; on
    /// Ctrl+C, carry out `stop` and exit.
    Run { start: Vec<Op>, stop: Vec<Op> },
    /// Watch for devices in the background, starting a client on each, and
    /// run the relay server.
    Autorun(Autostart),
    /// Watch for devices, starting a client on each.
    Autostart(Autostart),
    /// Run the relay server.
    Relay,
}

/// An `Execution`, as plain values.
pub enum ExecutionView {
    Steps(Seq<OpView>),
    Run { start: Seq<OpView>, stop: Seq<OpView> },
    Autorun { dns_servers: Option<Seq<char>>, routes: Option<Seq<char>> },
    Autostart { dns_servers: Option<Seq<char>>, routes: Option<Seq<char>> },
    Relay,
}

impl Autostart {
    pub closed spec fn dns_servers_text(&self) -> Option<Seq<char>> {
        crate::cli_args::opt_string_text(self.dns_servers)
    }

    pub closed spec fn routes_text(&self) -> Option<Seq<char>> {
        crate::cli_args::opt_string_text(self.routes)
    }

    /// The ops that start a client on the device `serial`.
    pub fn start_ops(&self, serial: &String) -> (ops: Vec<Op>)
        ensures
            op_views(ops@) == start_ops(Some(serial@), self.dns_servers_text(), self.routes_text()),
    {
        cmd_start(Some(serial), self.dns_servers.as_ref(), self.routes.as_ref())
    }
}

impl View for Execution {
    type V = ExecutionView;

    open spec fn view(&self) -> ExecutionView {
        match self {
            Execution::Steps(ops) => ExecutionView::Steps(op_views(ops@)),
            Execution::Run { start, stop } => ExecutionView::Run {
                start: op_views(start@),
                stop: op_views(stop@),
            },
            Execution::Autorun(a) => ExecutionView::Autorun {
                dns_servers: a.dns_servers_text(),
                routes: a.routes_text(),
            },
            Execution::Autostart(a) => ExecutionView::Autostart {
                dns_servers: a.dns_servers_text(),
                routes: a.routes_text(),
            },
            Execution::Relay => ExecutionView::Relay,
        }
    }
}

fn clone_opt(s: Option<&String>) -> (r: Option<String>)
    ensures
        crate::cli_args::opt_string_text(r) == opt_text(s),
{
    match s {
        Some(s) => Some(s.clone()),
        None => None,
    }
}

/// Watches for devices and starts a client on each one that shows up, with
/// the given DNS servers and routes.
pub fn cmd_autostart(
    dns_servers: Option<&String>,
    routes: Option<&String>,
) -> (autostart: Autostart)
    ensures
        autostart.dns_servers_text() == opt_text(dns_servers),
        autostart.routes_text() == opt_text(routes),
{
    Autostart { dns_servers: clone_opt(dns_servers), routes: clone_opt(routes) }
}

/// Starts the client on one device in the background, and the relay server;
/// on Ctrl+C, stops the client.
pub fn cmd_run(
    serial: Option<&String>,
    dns_servers: Option<&String>,
    routes: Option<&String>,
) -> (execution: Execution)
    ensures
        execution@ == (ExecutionView::Run {
            start: start_ops(opt_text(serial), opt_text(dns_servers), opt_text(routes)),
            stop: stop_ops(opt_text(serial)),
        }),
{
    Execution::Run { start: cmd_start(serial, dns_servers, routes), stop: cmd_stop(serial) }
}

/// Starts clients on every device in the background, and the relay server.
pub fn cmd_autorun(dns_servers: Option<&String>, routes: Option<&String>) -> (execution: Execution)
    ensures
        execution@ == (ExecutionView::Autorun {
            dns_servers: opt_text(dns_servers),
            routes: opt_text(routes),
        }),
{
    Execution::Autorun(cmd_autostart(dns_servers, routes))
}

/// Stop, then start.
pub open spec fn restart_ops(
    serial: Option<Seq<char>>,
    dns_servers: Option<Seq<char>>,
    routes: Option<Seq<char>>,
) -> Seq<OpView> {
    stop_ops(serial) + start_ops(serial, dns_servers, routes)
}

/// Reinstalling is uninstalling, then installing only if uninstalling
/// succeeded; a failed uninstall is the failure of the reinstall.
pub proof fn lemma_reinstall_is_uninstall_then_install(
    serial: Option<Seq<char>>,
    outcomes: Seq<OutcomeView>,
)
    ensures
        run(reinstall_ops(serial), outcomes) == run_after(
            run(uninstall_ops(serial), outcomes),
            install_ops(serial),
            outcomes,
        ),
{
    lemma_run_concat(uninstall_ops(serial), install_ops(serial), outcomes);
}

/// Restarting is stopping, then starting only if stopping succeeded; a
/// failed stop is the failure of the restart.
pub proof fn lemma_restart_is_stop_then_start(
    serial: Option<Seq<char>>,
    dns_servers: Option<Seq<char>>,
    routes: Option<Seq<char>>,
    outcomes: Seq<OutcomeView>,
)
    ensures
        run(restart_ops(serial, dns_servers, routes), outcomes) == run_after(
            run(stop_ops(serial), outcomes),
            start_ops(serial, dns_servers, routes),
            outcomes,
        ),
{
    lemma_run_concat(stop_ops(serial), start_ops(serial, dns_servers, routes), outcomes);
}

/// Starting checks the installed client first. A failed check ends the start
/// with its failure. Otherwise the client is installed, then a pause is
/// made, exactly when the check's output says that the client must be
/// installed; the tunnel and the start broadcast follow either way.
pub proof fn lemma_start_checks_client_first(
    serial: Option<Seq<char>>,
    dns_servers: Option<Seq<char>>,
    routes: Option<Seq<char>>,
    outcome: OutcomeView,
)
    ensures
        step(start_ops(serial, dns_servers, routes), outcome) == match adb_failure(
            adb_args(serial, query_args()),
            outcome,
        ) {
            Some(e) => Err(e),
            None => Ok(
                (if needs_install(utf8_lossy(output_of(outcome))) {
                    seq![
                        OpView::Adb(adb_args(serial, install_args())),
                        OpView::Pause(INSTALL_PAUSE_MILLIS),
                    ]
                } else {
                    Seq::<OpView>::empty()
                }) + tunnel_ops(serial) + seq![
                    OpView::Adb(adb_args(serial, start_args(dns_servers, routes))),
                ],
            ),
        },
{
    let ops = start_ops(serial, dns_servers, routes);
    let rest = tunnel_ops(serial) + seq![
        OpView::Adb(adb_args(serial, start_args(dns_servers, routes))),
    ];
    assert(ops.drop_first() =~= rest);
    assert(ops[0] == OpView::CheckClient(
        adb_args(serial, query_args()),
        adb_args(serial, install_args()),
    ));
    let tail = seq![OpView::Adb(adb_args(serial, start_args(dns_servers, routes)))];
    let inserted = seq![
        OpView::Adb(adb_args(serial, install_args())),
        OpView::Pause(INSTALL_PAUSE_MILLIS),
    ];
    assert(inserted + rest =~= inserted + tunnel_ops(serial) + tail);
    assert(Seq::<OpView>::empty() + tunnel_ops(serial) + tail =~= rest);
}

/// Each command carries out what its name says, with exactly the parameters
/// it was given: the serial, DNS servers and routes reach the ops (and the
/// device-watching commands) unchanged, and a command that does not take a
/// parameter does not use it.
pub proof fn lemma_execution_carries_parameters(args: ArgsView)
    ensures
        Command::Install.execution(args) == ExecutionView::Steps(install_ops(args.serial)),
        Command::Uninstall.execution(args) == ExecutionView::Steps(uninstall_ops(args.serial)),
        Command::Reinstall.execution(args) == ExecutionView::Steps(
            uninstall_ops(args.serial) + install_ops(args.serial),
        ),
        Command::Run.execution(args) == (ExecutionView::Run {
            start: start_ops(args.serial, args.dns_servers, args.routes),
            stop: stop_ops(args.serial),
        }),
        Command::Autorun.execution(args) == (ExecutionView::Autorun {
            dns_servers: args.dns_servers,
            routes: args.routes,
        }),
        Command::Start.execution(args) == ExecutionView::Steps(
            start_ops(args.serial, args.dns_servers, args.routes),
        ),
        Command::Autostart.execution(args) == (ExecutionView::Autostart {
            dns_servers: args.dns_servers,
            routes: args.routes,
        }),
        Command::Stop.execution(args) == ExecutionView::Steps(stop_ops(args.serial)),
        Command::Restart.execution(args) == ExecutionView::Steps(
            stop_ops(args.serial) + start_ops(args.serial, args.dns_servers, args.routes),
        ),
        Command::Tunnel.execution(args) == ExecutionView::Steps(tunnel_ops(args.serial)),
        Command::Relay.execution(args) == ExecutionView::Relay,
{
}

/// The device-watching commands start, on each device `s` that shows up,
/// exactly what `start` does for `s` with the DNS servers and routes they
/// were given.
pub proof fn lemma_watching_starts_with_given_parameters(args: ArgsView, s: Seq<char>)
    ensures
        Command::Autorun.execution(args) matches ExecutionView::Autorun { dns_servers, routes }
            && start_ops(Some(s), dns_servers, routes) == start_ops(
            Some(s),
            args.dns_servers,
            args.routes,
        ),
        Command::Autostart.execution(args) matches ExecutionView::Autostart {
            dns_servers,
            routes,
        } && start_ops(Some(s), dns_servers, routes) == start_ops(
            Some(s),
            args.dns_servers,
            args.routes,
        ),
{
}

impl Command {
    /// The name of the command on the command line.
    pub open spec fn command_name(self) -> Seq<char> {
        match self {
            Command::Install => "install"@,
            Command::Uninstall => "uninstall"@,
            Command::Reinstall => "reinstall"@,
            Command::Run => "run"@,
            Command::Autorun => "autorun"@,
            Command::Start => "start"@,
            Command::Autostart => "autostart"@,
            Command::Stop => "stop"@,
            Command::Restart => "restart"@,
            Command::Tunnel => "tunnel"@,
            Command::Relay => "relay"@,
        }
    }

    /// The parameters that the command accepts (flags `PARAM_*`).
    pub open spec fn params(self) -> u8 {
        match self {
            Command::Install | Command::Uninstall | Command::Reinstall | Command::Stop
            | Command::Tunnel => PARAM_SERIAL,
            Command::Run | Command::Start | Command::Restart => PARAM_SERIAL | PARAM_DNS_SERVERS
                | PARAM_ROUTES,
            Command::Autorun | Command::Autostart => PARAM_DNS_SERVERS | PARAM_ROUTES,
            Command::Relay => PARAM_NONE,
        }
    }

    /// The description of the command in the usage text.
    pub open spec fn description_text(self) -> Seq<char> {
        match self {
            Command::Install => INSTALL_DESCRIPTION@,
            Command::Uninstall => UNINSTALL_DESCRIPTION@,
            Command::Reinstall => REINSTALL_DESCRIPTION@,
            Command::Run => RUN_DESCRIPTION@,
            Command::Autorun => AUTORUN_DESCRIPTION@,
            Command::Start => START_DESCRIPTION@,
            Command::Autostart => AUTOSTART_DESCRIPTION@,
            Command::Stop => STOP_DESCRIPTION@,
            Command::Restart => RESTART_DESCRIPTION@,
            Command::Tunnel => TUNNEL_DESCRIPTION@,
            Command::Relay => RELAY_DESCRIPTION@,
        }
    }

    /// What carrying out the command with the parameters `args` takes.
    pub open spec fn execution(self, args: ArgsView) -> ExecutionView {
        match self {
            Command::Install => ExecutionView::Steps(install_ops(args.serial)),
            Command::Uninstall => ExecutionView::Steps(uninstall_ops(args.serial)),
            Command::Reinstall => ExecutionView::Steps(reinstall_ops(args.serial)),
            Command::Run => ExecutionView::Run {
                start: start_ops(args.serial, args.dns_servers, args.routes),
                stop: stop_ops(args.serial),
            },
            Command::Autorun => ExecutionView::Autorun {
                dns_servers: args.dns_servers,
                routes: args.routes,
            },
            Command::Start => ExecutionView::Steps(
                start_ops(args.serial, args.dns_servers, args.routes),
            ),
            Command::Autostart => ExecutionView::Autostart {
                dns_servers: args.dns_servers,
                routes: args.routes,
            },
            Command::Stop => ExecutionView::Steps(stop_ops(args.serial)),
            Command::Restart => ExecutionView::Steps(
                restart_ops(args.serial, args.dns_servers, args.routes),
            ),
            Command::Tunnel => ExecutionView::Steps(tunnel_ops(args.serial)),
            Command::Relay => ExecutionView::Relay,
        }
    }

    /// Every command, in the order of the usage text.
    pub fn all() -> (all: Vec<Command>)
        ensures
            all@ == commands(),
    {
        let all = vec![
            Command::Install,
            Command::Uninstall,
            Command::Reinstall,
            Command::Run,
            Command::Autorun,
            Command::Start,
            Command::Autostart,
            Command::Stop,
            Command::Restart,
            Command::Tunnel,
            Command::Relay,
        ];
        assert(all@ =~= commands());
        all
    }

    pub fn command(&self) -> (name: &'static str)
        ensures
            name@ == self.command_name(),
    {
        match self {
            Command::Install => "install",
            Command::Uninstall => "uninstall",
            Command::Reinstall => "reinstall",
            Command::Run => "run",
            Command::Autorun => "autorun",
            Command::Start => "start",
            Command::Autostart => "autostart",
            Command::Stop => "stop",
            Command::Restart => "restart",
            Command::Tunnel => "tunnel",
            Command::Relay => "relay",
        }
    }

    pub fn accepted_parameters(&self) -> (params: u8)
        ensures
            params == self.params(),
    {
        match self {
            Command::Install | Command::Uninstall | Command::Reinstall | Command::Stop
            | Command::Tunnel => PARAM_SERIAL,
            Command::Run | Command::Start | Command::Restart => PARAM_SERIAL | PARAM_DNS_SERVERS
                | PARAM_ROUTES,
            Command::Autorun | Command::Autostart => PARAM_DNS_SERVERS | PARAM_ROUTES,
            Command::Relay => PARAM_NONE,
        }
    }

    pub fn description(&self) -> (description: &'static str)
        ensures
            description@ == self.description_text(),
    {
        match self {
            Command::Install => INSTALL_DESCRIPTION,
            Command::Uninstall => UNINSTALL_DESCRIPTION,
            Command::Reinstall => REINSTALL_DESCRIPTION,
            Command::Run => RUN_DESCRIPTION,
            Command::Autorun => AUTORUN_DESCRIPTION,
            Command::Start => START_DESCRIPTION,
            Command::Autostart => AUTOSTART_DESCRIPTION,
            Command::Stop => STOP_DESCRIPTION,
            Command::Restart => RESTART_DESCRIPTION,
            Command::Tunnel => TUNNEL_DESCRIPTION,
            Command::Relay => RELAY_DESCRIPTION,
        }
    }

    /// What carrying out the command with the parameters `args` takes.
    pub fn execute(&self, args: &CommandLineArguments) -> (execution: Execution)
        ensures
            execution@ == self.execution(args@),
    {
        match self {
            Command::Install => Execution::Steps(cmd_install(args.serial())),
            Command::Uninstall => Execution::Steps(cmd_uninstall(args.serial())),
            Command::Reinstall => Execution::Steps(cmd_reinstall(args.serial())),
            Command::Run => cmd_run(args.serial(), args.dns_servers(), args.routes()),
            Command::Autorun => cmd_autorun(args.dns_servers(), args.routes()),
            Command::Start => Execution::Steps(
                cmd_start(args.serial(), args.dns_servers(), args.routes()),
            ),
            Command::Autostart => Execution::Autostart(
                cmd_autostart(args.dns_servers(), args.routes()),
            ),
            Command::Stop => Execution::Steps(cmd_stop(args.serial())),
            Command::Restart => {
                let mut ops = cmd_stop(args.serial());
                let mut start = cmd_start(args.serial(), args.dns_servers(), args.routes());
                let ghost first = ops@;
                let ghost second = start@;
                ops.append(&mut start);
                assert(op_views(ops@) =~= op_views(first) + op_views(second));
                Execution::Steps(ops)
            },
            Command::Tunnel => Execution::Steps(cmd_tunnel(args.serial())),
            Command::Relay => Execution::Relay,
        }
    }
}

} // verus!
