use vstd::prelude::*;
use vstd::string::*;
use crate::session::{op_views, Op, OpView};

verus! {

/// The texts of a sequence of strings.
pub open spec fn texts(v: Seq<String>) -> Seq<Seq<char>> {
    v.map_values(|s: String| s@)
}

/// The texts of a sequence of string slices.
pub open spec fn str_texts(v: Seq<&str>) -> Seq<Seq<char>> {
    v.map_values(|s: &str| s@)
}

/// The arguments that select a device: `-s <serial>` when a serial is given.
pub open spec fn serial_prefix(serial: Option<Seq<char>>) -> Seq<Seq<char>> {
    match serial {
        Some(s) => seq!["-s"@, s],
        None => seq![],
    }
}

/// The text of an optional serial.
pub open spec fn opt_text(serial: Option<&String>) -> Option<Seq<char>> {
    match serial {
        Some(s) => Some(s@),
        None => None,
    }
}

/// The full argument list of an adb invocation: the device selection, then
/// the command's own arguments.
pub open spec fn adb_args(serial: Option<Seq<char>>, args: Seq<Seq<char>>) -> Seq<Seq<char>> {
    serial_prefix(serial) + args
}

/// Builds the arguments passed to adb: `-s <serial>` first when a serial is
/// given, then `args` in order.
pub fn create_adb_args(serial: Option<&String>, args: Vec<&str>) -> (command: Vec<String>)
    ensures
        texts(command@) == adb_args(opt_text(serial), str_texts(args@)),
{
    let mut command: Vec<String> = Vec::new();
    if let Some(serial) = serial {
        command.push(String::from_str("-s"));
        command.push(serial.clone());
    }
    let ghost prefix = texts(command@);
    assert(prefix == serial_prefix(opt_text(serial)));
    let mut i: usize = 0;
    while i < args.len()
        invariant
            0 <= i <= args.len(),
            texts(command@) == prefix + str_texts(args@).take(i as int),
        decreases args.len() - i,
    {
        let ghost before = command@;
        command.push(String::from_str(args[i]));
        proof {
            assert(texts(command@) =~= texts(before).push(args@[i as int]@));
            assert(str_texts(args@).take(i + 1) =~= str_texts(args@).take(i as int).push(args@[i as int]@));
        }
        i = i + 1;
    }
    assert(str_texts(args@).take(args.len() as int) == str_texts(args@));
    command
}

/// `adb install -r gnirehtet.apk`
pub open spec fn install_args() -> Seq<Seq<char>> {
    seq!["install"@, "-r"@, "gnirehtet.apk"@]
}

/// `adb uninstall com.genymobile.gnirehtet`
pub open spec fn uninstall_args() -> Seq<Seq<char>> {
    seq!["uninstall"@, "com.genymobile.gnirehtet"@]
}

/// `adb shell dumpsys package com.genymobile.gnirehtet`: reports the installed
/// client.
pub open spec fn query_args() -> Seq<Seq<char>> {
    seq!["shell"@, "dumpsys"@, "package"@, "com.genymobile.gnirehtet"@]
}

/// `adb reverse localabstract:gnirehtet tcp:31416`
pub open spec fn tunnel_args() -> Seq<Seq<char>> {
    seq!["reverse"@, "localabstract:gnirehtet"@, "tcp:31416"@]
}

/// `adb shell am broadcast -a <action> -n <the client's control receiver>`
pub open spec fn broadcast_args(action: Seq<char>) -> Seq<Seq<char>> {
    seq![
        "shell"@,
        "am"@,
        "broadcast"@,
        "-a"@,
        action,
        "-n"@,
        "com.genymobile.gnirehtet/.GnirehtetControlReceiver"@,
    ]
}

/// The broadcast that starts the client, with the DNS servers and the routes
/// when they are given.
pub open spec fn start_args(dns_servers: Option<Seq<char>>, routes: Option<Seq<char>>) -> Seq<
    Seq<char>,
> {
    broadcast_args("com.genymobile.gnirehtet.START"@) + match dns_servers {
        Some(d) => seq!["--esa"@, "dnsServers"@, d],
        None => seq![],
    } + match routes {
        Some(r) => seq!["--esa"@, "routes"@, r],
        None => seq![],
    }
}

/// The broadcast that stops the client.
pub open spec fn stop_args() -> Seq<Seq<char>> {
    broadcast_args("com.genymobile.gnirehtet.STOP"@)
}

pub open spec fn install_ops(serial: Option<Seq<char>>) -> Seq<OpView> {
    seq![OpView::Adb(adb_args(serial, install_args()))]
}

pub open spec fn uninstall_ops(serial: Option<Seq<char>>) -> Seq<OpView> {
    seq![OpView::Adb(adb_args(serial, uninstall_args()))]
}

/// Uninstall, then install.
pub open spec fn reinstall_ops(serial: Option<Seq<char>>) -> Seq<OpView> {
    uninstall_ops(serial) + install_ops(serial)
}

pub open spec fn tunnel_ops(serial: Option<Seq<char>>) -> Seq<OpView> {
    seq![OpView::Adb(adb_args(serial, tunnel_args()))]
}

pub open spec fn stop_ops(serial: Option<Seq<char>>) -> Seq<OpView> {
    seq![OpView::Adb(adb_args(serial, stop_args()))]
}

/// Install the client if it is missing or outdated, set up the tunnel, then
/// start the client.
pub open spec fn start_ops(
    serial: Option<Seq<char>>,
    dns_servers: Option<Seq<char>>,
    routes: Option<Seq<char>>,
) -> Seq<OpView> {
    seq![OpView::CheckClient(adb_args(serial, query_args()), adb_args(serial, install_args()))]
        + tunnel_ops(serial) + seq![OpView::Adb(adb_args(serial, start_args(dns_servers, routes)))]
}

/// Installs the client on the device.
pub fn cmd_install(serial: Option<&String>) -> (ops: Vec<Op>)
    ensures
        op_views(ops@) == install_ops(opt_text(serial)),
{
    let words = vec!["install", "-r", "gnirehtet.apk"];
    assert(str_texts(words@) =~= install_args());
    let ops = vec![Op::Adb(create_adb_args(serial, words))];
    assert(op_views(ops@) =~= install_ops(opt_text(serial)));
    ops
}

/// Uninstalls the client from the device.
pub fn cmd_uninstall(serial: Option<&String>) -> (ops: Vec<Op>)
    ensures
        op_views(ops@) == uninstall_ops(opt_text(serial)),
{
    let words = vec!["uninstall", "com.genymobile.gnirehtet"];
    assert(str_texts(words@) =~= uninstall_args());
    let ops = vec![Op::Adb(create_adb_args(serial, words))];
    assert(op_views(ops@) =~= uninstall_ops(opt_text(serial)));
    ops
}

/// Uninstalls, then installs the client.
pub fn cmd_reinstall(serial: Option<&String>) -> (ops: Vec<Op>)
    ensures
        op_views(ops@) == reinstall_ops(opt_text(serial)),
{
    let mut ops = cmd_uninstall(serial);
    let mut install = cmd_install(serial);
    let ghost first = ops@;
    let ghost second = install@;
    ops.append(&mut install);
    assert(op_views(ops@) =~= op_views(first) + op_views(second));
    ops
}

/// Sets up the `adb reverse` tunnel.
pub fn cmd_tunnel(serial: Option<&String>) -> (ops: Vec<Op>)
    ensures
        op_views(ops@) == tunnel_ops(opt_text(serial)),
{
    let words = vec!["reverse", "localabstract:gnirehtet", "tcp:31416"];
    assert(str_texts(words@) =~= tunnel_args());
    let ops = vec![Op::Adb(create_adb_args(serial, words))];
    assert(op_views(ops@) =~= tunnel_ops(opt_text(serial)));
    ops
}

/// Stops the client.
pub fn cmd_stop(serial: Option<&String>) -> (ops: Vec<Op>)
    ensures
        op_views(ops@) == stop_ops(opt_text(serial)),
{
    let words = vec![
        "shell",
        "am",
        "broadcast",
        "-a",
        "com.genymobile.gnirehtet.STOP",
        "-n",
        "com.genymobile.gnirehtet/.GnirehtetControlReceiver",
    ];
    assert(str_texts(words@) =~= stop_args());
    let ops = vec![Op::Adb(create_adb_args(serial, words))];
    assert(op_views(ops@) =~= stop_ops(opt_text(serial)));
    ops
}

/// Starts the client: installs it first when it is missing or outdated (then
/// pauses), sets up the tunnel, then broadcasts the start intent with the
/// DNS servers and routes that are given.
pub fn cmd_start(
    serial: Option<&String>,
    dns_servers: Option<&String>,
    routes: Option<&String>,
) -> (ops: Vec<Op>)
    ensures
        op_views(ops@) == start_ops(opt_text(serial), opt_text(dns_servers), opt_text(routes)),
{
    let query_words = vec!["shell", "dumpsys", "package", "com.genymobile.gnirehtet"];
    assert(str_texts(query_words@) =~= query_args());
    let install_words = vec!["install", "-r", "gnirehtet.apk"];
    assert(str_texts(install_words@) =~= install_args());
    let mut ops = vec![
        Op::CheckClient {
            query: create_adb_args(serial, query_words),
            install: create_adb_args(serial, install_words),
        },
    ];
    let mut tunnel = cmd_tunnel(serial);
    let ghost first = ops@;
    let ghost second = tunnel@;
    ops.append(&mut tunnel);
    let mut adb_args = vec![
        "shell",
        "am",
        "broadcast",
        "-a",
        "com.genymobile.gnirehtet.START",
        "-n",
        "com.genymobile.gnirehtet/.GnirehtetControlReceiver",
    ];
    assert(str_texts(adb_args@) =~= broadcast_args("com.genymobile.gnirehtet.START"@));
    if let Some(dns_servers) = dns_servers {
        let ghost before = adb_args@;
        adb_args.append(&mut vec!["--esa", "dnsServers", dns_servers.as_str()]);
        assert(str_texts(adb_args@) =~= str_texts(before) + seq!["--esa"@, "dnsServers"@, dns_servers@]);
    }
    if let Some(routes) = routes {
        let ghost before = adb_args@;
        adb_args.append(&mut vec!["--esa", "routes", routes.as_str()]);
        assert(str_texts(adb_args@) =~= str_texts(before) + seq!["--esa"@, "routes"@, routes@]);
    }
    assert(str_texts(adb_args@) =~= start_args(opt_text(dns_servers), opt_text(routes)));
    assert(op_views(ops@) =~= op_views(first) + op_views(second));
    ops.push(Op::Adb(create_adb_args(serial, adb_args)));
    assert(op_views(ops@) =~= start_ops(opt_text(serial), opt_text(dns_servers), opt_text(routes)));
    ops
}

/// The start broadcast is `adb shell am broadcast -a
/// com.genymobile.gnirehtet.START -n <receiver>`, followed by
/// `--esa dnsServers <d>` exactly when DNS servers `d` are given, then by
/// `--esa routes <r>` exactly when routes `r` are given; each option is added
/// whether or not the other one is given.
pub proof fn lemma_start_broadcast_carries_options(d: Seq<char>, r: Seq<char>)
    ensures
        start_args(None, None) == seq![
            "shell"@,
            "am"@,
            "broadcast"@,
            "-a"@,
            "com.genymobile.gnirehtet.START"@,
            "-n"@,
            "com.genymobile.gnirehtet/.GnirehtetControlReceiver"@,
        ],
        start_args(Some(d), None) == seq![
            "shell"@,
            "am"@,
            "broadcast"@,
            "-a"@,
            "com.genymobile.gnirehtet.START"@,
            "-n"@,
            "com.genymobile.gnirehtet/.GnirehtetControlReceiver"@,
            "--esa"@,
            "dnsServers"@,
            d,
        ],
        start_args(None, Some(r)) == seq![
            "shell"@,
            "am"@,
            "broadcast"@,
            "-a"@,
            "com.genymobile.gnirehtet.START"@,
            "-n"@,
            "com.genymobile.gnirehtet/.GnirehtetControlReceiver"@,
            "--esa"@,
            "routes"@,
            r,
        ],
        start_args(Some(d), Some(r)) == seq![
            "shell"@,
            "am"@,
            "broadcast"@,
            "-a"@,
            "com.genymobile.gnirehtet.START"@,
            "-n"@,
            "com.genymobile.gnirehtet/.GnirehtetControlReceiver"@,
            "--esa"@,
            "dnsServers"@,
            d,
            "--esa"@,
            "routes"@,
            r,
        ],
{
    assert(start_args(None, None) =~= seq![
        "shell"@,
        "am"@,
        "broadcast"@,
        "-a"@,
        "com.genymobile.gnirehtet.START"@,
        "-n"@,
        "com.genymobile.gnirehtet/.GnirehtetControlReceiver"@,
    ]);
    assert(start_args(Some(d), None) =~= seq![
        "shell"@,
        "am"@,
        "broadcast"@,
        "-a"@,
        "com.genymobile.gnirehtet.START"@,
        "-n"@,
        "com.genymobile.gnirehtet/.GnirehtetControlReceiver"@,
        "--esa"@,
        "dnsServers"@,
        d,
    ]);
    assert(start_args(None, Some(r)) =~= seq![
        "shell"@,
        "am"@,
        "broadcast"@,
        "-a"@,
        "com.genymobile.gnirehtet.START"@,
        "-n"@,
        "com.genymobile.gnirehtet/.GnirehtetControlReceiver"@,
        "--esa"@,
        "routes"@,
        r,
    ]);
    assert(start_args(Some(d), Some(r)) =~= seq![
        "shell"@,
        "am"@,
        "broadcast"@,
        "-a"@,
        "com.genymobile.gnirehtet.START"@,
        "-n"@,
        "com.genymobile.gnirehtet/.GnirehtetControlReceiver"@,
        "--esa"@,
        "dnsServers"@,
        d,
        "--esa"@,
        "routes"@,
        r,
    ]);
}

/// With a serial `s`, every adb invocation of a command selects the device
/// with `-s s` before its own arguments; without one, it has only its own
/// arguments. Stopping is the single invocation `adb [-s s] shell am broadcast
/// -a com.genymobile.gnirehtet.STOP -n <receiver>`; installing, uninstalling
/// and setting up the tunnel are likewise single invocations.
pub proof fn lemma_commands_select_the_device(s: Seq<char>)
    ensures
        stop_ops(Some(s)) == seq![
            OpView::Adb(
                seq![
                    "-s"@,
                    s,
                    "shell"@,
                    "am"@,
                    "broadcast"@,
                    "-a"@,
                    "com.genymobile.gnirehtet.STOP"@,
                    "-n"@,
                    "com.genymobile.gnirehtet/.GnirehtetControlReceiver"@,
                ],
            ),
        ],
        stop_ops(None) == seq![
            OpView::Adb(
                seq![
                    "shell"@,
                    "am"@,
                    "broadcast"@,
                    "-a"@,
                    "com.genymobile.gnirehtet.STOP"@,
                    "-n"@,
                    "com.genymobile.gnirehtet/.GnirehtetControlReceiver"@,
                ],
            ),
        ],
        install_ops(Some(s)) == seq![
            OpView::Adb(seq!["-s"@, s, "install"@, "-r"@, "gnirehtet.apk"@]),
        ],
        install_ops(None) == seq![OpView::Adb(seq!["install"@, "-r"@, "gnirehtet.apk"@])],
        uninstall_ops(Some(s)) == seq![
            OpView::Adb(seq!["-s"@, s, "uninstall"@, "com.genymobile.gnirehtet"@]),
        ],
        uninstall_ops(None) == seq![OpView::Adb(seq!["uninstall"@, "com.genymobile.gnirehtet"@])],
        tunnel_ops(Some(s)) == seq![
            OpView::Adb(seq!["-s"@, s, "reverse"@, "localabstract:gnirehtet"@, "tcp:31416"@]),
        ],
        tunnel_ops(None) == seq![
            OpView::Adb(seq!["reverse"@, "localabstract:gnirehtet"@, "tcp:31416"@]),
        ],
{
    assert(adb_args(Some(s), stop_args()) =~= seq![
        "-s"@,
        s,
        "shell"@,
        "am"@,
        "broadcast"@,
        "-a"@,
        "com.genymobile.gnirehtet.STOP"@,
        "-n"@,
        "com.genymobile.gnirehtet/.GnirehtetControlReceiver"@,
    ]);
    assert(adb_args(None, stop_args()) =~= seq![
        "shell"@,
        "am"@,
        "broadcast"@,
        "-a"@,
        "com.genymobile.gnirehtet.STOP"@,
        "-n"@,
        "com.genymobile.gnirehtet/.GnirehtetControlReceiver"@,
    ]);
    assert(adb_args(Some(s), install_args()) =~= seq!["-s"@, s, "install"@, "-r"@, "gnirehtet.apk"@]);
    assert(adb_args(None, install_args()) =~= seq!["install"@, "-r"@, "gnirehtet.apk"@]);
    assert(adb_args(Some(s), uninstall_args()) =~= seq![
        "-s"@,
        s,
        "uninstall"@,
        "com.genymobile.gnirehtet"@,
    ]);
    assert(adb_args(None, uninstall_args()) =~= seq!["uninstall"@, "com.genymobile.gnirehtet"@]);
    assert(adb_args(Some(s), tunnel_args()) =~= seq![
        "-s"@,
        s,
        "reverse"@,
        "localabstract:gnirehtet"@,
        "tcp:31416"@,
    ]);
    assert(adb_args(None, tunnel_args()) =~= seq![
        "reverse"@,
        "localabstract:gnirehtet"@,
        "tcp:31416"@,
    ]);
}

/// Starting is three steps: checking the installed client with
/// `adb [-s s] shell dumpsys package com.genymobile.gnirehtet` (installing it
/// with `adb [-s s] install -r gnirehtet.apk` when needed), setting up the
/// tunnel, and the start broadcast; each one selects the device with `-s s`
/// when a serial `s` is given, and the broadcast carries the options given.
pub proof fn lemma_start_steps(
    serial: Option<Seq<char>>,
    dns_servers: Option<Seq<char>>,
    routes: Option<Seq<char>>,
)
    ensures
        start_ops(serial, dns_servers, routes).len() == 3,
        start_ops(serial, dns_servers, routes)[0] == OpView::CheckClient(
            (match serial {
                Some(s) => seq!["-s"@, s],
                None => Seq::<Seq<char>>::empty(),
            }) + seq!["shell"@, "dumpsys"@, "package"@, "com.genymobile.gnirehtet"@],
            (match serial {
                Some(s) => seq!["-s"@, s],
                None => Seq::<Seq<char>>::empty(),
            }) + seq!["install"@, "-r"@, "gnirehtet.apk"@],
        ),
        start_ops(serial, dns_servers, routes)[1] == OpView::Adb(
            (match serial {
                Some(s) => seq!["-s"@, s],
                None => Seq::<Seq<char>>::empty(),
            }) + seq!["reverse"@, "localabstract:gnirehtet"@, "tcp:31416"@],
        ),
        start_ops(serial, dns_servers, routes)[2] == OpView::Adb(
            (match serial {
                Some(s) => seq!["-s"@, s],
                None => Seq::<Seq<char>>::empty(),
            }) + seq![
                "shell"@,
                "am"@,
                "broadcast"@,
                "-a"@,
                "com.genymobile.gnirehtet.START"@,
                "-n"@,
                "com.genymobile.gnirehtet/.GnirehtetControlReceiver"@,
            ] + (match dns_servers {
                Some(d) => seq!["--esa"@, "dnsServers"@, d],
                None => Seq::<Seq<char>>::empty(),
            }) + (match routes {
                Some(r) => seq!["--esa"@, "routes"@, r],
                None => Seq::<Seq<char>>::empty(),
            }),
        ),
{
    let ops = start_ops(serial, dns_servers, routes);
    assert(ops[1] == tunnel_ops(serial)[0]);
    assert(ops[2] == OpView::Adb(adb_args(serial, start_args(dns_servers, routes))));
    let sel = match serial {
        Some(s) => seq!["-s"@, s],
        None => Seq::<Seq<char>>::empty(),
    };
    let dns = match dns_servers {
        Some(d) => seq!["--esa"@, "dnsServers"@, d],
        None => Seq::<Seq<char>>::empty(),
    };
    let rts = match routes {
        Some(r) => seq!["--esa"@, "routes"@, r],
        None => Seq::<Seq<char>>::empty(),
    };
    let bc = seq![
        "shell"@,
        "am"@,
        "broadcast"@,
        "-a"@,
        "com.genymobile.gnirehtet.START"@,
        "-n"@,
        "com.genymobile.gnirehtet/.GnirehtetControlReceiver"@,
    ];
    assert(sel == serial_prefix(serial));
    assert(broadcast_args("com.genymobile.gnirehtet.START"@) =~= bc);
    assert(adb_args(serial, start_args(dns_servers, routes)) =~= sel + bc + dns + rts);
    assert(adb_args(serial, query_args()) =~= sel + seq![
        "shell"@,
        "dumpsys"@,
        "package"@,
        "com.genymobile.gnirehtet"@,
    ]);
    assert(adb_args(serial, install_args()) =~= sel + seq!["install"@, "-r"@, "gnirehtet.apk"@]);
    assert(adb_args(serial, tunnel_args()) =~= sel + seq![
        "reverse"@,
        "localabstract:gnirehtet"@,
        "tcp:31416"@,
    ]);
}

} // verus!
