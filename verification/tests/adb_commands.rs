use gnirehtet::adb::{
    cmd_install, cmd_reinstall, cmd_start, cmd_stop, cmd_tunnel, cmd_uninstall, create_adb_args,
};
use gnirehtet::session::Op;

fn strings(v: &[&str]) -> Vec<String> {
    v.iter().map(|s| s.to_string()).collect()
}

#[test]
fn create_adb_args_without_serial() {
    let args = create_adb_args(None, vec!["install", "-r", "gnirehtet.apk"]);
    assert_eq!(args, strings(&["install", "-r", "gnirehtet.apk"]));
}

#[test]
fn create_adb_args_with_serial() {
    let serial = "0123456789ABCDEF".to_string();
    let args = create_adb_args(Some(&serial), vec!["reverse", "localabstract:gnirehtet", "tcp:31416"]);
    assert_eq!(
        args,
        strings(&["-s", "0123456789ABCDEF", "reverse", "localabstract:gnirehtet", "tcp:31416"])
    );
}

#[test]
fn create_adb_args_with_no_argument() {
    let serial = "emulator-5554".to_string();
    assert_eq!(create_adb_args(Some(&serial), vec![]), strings(&["-s", "emulator-5554"]));
    assert_eq!(create_adb_args(None, vec![]), Vec::<String>::new());
}

#[test]
fn install_and_uninstall_ops() {
    assert_eq!(cmd_install(None), vec![Op::Adb(strings(&["install", "-r", "gnirehtet.apk"]))]);
    let serial = "abc".to_string();
    assert_eq!(
        cmd_uninstall(Some(&serial)),
        vec![Op::Adb(strings(&["-s", "abc", "uninstall", "com.genymobile.gnirehtet"]))]
    );
}

#[test]
fn reinstall_uninstalls_then_installs() {
    let serial = "abc".to_string();
    assert_eq!(
        cmd_reinstall(Some(&serial)),
        vec![
            Op::Adb(strings(&["-s", "abc", "uninstall", "com.genymobile.gnirehtet"])),
            Op::Adb(strings(&["-s", "abc", "install", "-r", "gnirehtet.apk"])),
        ]
    );
}

#[test]
fn tunnel_and_stop_ops() {
    assert_eq!(
        cmd_tunnel(None),
        vec![Op::Adb(strings(&["reverse", "localabstract:gnirehtet", "tcp:31416"]))]
    );
    assert_eq!(
        cmd_stop(None),
        vec![Op::Adb(strings(&[
            "shell",
            "am",
            "broadcast",
            "-a",
            "com.genymobile.gnirehtet.STOP",
            "-n",
            "com.genymobile.gnirehtet/.GnirehtetControlReceiver",
        ]))]
    );
}

#[test]
fn start_without_parameters() {
    assert_eq!(
        cmd_start(None, None, None),
        vec![
            Op::CheckClient {
                query: strings(&["shell", "dumpsys", "package", "com.genymobile.gnirehtet"]),
                install: strings(&["install", "-r", "gnirehtet.apk"]),
            },
            Op::Adb(strings(&["reverse", "localabstract:gnirehtet", "tcp:31416"])),
            Op::Adb(strings(&[
                "shell",
                "am",
                "broadcast",
                "-a",
                "com.genymobile.gnirehtet.START",
                "-n",
                "com.genymobile.gnirehtet/.GnirehtetControlReceiver",
            ])),
        ]
    );
}

#[test]
fn start_with_serial_dns_and_routes() {
    let serial = "abc".to_string();
    let dns = "8.8.8.8,8.8.4.4".to_string();
    let routes = "10.0.0.0/8".to_string();
    let ops = cmd_start(Some(&serial), Some(&dns), Some(&routes));
    assert_eq!(ops.len(), 3);
    assert_eq!(
        ops[2],
        Op::Adb(strings(&[
            "-s",
            "abc",
            "shell",
            "am",
            "broadcast",
            "-a",
            "com.genymobile.gnirehtet.START",
            "-n",
            "com.genymobile.gnirehtet/.GnirehtetControlReceiver",
            "--esa",
            "dnsServers",
            "8.8.8.8,8.8.4.4",
            "--esa",
            "routes",
            "10.0.0.0/8",
        ]))
    );
}

#[test]
fn start_with_routes_only() {
    let routes = "192.168.0.0/16".to_string();
    let ops = cmd_start(None, None, Some(&routes));
    match &ops[2] {
        Op::Adb(args) => {
            assert_eq!(&args[7..], &strings(&["--esa", "routes", "192.168.0.0/16"])[..]);
        }
        other => panic!("unexpected op {:?}", other),
    }
}
