use gnirehtet::adb::{cmd_reinstall, cmd_start};
use gnirehtet::execution_error::{Cmd, CommandExecutionError, ProcessIoError, ProcessStatusError};
use gnirehtet::session::{Op, Outcome, Session, INSTALL_PAUSE_MILLIS};

fn strings(v: &[&str]) -> Vec<String> {
    v.iter().map(|s| s.to_string()).collect()
}

fn succeed(session: Session, out: &str) -> Session {
    match session.report(Outcome::Success(out.as_bytes().to_vec())) {
        Ok(next) => next,
        Err(e) => panic!("unexpected failure {:?}", e),
    }
}

#[test]
fn reinstall_stops_when_uninstall_fails() {
    let session = Session::new(cmd_reinstall(None));
    assert_eq!(session.current(), Some(&Op::Adb(strings(&["uninstall", "com.genymobile.gnirehtet"]))));
    match session.report(Outcome::Status(Some(1))) {
        Err(CommandExecutionError::ProcessStatus(ProcessStatusError { cmd, code })) => {
            assert_eq!(cmd, Cmd { command: "adb".to_string(), args: strings(&["uninstall", "com.genymobile.gnirehtet"]) });
            assert_eq!(code, Some(1));
        }
        other => panic!("unexpected {:?}", other),
    }
}

#[test]
fn reinstall_installs_after_uninstall() {
    let session = Session::new(cmd_reinstall(None));
    let session = succeed(session, "");
    assert_eq!(session.current(), Some(&Op::Adb(strings(&["install", "-r", "gnirehtet.apk"]))));
    let session = succeed(session, "Success\n");
    assert_eq!(session.current(), None);
}

#[test]
fn adb_that_cannot_run_is_an_io_failure() {
    let serial = "xyz".to_string();
    let session = Session::new(cmd_reinstall(Some(&serial)));
    match session.report(Outcome::Io("No such file or directory".to_string())) {
        Err(CommandExecutionError::ProcessIo(ProcessIoError { cmd, message })) => {
            assert_eq!(cmd.command, "adb");
            assert_eq!(cmd.args, strings(&["-s", "xyz", "uninstall", "com.genymobile.gnirehtet"]));
            assert_eq!(message, "No such file or directory");
        }
        other => panic!("unexpected {:?}", other),
    }
}

#[test]
fn start_skips_install_when_up_to_date() {
    let session = Session::new(cmd_start(None, None, None));
    let session = succeed(session, "    versionCode=6 minSdk=21\n");
    assert_eq!(
        session.current(),
        Some(&Op::Adb(strings(&["reverse", "localabstract:gnirehtet", "tcp:31416"])))
    );
}

#[test]
fn start_installs_outdated_client_then_pauses() {
    let serial = "abc".to_string();
    let session = Session::new(cmd_start(Some(&serial), None, None));
    let session = succeed(session, "    versionCode=4 minSdk=21\n");
    assert_eq!(
        session.current(),
        Some(&Op::Adb(strings(&["-s", "abc", "install", "-r", "gnirehtet.apk"])))
    );
    let session = succeed(session, "");
    assert_eq!(session.current(), Some(&Op::Pause(INSTALL_PAUSE_MILLIS)));
    let session = succeed(session, "");
    assert_eq!(
        session.current(),
        Some(&Op::Adb(strings(&["-s", "abc", "reverse", "localabstract:gnirehtet", "tcp:31416"])))
    );
    let session = succeed(session, "");
    let session = succeed(session, "Broadcast completed\n");
    assert_eq!(session.current(), None);
}

#[test]
fn start_check_output_in_invalid_utf8_is_still_read() {
    let session = Session::new(cmd_start(None, None, None));
    let mut out = vec![0xff, 0xfe, b'\n'];
    out.extend_from_slice(b"    versionCode=6 minSdk=21\n");
    let session = match session.report(Outcome::Success(out)) {
        Ok(next) => next,
        Err(e) => panic!("unexpected failure {:?}", e),
    };
    assert_eq!(
        session.current(),
        Some(&Op::Adb(strings(&["reverse", "localabstract:gnirehtet", "tcp:31416"])))
    );
}

#[test]
fn start_fails_when_check_fails() {
    let session = Session::new(cmd_start(None, None, None));
    match session.report(Outcome::Status(None)) {
        Err(CommandExecutionError::ProcessStatus(ProcessStatusError { cmd, code })) => {
            assert_eq!(cmd.args, strings(&["shell", "dumpsys", "package", "com.genymobile.gnirehtet"]));
            assert_eq!(code, None);
        }
        other => panic!("unexpected {:?}", other),
    }
}

#[test]
fn start_with_empty_check_output_installs() {
    let session = Session::new(cmd_start(None, None, None));
    let session = succeed(session, "");
    assert_eq!(session.current(), Some(&Op::Adb(strings(&["install", "-r", "gnirehtet.apk"]))));
}
