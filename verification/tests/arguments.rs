use gnirehtet::cli_args::{
    ArgsError, CommandLineArguments, PARAM_DNS_SERVERS, PARAM_NONE, PARAM_ROUTES, PARAM_SERIAL,
};

fn strings(v: &[&str]) -> Vec<String> {
    v.iter().map(|s| s.to_string()).collect()
}

const ALL: u8 = PARAM_SERIAL | PARAM_DNS_SERVERS | PARAM_ROUTES;

#[test]
fn parse_nothing() {
    let args = CommandLineArguments::parse(ALL, vec![]).unwrap();
    assert_eq!(args.serial(), None);
    assert_eq!(args.dns_servers(), None);
    assert_eq!(args.routes(), None);
}

#[test]
fn parse_serial() {
    let args = CommandLineArguments::parse(PARAM_SERIAL, strings(&["myserial"])).unwrap();
    assert_eq!(args.serial().map(|s| s.as_str()), Some("myserial"));
}

#[test]
fn parse_everything() {
    let args = CommandLineArguments::parse(
        ALL,
        strings(&["-d", "8.8.8.8", "myserial", "-r", "10.0.0.0/8"]),
    )
    .unwrap();
    assert_eq!(args.serial().map(|s| s.as_str()), Some("myserial"));
    assert_eq!(args.dns_servers().map(|s| s.as_str()), Some("8.8.8.8"));
    assert_eq!(args.routes().map(|s| s.as_str()), Some("10.0.0.0/8"));
}

#[test]
fn parse_two_serials_refused() {
    assert_eq!(
        CommandLineArguments::parse(PARAM_SERIAL, strings(&["a", "b"])),
        Err(ArgsError::Unexpected("b".to_string()))
    );
}

#[test]
fn parse_dns_twice_refused() {
    assert_eq!(
        CommandLineArguments::parse(ALL, strings(&["-d", "1.1.1.1", "-d", "8.8.8.8"])),
        Err(ArgsError::DnsServersAlreadySet)
    );
}

#[test]
fn parse_missing_values_refused() {
    assert_eq!(
        CommandLineArguments::parse(ALL, strings(&["-d"])),
        Err(ArgsError::MissingDnsServers)
    );
    assert_eq!(
        CommandLineArguments::parse(ALL, strings(&["-r"])),
        Err(ArgsError::MissingRoutes)
    );
    assert_eq!(
        CommandLineArguments::parse(ALL, strings(&["-r", "a", "-r", "b"])),
        Err(ArgsError::RoutesAlreadySet)
    );
}

#[test]
fn parse_unaccepted_option_is_taken_as_serial_or_refused() {
    let args = CommandLineArguments::parse(PARAM_SERIAL, strings(&["-d"])).unwrap();
    assert_eq!(args.serial().map(|s| s.as_str()), Some("-d"));
    assert_eq!(
        CommandLineArguments::parse(PARAM_DNS_SERVERS, strings(&["x"])),
        Err(ArgsError::Unexpected("x".to_string()))
    );
}

#[test]
fn parse_no_parameter_command() {
    assert!(CommandLineArguments::parse(PARAM_NONE, vec![]).is_ok());
    assert_eq!(
        CommandLineArguments::parse(PARAM_NONE, strings(&["x", "y"])),
        Err(ArgsError::Unexpected("x".to_string()))
    );
}
