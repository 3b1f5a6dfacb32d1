use vstd::prelude::*;
use vstd::string::*;
use crate::adb::texts;

verus! {

/// A command takes no parameter.
pub const PARAM_NONE: u8 = 0;

/// A command takes the serial of the device.
pub const PARAM_SERIAL: u8 = 1;

/// A command takes `-d DNS[,DNS2,...]`.
pub const PARAM_DNS_SERVERS: u8 = 2;

/// A command takes `-r ROUTE[,ROUTE2,...]`.
pub const PARAM_ROUTES: u8 = 4;

/// `accepted_parameters` holds the flag `param`.
pub open spec fn accepts(accepted_parameters: u8, param: u8) -> bool {
    accepted_parameters & param != 0
}

/// The parameters given to a command.
#[derive(Clone, Debug, PartialEq, Eq)]
pub struct CommandLineArguments {
    serial: Option<String>,
    dns_servers: Option<String>,
    routes: Option<String>,
}

/// The parameters of a command, as texts.
pub struct ArgsView {
    pub serial: Option<Seq<char>>,
    pub dns_servers: Option<Seq<char>>,
    pub routes: Option<Seq<char>>,
}

/// Why the parameters of a command were refused.
#[derive(Clone, Debug, PartialEq, Eq)]
pub enum ArgsError {
    /// `-d` was given twice.
    DnsServersAlreadySet,
    /// `-d` was the last argument.
    MissingDnsServers,
    /// `-r` was given twice.
    RoutesAlreadySet,
    /// `-r` was the last argument.
    MissingRoutes,
    /// This argument is not one that the command takes.
    Unexpected(String),
}

/// An `ArgsError`, as texts.
pub enum ArgsErrorView {
    DnsServersAlreadySet,
    MissingDnsServers,
    RoutesAlreadySet,
    MissingRoutes,
    Unexpected(Seq<char>),
}

pub open spec fn opt_string_text(s: Option<String>) -> Option<Seq<char>> {
    match s {
        Some(s) => Some(s@),
        None => None,
    }
}

impl View for CommandLineArguments {
    type V = ArgsView;

    closed spec fn view(&self) -> ArgsView {
        ArgsView {
            serial: opt_string_text(self.serial),
            dns_servers: opt_string_text(self.dns_servers),
            routes: opt_string_text(self.routes),
        }
    }
}

impl View for ArgsError {
    type V = ArgsErrorView;

    open spec fn view(&self) -> ArgsErrorView {
        match self {
            ArgsError::DnsServersAlreadySet => ArgsErrorView::DnsServersAlreadySet,
            ArgsError::MissingDnsServers => ArgsErrorView::MissingDnsServers,
            ArgsError::RoutesAlreadySet => ArgsErrorView::RoutesAlreadySet,
            ArgsError::MissingRoutes => ArgsErrorView::MissingRoutes,
            ArgsError::Unexpected(arg) => ArgsErrorView::Unexpected(arg@),
        }
    }
}

/// No parameter set.
pub open spec fn no_args() -> ArgsView {
    ArgsView { serial: None, dns_servers: None, routes: None }
}

/// Reads `args` from the front into `parsed`: `-d VALUE` and `-r VALUE` where
/// the command accepts them, each at most once; otherwise the first other
/// argument is the serial, where the command accepts one. Anything else is
/// refused.
pub open spec fn parse_from(accepted: u8, args: Seq<Seq<char>>, parsed: ArgsView) -> Result<
    ArgsView,
    ArgsErrorView,
>
    decreases args.len(),
{
    if args.len() == 0 {
        Ok(parsed)
    } else {
        let arg = args[0];
        if accepts(accepted, PARAM_DNS_SERVERS) && arg == "-d"@ {
            if parsed.dns_servers is Some {
                Err(ArgsErrorView::DnsServersAlreadySet)
            } else if args.len() < 2 {
                Err(ArgsErrorView::MissingDnsServers)
            } else {
                parse_from(accepted, args.skip(2), ArgsView { dns_servers: Some(args[1]), ..parsed })
            }
        } else if accepts(accepted, PARAM_ROUTES) && arg == "-r"@ {
            if parsed.routes is Some {
                Err(ArgsErrorView::RoutesAlreadySet)
            } else if args.len() < 2 {
                Err(ArgsErrorView::MissingRoutes)
            } else {
                parse_from(accepted, args.skip(2), ArgsView { routes: Some(args[1]), ..parsed })
            }
        } else if accepts(accepted, PARAM_SERIAL) && parsed.serial is None {
            parse_from(accepted, args.skip(1), ArgsView { serial: Some(arg), ..parsed })
        } else {
            Err(ArgsErrorView::Unexpected(arg))
        }
    }
}

/// Parsing sets a parameter only where it was set before or the command
/// accepts it.
pub proof fn lemma_parse_from_sets_only_accepted(accepted: u8, args: Seq<Seq<char>>, parsed: ArgsView)
    ensures
        parse_from(accepted, args, parsed) matches Ok(v) ==> {
            &&& v.serial is Some ==> parsed.serial is Some || accepts(accepted, PARAM_SERIAL)
            &&& v.dns_servers is Some ==> parsed.dns_servers is Some || accepts(
                accepted,
                PARAM_DNS_SERVERS,
            )
            &&& v.routes is Some ==> parsed.routes is Some || accepts(accepted, PARAM_ROUTES)
        },
    decreases args.len(),
{
    if args.len() > 0 {
        let arg = args[0];
        if accepts(accepted, PARAM_DNS_SERVERS) && arg == "-d"@ {
            if parsed.dns_servers is None && args.len() >= 2 {
                lemma_parse_from_sets_only_accepted(
                    accepted,
                    args.skip(2),
                    ArgsView { dns_servers: Some(args[1]), ..parsed },
                );
            }
        } else if accepts(accepted, PARAM_ROUTES) && arg == "-r"@ {
            if parsed.routes is None && args.len() >= 2 {
                lemma_parse_from_sets_only_accepted(
                    accepted,
                    args.skip(2),
                    ArgsView { routes: Some(args[1]), ..parsed },
                );
            }
        } else if accepts(accepted, PARAM_SERIAL) && parsed.serial is None {
            lemma_parse_from_sets_only_accepted(
                accepted,
                args.skip(1),
                ArgsView { serial: Some(arg), ..parsed },
            );
        }
    }
}

/// A command is never given a parameter that it does not accept: the serial
/// is set only for a command that takes `PARAM_SERIAL`, the DNS servers only
/// for one that takes `PARAM_DNS_SERVERS`, the routes only for one that takes
/// `PARAM_ROUTES`.
pub proof fn lemma_parse_sets_only_accepted(accepted: u8, args: Seq<Seq<char>>)
    ensures
        parse_from(accepted, args, no_args()) matches Ok(v) ==> {
            &&& v.serial is Some ==> accepts(accepted, PARAM_SERIAL)
            &&& v.dns_servers is Some ==> accepts(accepted, PARAM_DNS_SERVERS)
            &&& v.routes is Some ==> accepts(accepted, PARAM_ROUTES)
        },
{
    lemma_parse_from_sets_only_accepted(accepted, args, no_args());
}

/// A command that accepts no parameter accepts exactly the empty argument
/// list, and refuses the first argument of any other.
pub proof fn lemma_no_parameter_takes_no_argument(args: Seq<Seq<char>>)
    ensures
        parse_from(PARAM_NONE, args, no_args()) == if args.len() == 0 {
            Ok::<ArgsView, ArgsErrorView>(no_args())
        } else {
            Err(ArgsErrorView::Unexpected(args[0]))
        },
{
    assert(0u8 & 1u8 == 0 && 0u8 & 2u8 == 0 && 0u8 & 4u8 == 0) by (bit_vector);
}

/// `-d` and `-r` are independent options: given both, in either order, a
/// command that accepts both gets both values, and no serial.
pub proof fn lemma_options_in_any_order(accepted: u8, d: Seq<char>, r: Seq<char>)
    requires
        accepts(accepted, PARAM_DNS_SERVERS),
        accepts(accepted, PARAM_ROUTES),
    ensures
        parse_from(accepted, seq!["-r"@, r, "-d"@, d], no_args()) == Ok::<ArgsView, ArgsErrorView>(
            ArgsView { serial: None, dns_servers: Some(d), routes: Some(r) },
        ),
        parse_from(accepted, seq!["-d"@, d, "-r"@, r], no_args()) == Ok::<ArgsView, ArgsErrorView>(
            ArgsView { serial: None, dns_servers: Some(d), routes: Some(r) },
        ),
{
    reveal_strlit("-d");
    reveal_strlit("-r");
    assert("-r"@[1] != "-d"@[1]);
    assert("-r"@ != "-d"@);
    let a1 = seq!["-r"@, r, "-d"@, d];
    assert(a1[0] != "-d"@);
    assert(a1.skip(2) =~= seq!["-d"@, d]);
    assert(a1.skip(2).skip(2) =~= Seq::<Seq<char>>::empty());
    let a2 = seq!["-d"@, d, "-r"@, r];
    assert(a2.skip(2) =~= seq!["-r"@, r]);
    assert(seq!["-r"@, r][0] != "-d"@);
    assert(a2.skip(2).skip(2) =~= Seq::<Seq<char>>::empty());
    reveal_with_fuel(parse_from, 3);
}

/// Where parsing stops with `DnsServersAlreadySet`, `-d` was given twice (or
/// once more after DNS servers were already set); likewise for
/// `RoutesAlreadySet` and `-r`.
pub proof fn lemma_already_set_needs_repeat(accepted: u8, args: Seq<Seq<char>>, parsed: ArgsView)
    ensures
        parse_from(accepted, args, parsed) == Err::<ArgsView, ArgsErrorView>(
            ArgsErrorView::DnsServersAlreadySet,
        ) ==> (parsed.dns_servers is Some && args.contains("-d"@)) || exists|i: int, j: int|
            0 <= i < j < args.len() && args[i] == "-d"@ && args[j] == "-d"@,
        parse_from(accepted, args, parsed) == Err::<ArgsView, ArgsErrorView>(
            ArgsErrorView::RoutesAlreadySet,
        ) ==> (parsed.routes is Some && args.contains("-r"@)) || exists|i: int, j: int|
            0 <= i < j < args.len() && args[i] == "-r"@ && args[j] == "-r"@,
    decreases args.len(),
{
    if args.len() > 0 {
        let arg = args[0];
        let next = if accepts(accepted, PARAM_DNS_SERVERS) && arg == "-d"@ {
            if parsed.dns_servers is None && args.len() >= 2 {
                Some((2int, ArgsView { dns_servers: Some(args[1]), ..parsed }))
            } else {
                None
            }
        } else if accepts(accepted, PARAM_ROUTES) && arg == "-r"@ {
            if parsed.routes is None && args.len() >= 2 {
                Some((2int, ArgsView { routes: Some(args[1]), ..parsed }))
            } else {
                None
            }
        } else if accepts(accepted, PARAM_SERIAL) && parsed.serial is None {
            Some((1int, ArgsView { serial: Some(arg), ..parsed }))
        } else {
            None
        };
        assert(args[0] == arg);
        if let Some((n, p)) = next {
            let rest = args.skip(n);
            lemma_already_set_needs_repeat(accepted, rest, p);
            assert forall|k: int| 0 <= k < rest.len() implies rest[k] == args[k + n] by {}
            if rest.contains("-d"@) {
                let k = choose|k: int| 0 <= k < rest.len() && rest[k] == "-d"@;
                assert(args[k + n] == "-d"@);
                if p.dns_servers is Some && parsed.dns_servers is None {
                    assert(args[0] == "-d"@);
                }
            }
            if rest.contains("-r"@) {
                let k = choose|k: int| 0 <= k < rest.len() && rest[k] == "-r"@;
                assert(args[k + n] == "-r"@);
                if p.routes is Some && parsed.routes is None {
                    assert(args[0] == "-r"@);
                }
            }
            if exists|i: int, j: int| 0 <= i < j < rest.len() && rest[i] == "-d"@ && rest[j] == "-d"@ {
                let (i, j) = choose|i: int, j: int|
                    0 <= i < j < rest.len() && rest[i] == "-d"@ && rest[j] == "-d"@;
                assert(args[i + n] == "-d"@ && args[j + n] == "-d"@);
            }
            if exists|i: int, j: int| 0 <= i < j < rest.len() && rest[i] == "-r"@ && rest[j] == "-r"@ {
                let (i, j) = choose|i: int, j: int|
                    0 <= i < j < rest.len() && rest[i] == "-r"@ && rest[j] == "-r"@;
                assert(args[i + n] == "-r"@ && args[j + n] == "-r"@);
            }
        }
    }
}

/// A command's parameters are refused as already set only where the option
/// was given twice.
pub proof fn lemma_already_set_only_on_repeat(accepted: u8, args: Seq<Seq<char>>)
    ensures
        parse_from(accepted, args, no_args()) == Err::<ArgsView, ArgsErrorView>(
            ArgsErrorView::DnsServersAlreadySet,
        ) ==> exists|i: int, j: int|
            0 <= i < j < args.len() && args[i] == "-d"@ && args[j] == "-d"@,
        parse_from(accepted, args, no_args()) == Err::<ArgsView, ArgsErrorView>(
            ArgsErrorView::RoutesAlreadySet,
        ) ==> exists|i: int, j: int|
            0 <= i < j < args.len() && args[i] == "-r"@ && args[j] == "-r"@,
{
    lemma_already_set_needs_repeat(accepted, args, no_args());
}

impl CommandLineArguments {
    /// Reads the parameters of a command that accepts `accepted_parameters`
    /// (flags `PARAM_*`) from `args`, as `parse_from` says.
    pub fn parse(accepted_parameters: u8, args: Vec<String>) -> (result: Result<
        CommandLineArguments,
        ArgsError,
    >)
        ensures
            match parse_from(accepted_parameters, texts(args@), no_args()) {
                Ok(v) => result matches Ok(parsed) && parsed@ == v,
                Err(e) => result matches Err(err) && err@ == e,
            },
    {
        let dash_d = String::from_str("-d");
        let dash_r = String::from_str("-r");
        let mut serial: Option<String> = None;
        let mut dns_servers: Option<String> = None;
        let mut routes: Option<String> = None;
        let ghost all = texts(args@);
        let mut i: usize = 0;
        assert(all.skip(0) =~= all);
        while i < args.len()
            invariant
                all == texts(args@),
                0 <= i <= args.len(),
                dash_d@ == "-d"@,
                dash_r@ == "-r"@,
                parse_from(accepted_parameters, all, no_args()) == parse_from(
                    accepted_parameters,
                    all.skip(i as int),
                    ArgsView {
                        serial: opt_string_text(serial),
                        dns_servers: opt_string_text(dns_servers),
                        routes: opt_string_text(routes),
                    },
                ),
            decreases args.len() - i,
        {
            let ghost rest = all.skip(i as int);
            assert(rest[0] == args@[i as int]@);
            let arg = &args[i];
            if (accepted_parameters & PARAM_DNS_SERVERS) != 0 && *arg == dash_d {
                if dns_servers.is_some() {
                    return Err(ArgsError::DnsServersAlreadySet);
                }
                if i + 1 >= args.len() {
                    return Err(ArgsError::MissingDnsServers);
                }
                assert(rest[1] == args@[i + 1]@);
                assert(rest.skip(2) =~= all.skip(i + 2));
                dns_servers = Some(args[i + 1].clone());
                i = i + 2;
            } else if (accepted_parameters & PARAM_ROUTES) != 0 && *arg == dash_r {
                if routes.is_some() {
                    return Err(ArgsError::RoutesAlreadySet);
                }
                if i + 1 >= args.len() {
                    return Err(ArgsError::MissingRoutes);
                }
                assert(rest[1] == args@[i + 1]@);
                assert(rest.skip(2) =~= all.skip(i + 2));
                routes = Some(args[i + 1].clone());
                i = i + 2;
            } else if (accepted_parameters & PARAM_SERIAL) != 0 && serial.is_none() {
                assert(rest.skip(1) =~= all.skip(i + 1));
                serial = Some(arg.clone());
                i = i + 1;
            } else {
                return Err(ArgsError::Unexpected(arg.clone()));
            }
        }
        Ok(CommandLineArguments { serial, dns_servers, routes })
    }

    /// The serial of the device, if given.
    pub fn serial(&self) -> (serial: Option<&String>)
        ensures
            crate::adb::opt_text(serial) == self@.serial,
    {
        self.serial.as_ref()
    }

    /// The DNS servers, if given.
    pub fn dns_servers(&self) -> (dns_servers: Option<&String>)
        ensures
            crate::adb::opt_text(dns_servers) == self@.dns_servers,
    {
        self.dns_servers.as_ref()
    }

    /// The routes, if given.
    pub fn routes(&self) -> (routes: Option<&String>)
        ensures
            crate::adb::opt_text(routes) == self@.routes,
    {
        self.routes.as_ref()
    }
}

} // verus!
