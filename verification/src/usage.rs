use vstd::prelude::*;
use vstd::string::*;
use crate::cli_args::{accepts, PARAM_DNS_SERVERS, PARAM_ROUTES, PARAM_SERIAL};
use crate::command::{commands, Command};
use crate::text::{lemma_split_lines_nonempty, lemma_split_lines_push, split_lines, to_chars};

verus! {

/// Each line, indented by six spaces and ended by `'\n'`.
pub open spec fn indented(lines: Seq<Seq<char>>) -> Seq<char>
    decreases lines.len(),
{
    if lines.len() == 0 {
        seq![]
    } else {
        indented(lines.drop_last()) + "      "@ + lines.last() + "\n"@
    }
}

/// The parameters that a command accepts, as the usage text shows them.
pub open spec fn params_usage(params: u8) -> Seq<char> {
    (if accepts(params, PARAM_SERIAL) {
        " [serial]"@
    } else {
        seq![]
    }) + (if accepts(params, PARAM_DNS_SERVERS) {
        " [-d DNS[,DNS2,...]]"@
    } else {
        seq![]
    }) + (if accepts(params, PARAM_ROUTES) {
        " [-r ROUTE[,ROUTE2,...]]"@
    } else {
        seq![]
    })
}

/// The usage of one command: its syntax line, then each line of its
/// description, indented.
pub open spec fn command_usage(command: Command) -> Seq<char> {
    "  gnirehtet "@ + command.command_name() + params_usage(command.params()) + "\n"@ + indented(
        split_lines(command.description_text()),
    )
}

/// The names of `commands`, separated by `|`.
pub open spec fn names_joined(commands: Seq<Command>) -> Seq<char>
    decreases commands.len(),
{
    if commands.len() == 0 {
        seq![]
    } else if commands.len() == 1 {
        commands[0].command_name()
    } else {
        names_joined(commands.drop_last()) + "|"@ + commands.last().command_name()
    }
}

/// The usages of `commands`, each after an empty line.
pub open spec fn usages(commands: Seq<Command>) -> Seq<char>
    decreases commands.len(),
{
    if commands.len() == 0 {
        seq![]
    } else {
        usages(commands.drop_last()) + "\n"@ + command_usage(commands.last())
    }
}

/// The whole usage text: the syntax line naming every command, then the usage
/// of each.
pub open spec fn usage(commands: Seq<Command>) -> Seq<char> {
    "Syntax: gnirehtet ("@ + names_joined(commands) + ") ...\n"@ + usages(commands)
}

/// The last line is indented after the others.
pub proof fn lemma_indented_last(lines: Seq<Seq<char>>)
    requires
        lines.len() >= 1,
    ensures
        indented(lines) == indented(lines.drop_last()) + "      "@ + lines.last() + "\n"@,
{
}

/// Appends the usage of `command` to `msg`.
pub fn append_command_usage(msg: &mut String, command: &Command)
    ensures
        final(msg)@ == old(msg)@ + command_usage(*command),
{
    let ghost base = msg@;
    msg.append("  gnirehtet ");
    msg.append(command.command());
    let accepted_parameters = command.accepted_parameters();
    if (accepted_parameters & PARAM_SERIAL) != 0 {
        msg.append(" [serial]");
    }
    if (accepted_parameters & PARAM_DNS_SERVERS) != 0 {
        msg.append(" [-d DNS[,DNS2,...]]");
    }
    if (accepted_parameters & PARAM_ROUTES) != 0 {
        msg.append(" [-r ROUTE[,ROUTE2,...]]");
    }
    msg.append("\n");
    let ghost head = msg@;
    assert(head =~= base + "  gnirehtet "@ + command.command_name() + params_usage(
        command.params(),
    ) + "\n"@);
    let description = command.description();
    let chars = to_chars(description);
    let ghost d = description@;
    let mut start: usize = 0;
    let mut i: usize = 0;
    assert(d.take(0) =~= Seq::<char>::empty());
    while i < chars.len()
        invariant
            chars@ == d,
            d == description@,
            0 <= start <= i <= chars.len(),
            msg@ == head + indented(split_lines(d.take(i as int)).drop_last()),
            split_lines(d.take(i as int)).len() >= 1,
            split_lines(d.take(i as int)).last() == d.subrange(start as int, i as int),
        decreases chars.len() - i,
    {
        let ghost lines = split_lines(d.take(i as int));
        proof {
            assert(d.take(i + 1) =~= d.take(i as int).push(d[i as int]));
            lemma_split_lines_push(d.take(i as int), d[i as int]);
            lemma_split_lines_nonempty(d.take(i as int));
        }
        if chars[i] == '\n' {
            msg.append("      ");
            msg.append(description.substring_char(start, i));
            msg.append("\n");
            proof {
                let next = split_lines(d.take(i + 1));
                assert(next.drop_last() =~= lines);
                lemma_indented_last(lines);
                assert(d.subrange(i + 1, i + 1) =~= Seq::<char>::empty());
            }
            start = i + 1;
        } else {
            proof {
                let next = split_lines(d.take(i + 1));
                assert(next.drop_last() =~= lines.drop_last());
                assert(next.last() =~= d.subrange(start as int, i + 1));
            }
        }
        i = i + 1;
    }
    msg.append("      ");
    msg.append(description.substring_char(start, chars.len()));
    msg.append("\n");
    proof {
        assert(d.take(chars.len() as int) =~= d);
        let lines = split_lines(d);
        lemma_indented_last(lines);
        assert(msg@ =~= base + command_usage(*command));
    }
}

/// The usage of one command.
pub fn command_usage_text(command: &Command) -> (text: String)
    ensures
        text@ == command_usage(*command),
{
    let mut msg = String::new();
    append_command_usage(&mut msg, command);
    assert(msg@ =~= command_usage(*command));
    msg
}

/// The whole usage text.
pub fn usage_text() -> (text: String)
    ensures
        text@ == usage(commands()),
{
    let all = Command::all();
    let mut msg = String::from_str("Syntax: gnirehtet (");
    msg.append(all[0].command());
    let mut i: usize = 1;
    assert(commands().take(1) =~= seq![commands()[0]]);
    while i < all.len()
        invariant
            all@ == commands(),
            1 <= i <= all.len(),
            msg@ == "Syntax: gnirehtet ("@ + names_joined(commands().take(i as int)),
        decreases all.len() - i,
    {
        msg.append("|");
        msg.append(all[i].command());
        assert(commands().take(i + 1).drop_last() =~= commands().take(i as int));
        i = i + 1;
    }
    assert(commands().take(all.len() as int) =~= commands());
    msg.append(") ...\n");
    let ghost head = msg@;
    let mut k: usize = 0;
    assert(commands().take(0) =~= Seq::<Command>::empty());
    while k < all.len()
        invariant
            all@ == commands(),
            0 <= k <= all.len(),
            msg@ == head + usages(commands().take(k as int)),
        decreases all.len() - k,
    {
        msg.append("\n");
        append_command_usage(&mut msg, &all[k]);
        assert(commands().take(k + 1).drop_last() =~= commands().take(k as int));
        k = k + 1;
    }
    assert(msg@ =~= usage(commands()));
    msg
}

} // verus!
