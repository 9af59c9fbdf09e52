//! The commands of the desktop application's interactive mode, read from
//! one line of input each.

use vstd::prelude::*;
use crate::bytes_util::str_eq;
use crate::text::{has_prefix, leading_word, lemma_trimmed_idempotent, split_word, starts_with, trim, trim_start, trimmed};

verus! {

/// A command of interactive mode.
#[derive(Debug, Clone)]
pub enum InteractiveCommand {
    /// A blank line.
    Empty,
    /// `quit` or `exit`.
    Quit,
    Help,
    Discover,
    Devices,
    Info,
    /// `pair <device_id>`.
    Pair(String),
    /// `unpair <device_id>`.
    Unpair(String),
    /// `send <device_id> <file>`.
    Send(String, String),
    /// `send` with fewer than two arguments.
    SendUsage,
    /// `clipboard set <text>`.
    ClipboardSet(String),
    ClipboardGet,
    /// `mirror <device_id>`.
    Mirror(String),
    MirrorStop,
    Transfers,
    /// Any other line, trimmed.
    Unknown(String),
}

/// A command, its texts taken as characters.
pub enum CommandView {
    Empty,
    Quit,
    Help,
    Discover,
    Devices,
    Info,
    Pair(Seq<char>),
    Unpair(Seq<char>),
    Send(Seq<char>, Seq<char>),
    SendUsage,
    ClipboardSet(Seq<char>),
    ClipboardGet,
    Mirror(Seq<char>),
    MirrorStop,
    Transfers,
    Unknown(Seq<char>),
}

impl View for InteractiveCommand {
    type V = CommandView;

    open spec fn view(&self) -> CommandView {
        match self {
            InteractiveCommand::Empty => CommandView::Empty,
            InteractiveCommand::Quit => CommandView::Quit,
            InteractiveCommand::Help => CommandView::Help,
            InteractiveCommand::Discover => CommandView::Discover,
            InteractiveCommand::Devices => CommandView::Devices,
            InteractiveCommand::Info => CommandView::Info,
            InteractiveCommand::Pair(d) => CommandView::Pair(d@),
            InteractiveCommand::Unpair(d) => CommandView::Unpair(d@),
            InteractiveCommand::Send(d, f) => CommandView::Send(d@, f@),
            InteractiveCommand::SendUsage => CommandView::SendUsage,
            InteractiveCommand::ClipboardSet(t) => CommandView::ClipboardSet(t@),
            InteractiveCommand::ClipboardGet => CommandView::ClipboardGet,
            InteractiveCommand::Mirror(d) => CommandView::Mirror(d@),
            InteractiveCommand::MirrorStop => CommandView::MirrorStop,
            InteractiveCommand::Transfers => CommandView::Transfers,
            InteractiveCommand::Unknown(l) => CommandView::Unknown(l@),
        }
    }
}

/// The `send` command with the given arguments: its first two
/// white-space-separated words, or the usage hint when there are fewer.
pub open spec fn send_command(args: Seq<char>) -> CommandView {
    let first = leading_word(trim_start(args));
    let after = trim_start(args).skip(first.len() as int);
    let second = leading_word(trim_start(after));
    if first.len() == 0 || second.len() == 0 {
        CommandView::SendUsage
    } else {
        CommandView::Send(first, second)
    }
}

/// The command a line of input stands for; the line is taken without its
/// leading and trailing white space, and the first form it matches wins.
pub open spec fn command_of(line: Seq<char>) -> CommandView {
    let l = trimmed(line);
    if l.len() == 0 {
        CommandView::Empty
    } else if l == "quit"@ || l == "exit"@ {
        CommandView::Quit
    } else if l == "help"@ {
        CommandView::Help
    } else if l == "discover"@ {
        CommandView::Discover
    } else if l == "devices"@ {
        CommandView::Devices
    } else if l == "info"@ {
        CommandView::Info
    } else if has_prefix(l, "pair "@) {
        CommandView::Pair(l.skip("pair "@.len() as int))
    } else if has_prefix(l, "unpair "@) {
        CommandView::Unpair(l.skip("unpair "@.len() as int))
    } else if has_prefix(l, "send "@) {
        send_command(l.skip("send "@.len() as int))
    } else if has_prefix(l, "clipboard set "@) {
        CommandView::ClipboardSet(l.skip("clipboard set "@.len() as int))
    } else if l == "clipboard get"@ {
        CommandView::ClipboardGet
    } else if has_prefix(l, "mirror "@) && l != "mirror stop"@ {
        CommandView::Mirror(l.skip("mirror "@.len() as int))
    } else if l == "mirror stop"@ {
        CommandView::MirrorStop
    } else if l == "transfers"@ {
        CommandView::Transfers
    } else {
        CommandView::Unknown(l)
    }
}

/// White space around a line does not change the command it stands for.
pub proof fn lemma_command_ignores_surrounding_space(line: Seq<char>)
    ensures
        command_of(trimmed(line)) == command_of(line),
{
    lemma_trimmed_idempotent(line);
}

/// What follows `prefix` in `s`, which begins with it.
fn after_prefix<'a>(s: &'a str, prefix: &str) -> (r: &'a str)
    requires
        has_prefix(s@, prefix@),
    ensures
        r@ == s@.skip(prefix@.len() as int),
{
    let n = s.unicode_len();
    let m = prefix.unicode_len();
    s.substring_char(m, n)
}

/// The `send` command with the given arguments.
fn parse_send(args: &str) -> (r: InteractiveCommand)
    ensures
        r@ == send_command(args@),
{
    let (first, after) = split_word(args);
    let (second, _) = split_word(after);
    if first.unicode_len() == 0 || second.unicode_len() == 0 {
        InteractiveCommand::SendUsage
    } else {
        InteractiveCommand::Send(first.to_string(), second.to_string())
    }
}

/// The command a line of input stands for.
pub fn parse_interactive_line(line: &str) -> (r: InteractiveCommand)
    ensures
        r@ == command_of(line@),
{
    let l = trim(line);
    if l.unicode_len() == 0 {
        InteractiveCommand::Empty
    } else if str_eq(l, "quit") || str_eq(l, "exit") {
        InteractiveCommand::Quit
    } else if str_eq(l, "help") {
        InteractiveCommand::Help
    } else if str_eq(l, "discover") {
        InteractiveCommand::Discover
    } else if str_eq(l, "devices") {
        InteractiveCommand::Devices
    } else if str_eq(l, "info") {
        InteractiveCommand::Info
    } else if starts_with(l, "pair ") {
        InteractiveCommand::Pair(after_prefix(l, "pair ").to_string())
    } else if starts_with(l, "unpair ") {
        InteractiveCommand::Unpair(after_prefix(l, "unpair ").to_string())
    } else if starts_with(l, "send ") {
        parse_send(after_prefix(l, "send "))
    } else if starts_with(l, "clipboard set ") {
        InteractiveCommand::ClipboardSet(after_prefix(l, "clipboard set ").to_string())
    } else if str_eq(l, "clipboard get") {
        InteractiveCommand::ClipboardGet
    } else if starts_with(l, "mirror ") && !str_eq(l, "mirror stop") {
        InteractiveCommand::Mirror(after_prefix(l, "mirror ").to_string())
    } else if str_eq(l, "mirror stop") {
        InteractiveCommand::MirrorStop
    } else if str_eq(l, "transfers") {
        InteractiveCommand::Transfers
    } else {
        InteractiveCommand::Unknown(l.to_string())
    }
}

} // verus!
