//! The command-line options and the decisions taken from them and from the
//! interactive menu.
use vstd::prelude::*;
use vstd::string::*;
use crate::text::{trim, trim_text};

verus! {

/// The command-line options.
#[derive(Debug, Clone)]
pub struct Args {
    /// Port of the proxy server.
    pub port: u16,
    /// Address of the proxy server; this machine's local address if absent.
    pub ip: Option<String>,
    /// Set the proxy without the interactive menu.
    pub set: bool,
    /// Clear the proxy without the interactive menu.
    pub clear: bool,
    /// Restart the bridge server without the interactive menu.
    pub restart_adb: bool,
    /// Show the available commands and aliases.
    pub help_commands: bool,
    /// Show the proxy setting without the interactive menu.
    pub view: bool,
}

/// What a run of the tool does.
#[derive(Debug, Clone, Copy, PartialEq, Eq, Structural)]
pub enum CliAction {
    SetProxy,
    ClearProxy,
    RestartAdb,
    ShowCommands,
    ViewProxy,
    Interactive,
}

/// What the options ask for; the first flag set, in the order
/// set, clear, restart, help, view, wins; with none, the menu.
pub open spec fn action_of(args: Args) -> CliAction {
    if args.set {
        CliAction::SetProxy
    } else if args.clear {
        CliAction::ClearProxy
    } else if args.restart_adb {
        CliAction::RestartAdb
    } else if args.help_commands {
        CliAction::ShowCommands
    } else if args.view {
        CliAction::ViewProxy
    } else {
        CliAction::Interactive
    }
}

/// Decides what a run with these options does.
pub fn cli_action(args: &Args) -> (r: CliAction)
    ensures
        r == action_of(*args),
{
    if args.set {
        CliAction::SetProxy
    } else if args.clear {
        CliAction::ClearProxy
    } else if args.restart_adb {
        CliAction::RestartAdb
    } else if args.help_commands {
        CliAction::ShowCommands
    } else if args.view {
        CliAction::ViewProxy
    } else {
        CliAction::Interactive
    }
}

/// An entry of the interactive menu.
#[derive(Debug, Clone, Copy, PartialEq, Eq, Structural)]
pub enum MenuChoice {
    SetProxy,
    ClearProxy,
    ViewProxy,
    RestartAdb,
    Exit,
    Invalid,
}

/// The entry that a line typed at the menu selects: `1` to `5`, ignoring
/// surrounding whitespace; anything else is invalid.
pub open spec fn choice_of(input: Seq<char>) -> MenuChoice {
    let t = trim(input);
    if t == "1"@ {
        MenuChoice::SetProxy
    } else if t == "2"@ {
        MenuChoice::ClearProxy
    } else if t == "3"@ {
        MenuChoice::ViewProxy
    } else if t == "4"@ {
        MenuChoice::RestartAdb
    } else if t == "5"@ {
        MenuChoice::Exit
    } else {
        MenuChoice::Invalid
    }
}

/// The menu entry selected by the line `input`.
pub fn menu_choice(input: &str) -> (r: MenuChoice)
    ensures
        r == choice_of(input@),
{
    let t = trim_text(input);
    proof {
        reveal_strlit("1");
        reveal_strlit("2");
        reveal_strlit("3");
        reveal_strlit("4");
        reveal_strlit("5");
    }
    if t.unicode_len() != 1 {
        assert(t@ != "1"@ && t@ != "2"@ && t@ != "3"@ && t@ != "4"@ && t@ != "5"@);
        return MenuChoice::Invalid;
    }
    let c = t.as_str().get_char(0);
    assert(t@ =~= seq![c]);
    if c == '1' {
        assert(t@ =~= "1"@);
        MenuChoice::SetProxy
    } else if c == '2' {
        assert(t@ =~= "2"@);
        MenuChoice::ClearProxy
    } else if c == '3' {
        assert(t@ =~= "3"@);
        MenuChoice::ViewProxy
    } else if c == '4' {
        assert(t@ =~= "4"@);
        MenuChoice::RestartAdb
    } else if c == '5' {
        assert(t@ =~= "5"@);
        MenuChoice::Exit
    } else {
        assert(t@ != "1"@ && t@ != "2"@ && t@ != "3"@ && t@ != "4"@ && t@ != "5"@);
        MenuChoice::Invalid
    }
}

} // verus!
