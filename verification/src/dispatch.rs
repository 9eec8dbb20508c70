use vstd::prelude::*;
use crate::text::str_eq;

verus! {

/// The five operations of the command surface.
#[derive(Clone, Copy, PartialEq, Eq, Structural, Debug)]
pub enum Command {
    Greet,
    ReadFile,
    WriteFile,
    ListDirectory,
    GetSystemInfo,
}

/// The name each command is registered under.
pub open spec fn command_name(c: Command) -> Seq<char> {
    match c {
        Command::Greet => "greet"@,
        Command::ReadFile => "read_file"@,
        Command::WriteFile => "write_file"@,
        Command::ListDirectory => "list_directory"@,
        Command::GetSystemInfo => "get_system_info"@,
    }
}

/// The route map: which command a caller-supplied name reaches, `None` for
/// an unregistered name.
pub open spec fn routed_command(name: Seq<char>) -> Option<Command> {
    if name == "greet"@ {
        Some(Command::Greet)
    } else if name == "read_file"@ {
        Some(Command::ReadFile)
    } else if name == "write_file"@ {
        Some(Command::WriteFile)
    } else if name == "list_directory"@ {
        Some(Command::ListDirectory)
    } else if name == "get_system_info"@ {
        Some(Command::GetSystemInfo)
    } else {
        None
    }
}

/// The registered name of a command.
pub fn name_of(c: Command) -> (r: &'static str)
    ensures
        r@ == command_name(c),
{
    match c {
        Command::Greet => "greet",
        Command::ReadFile => "read_file",
        Command::WriteFile => "write_file",
        Command::ListDirectory => "list_directory",
        Command::GetSystemInfo => "get_system_info",
    }
}

/// Routes a caller-supplied name through the route map.
pub fn route(name: &str) -> (r: Option<Command>)
    ensures
        r == routed_command(name@),
{
    if str_eq(name, "greet") {
        Some(Command::Greet)
    } else if str_eq(name, "read_file") {
        Some(Command::ReadFile)
    } else if str_eq(name, "write_file") {
        Some(Command::WriteFile)
    } else if str_eq(name, "list_directory") {
        Some(Command::ListDirectory)
    } else if str_eq(name, "get_system_info") {
        Some(Command::GetSystemInfo)
    } else {
        None
    }
}

/// Law: routing a command's registered name reaches exactly that command.
pub proof fn lemma_route_round_trip(c: Command)
    ensures
        routed_command(command_name(c)) == Some(c),
{
    broadcast use vstd::string::group_string_axioms;

    reveal_strlit("greet");
    reveal_strlit("read_file");
    reveal_strlit("write_file");
    reveal_strlit("list_directory");
    reveal_strlit("get_system_info");
    assert("greet"@.len() == 5);
    assert("read_file"@.len() == 9);
    assert("write_file"@.len() == 10);
    assert("list_directory"@.len() == 14);
    assert("get_system_info"@.len() == 15);
}

} // verus!
