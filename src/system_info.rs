//! The system-info query: three identification strings of the platform,
//! under fixed keys.
use vstd::prelude::*;

use crate::text::same_text;

verus! {

/// Name of the one command the front end may invoke.
pub open spec fn system_info_command() -> Seq<char> {
    seq!['g', 'e', 't', '_', 's', 'y', 's', 't', 'e', 'm', '_', 'i', 'n', 'f', 'o']
}

/// Key of the operating system's name.
pub open spec fn os_key() -> Seq<char> {
    seq!['o', 's']
}

/// Key of the CPU architecture.
pub open spec fn arch_key() -> Seq<char> {
    seq!['a', 'r', 'c', 'h']
}

/// Key of the operating system's family.
pub open spec fn family_key() -> Seq<char> {
    seq!['f', 'a', 'm', 'i', 'l', 'y']
}

/// Name of the one command the front end may invoke.
pub fn system_info_command_name() -> (r: &'static str)
    ensures
        r@ == system_info_command(),
{
    proof {
        reveal_strlit("get_system_info");
    }
    assert("get_system_info"@ =~= system_info_command());
    "get_system_info"
}

/// The commands the front end may invoke.
#[derive(PartialEq, Eq, Structural, Clone, Copy, Debug)]
pub enum Command {
    /// `get_system_info`: no arguments, answers with a [`SystemInfo`].
    GetSystemInfo,
}

/// The names under which commands are registered.
pub open spec fn registered_commands() -> Seq<Seq<char>> {
    seq![system_info_command()]
}

/// The command that `name` invokes, if any.
pub open spec fn command_for(name: Seq<char>) -> Option<Command> {
    if name == system_info_command() {
        Some(Command::GetSystemInfo)
    } else {
        None
    }
}

/// The command registered under `name`, if any: `get_system_info` is the
/// only name that resolves.
pub fn resolve_command(name: &str) -> (r: Option<Command>)
    ensures
        r == command_for(name@),
{
    if same_text(name, system_info_command_name()) {
        Some(Command::GetSystemInfo)
    } else {
        None
    }
}

/// The names of the registered commands, each once.
pub fn command_names() -> (r: Vec<&'static str>)
    ensures
        r@.len() == registered_commands().len(),
        forall|i: int| 0 <= i < r@.len() ==> r@[i]@ == registered_commands()[i],
{
    vec![system_info_command_name()]
}

/// What the platform reports of itself: the operating system's name, the CPU
/// architecture and the operating system's family.
pub struct SystemInfo {
    pub os: String,
    pub arch: String,
    pub family: String,
}

impl View for SystemInfo {
    type V = (Seq<char>, Seq<char>, Seq<char>);

    open spec fn view(&self) -> (Seq<char>, Seq<char>, Seq<char>) {
        (self.os@, self.arch@, self.family@)
    }
}

/// The answer to `get_system_info` on a platform that identifies itself by
/// `os`, `arch` and `family`: those three strings, unchanged. The error
/// channel belongs to the command's calling convention; this query never
/// uses it.
pub fn get_system_info(os: &str, arch: &str, family: &str) -> (r: Result<SystemInfo, String>)
    ensures
        r matches Ok(i) && i@ == (os@, arch@, family@),
{
    Ok(SystemInfo { os: String::from_str(os), arch: String::from_str(arch), family: String::from_str(family) })
}

impl SystemInfo {
    /// The entries of the answer as `(key, value)` pairs, in the order
    /// `os`, `arch`, `family`.
    pub fn entries(&self) -> (r: Vec<(String, String)>)
        ensures
            r@.len() == 3,
            r@[0].0@ == os_key() && r@[0].1@ == self.os@,
            r@[1].0@ == arch_key() && r@[1].1@ == self.arch@,
            r@[2].0@ == family_key() && r@[2].1@ == self.family@,
    {
        proof {
            reveal_strlit("os");
            reveal_strlit("arch");
            reveal_strlit("family");
        }
        vec![
            (String::from_str("os"), self.os.clone()),
            (String::from_str("arch"), self.arch.clone()),
            (String::from_str("family"), self.family.clone()),
        ]
    }
}

/// A command name is invoked only if it is registered, and each registered
/// name invokes a command and stands once among the registered names.
pub proof fn lemma_commands_registered_once(name: Seq<char>)
    ensures
        command_for(name) is Some <==> registered_commands().contains(name),
        registered_commands().contains(name) ==> forall|i: int, j: int|
            0 <= i < j < registered_commands().len() ==> !(registered_commands()[i] == name
                && registered_commands()[j] == name),
{
    if registered_commands().contains(name) {
        assert(registered_commands()[0] == name);
    }
    if name == system_info_command() {
        assert(registered_commands()[0] == name);
    }
}

/// The query is deterministic: two answers on the same platform are equal,
/// and each reports the platform's identifiers, so each is non-empty where
/// they are.
pub proof fn lemma_system_info_deterministic(
    os: Seq<char>,
    arch: Seq<char>,
    family: Seq<char>,
    first: SystemInfo,
    second: SystemInfo,
)
    requires
        first@ == (os, arch, family),
        second@ == (os, arch, family),
    ensures
        first@ == second@,
        first.os@.len() == os.len() && first.arch@.len() == arch.len() && first.family@.len()
            == family.len(),
{
}

} // verus!
