use vstd::prelude::*;

verus! {

/// The greeting that the handler returns for `name`: the name is placed
/// verbatim between a fixed prefix and a fixed suffix.
pub open spec fn greeting(name: Seq<char>) -> Seq<char> {
    "Hello, "@ + name + "! You've been greeted from Rust!"@
}

/// Returns `"Hello, {name}! You've been greeted from Rust!"`, with `name`
/// inserted as it is (no escaping, no further substitution).
pub fn greet(name: &str) -> (r: String)
    ensures
        r@ == greeting(name@),
{
    let mut r = String::from_str("Hello, ");
    r.append(name);
    r.append("! You've been greeted from Rust!");
    r
}

/// The name under which the front end invokes the handler.
pub open spec fn greet_command() -> Seq<char> {
    "greet"@
}

/// Whether `command` names the greeting handler.
pub fn is_greet_command(command: &str) -> (r: bool)
    ensures
        r == (command@ == greet_command()),
{
    String::from_str(command) == String::from_str("greet")
}

} // verus!
