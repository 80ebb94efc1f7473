//! The three systems the launcher runs on.

use vstd::prelude::*;
use vstd::string::*;

verus! {

/// The system a build of the launcher is made for. The program around the
/// library picks one value at startup and hands it to every function that
/// plans an operation.
#[derive(Clone, Copy, Debug, PartialEq, Eq, Structural)]
pub enum Platform {
    Windows,
    MacOS,
    Linux,
}

/// The name under which scripts see a platform.
pub open spec fn system_name(platform: Platform) -> Seq<char> {
    match platform {
        Platform::Windows => "Windows"@,
        Platform::MacOS => "MacOS"@,
        Platform::Linux => "Linux"@,
    }
}

/// The value of the read-only `system` constant that scripts see.
pub fn system(platform: Platform) -> (name: String)
    ensures
        name@ == system_name(platform),
{
    match platform {
        Platform::Windows => String::from_str("Windows"),
        Platform::MacOS => String::from_str("MacOS"),
        Platform::Linux => String::from_str("Linux"),
    }
}

/// The `system` constant is one of `"Windows"`, `"MacOS"` and `"Linux"`, and
/// it tells the platforms apart: two platforms have the same name only if
/// they are the same platform.
pub proof fn system_names_differ(a: Platform, b: Platform)
    ensures
        system_name(a) == "Windows"@ || system_name(a) == "MacOS"@ || system_name(a) == "Linux"@,
        system_name(a) == system_name(b) <==> a == b,
{
    reveal_strlit("Windows");
    reveal_strlit("MacOS");
    reveal_strlit("Linux");
    assert("Windows"@.len() == 7);
    assert("MacOS"@[0] == 'M');
    assert("Linux"@[0] == 'L');
    assert("MacOS"@.len() == 5);
    assert("Linux"@.len() == 5);
}

} // verus!
