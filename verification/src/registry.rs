//! The capability registry: the fixed set of named host operations that a
//! script can reach. A context is built anew for every run of a script and is
//! never changed afterwards; a script reaches the host through the names
//! bound in it and through nothing else.

use vstd::prelude::*;
use vstd::string::*;
use crate::platform::{system, system_name, Platform};
use crate::text::same_text;

verus! {

/// A host operation that scripts can reach.
#[derive(Clone, Copy, Debug, PartialEq, Eq, Structural)]
pub enum Capability {
    /// `openApp(command)`: launch a program.
    OpenApp,
    /// `closeApp(name)`: ask the processes of that name to end.
    CloseApp,
    /// `forceCloseApp(name)`: end the processes of that name.
    ForceCloseApp,
    /// `isAppOpen(name)`: is a process of that name running.
    IsAppOpen,
    /// `isWindowOpen(title)`: is a window of that title open.
    IsWindowOpen,
    /// `openURL(url)`: hand a URL to the system; `true` unless that fails.
    OpenUrl,
    /// `exit(code?)`: end the launcher, if the settings say so.
    Exit,
    /// `runCommand(cmd)`: run a shell command, if the settings allow it.
    RunCommand,
    /// `waitUntilWindowClose(title)`.
    WaitUntilWindowClose,
    /// `waitUntilAppClose(name)`.
    WaitUntilAppClose,
    /// `waitUntilWindowOpen(title, timeoutMs)`.
    WaitUntilWindowOpen,
    /// `waitUntilAppOpen(name, timeoutMs)`.
    WaitUntilAppOpen,
    /// `sleep(ms)`: suspend the script.
    Sleep,
    /// `messageBox(title, body)`: show a modal dialog.
    MessageBox,
    /// `system`: the name of the platform.
    System,
}

/// How a name is bound in the script's globals.
#[derive(Clone, Copy, Debug, PartialEq, Eq, Structural)]
pub enum BindingKind {
    /// A function that returns at once.
    Function,
    /// A function during which the script is suspended and the host goes on.
    AsyncFunction,
    /// A read-only value.
    Constant,
}

/// One name of a context and what it is bound to.
#[derive(Clone, Debug, PartialEq, Eq)]
pub struct Binding {
    pub name: String,
    pub capability: Capability,
    pub kind: BindingKind,
}

pub ghost struct BindingView {
    pub name: Seq<char>,
    pub capability: Capability,
    pub kind: BindingKind,
}

impl View for Binding {
    type V = BindingView;

    open spec fn view(&self) -> BindingView {
        BindingView { name: self.name@, capability: self.capability, kind: self.kind }
    }
}

/// The binding set of one script run.
#[derive(Debug, PartialEq, Eq)]
pub struct Context {
    bindings: Vec<Binding>,
    system: String,
}

pub ghost struct ContextView {
    pub bindings: Seq<BindingView>,
    /// The value of the `system` constant.
    pub system: Seq<char>,
}

impl Context {
    /// A context holds the fifteen bindings, each at its place.
    #[verifier::type_invariant]
    closed spec fn bound(&self) -> bool {
        &&& self.bindings@.len() == all_capabilities().len()
        &&& forall|i: int|
            0 <= i < self.bindings@.len() ==> (#[trigger] self.bindings@[i])@ == binding_of(
                all_capabilities()[i],
            )
    }
}

impl View for Context {
    type V = ContextView;

    closed spec fn view(&self) -> ContextView {
        ContextView {
            bindings: Seq::new(self.bindings@.len(), |i: int| self.bindings@[i]@),
            system: self.system@,
        }
    }
}

/// The name under which scripts reach a capability.
pub open spec fn capability_name(capability: Capability) -> Seq<char> {
    match capability {
        Capability::OpenApp => "openApp"@,
        Capability::CloseApp => "closeApp"@,
        Capability::ForceCloseApp => "forceCloseApp"@,
        Capability::IsAppOpen => "isAppOpen"@,
        Capability::IsWindowOpen => "isWindowOpen"@,
        Capability::OpenUrl => "openURL"@,
        Capability::Exit => "exit"@,
        Capability::RunCommand => "runCommand"@,
        Capability::WaitUntilWindowClose => "waitUntilWindowClose"@,
        Capability::WaitUntilAppClose => "waitUntilAppClose"@,
        Capability::WaitUntilWindowOpen => "waitUntilWindowOpen"@,
        Capability::WaitUntilAppOpen => "waitUntilAppOpen"@,
        Capability::Sleep => "sleep"@,
        Capability::MessageBox => "messageBox"@,
        Capability::System => "system"@,
    }
}

/// How a capability is bound: the waits and `sleep` suspend the script,
/// `system` is a value, the rest return at once.
pub open spec fn capability_kind(capability: Capability) -> BindingKind {
    match capability {
        Capability::WaitUntilWindowClose
        | Capability::WaitUntilAppClose
        | Capability::WaitUntilWindowOpen
        | Capability::WaitUntilAppOpen
        | Capability::Sleep => BindingKind::AsyncFunction,
        Capability::System => BindingKind::Constant,
        _ => BindingKind::Function,
    }
}

/// Every capability, once, in the order in which a context binds them.
pub open spec fn all_capabilities() -> Seq<Capability> {
    seq![
        Capability::OpenApp,
        Capability::CloseApp,
        Capability::ForceCloseApp,
        Capability::IsAppOpen,
        Capability::IsWindowOpen,
        Capability::OpenUrl,
        Capability::Exit,
        Capability::RunCommand,
        Capability::WaitUntilWindowClose,
        Capability::WaitUntilAppClose,
        Capability::WaitUntilWindowOpen,
        Capability::WaitUntilAppOpen,
        Capability::Sleep,
        Capability::MessageBox,
        Capability::System,
    ]
}

/// The place of a capability in `all_capabilities`.
pub open spec fn capability_index(capability: Capability) -> int {
    match capability {
        Capability::OpenApp => 0,
        Capability::CloseApp => 1,
        Capability::ForceCloseApp => 2,
        Capability::IsAppOpen => 3,
        Capability::IsWindowOpen => 4,
        Capability::OpenUrl => 5,
        Capability::Exit => 6,
        Capability::RunCommand => 7,
        Capability::WaitUntilWindowClose => 8,
        Capability::WaitUntilAppClose => 9,
        Capability::WaitUntilWindowOpen => 10,
        Capability::WaitUntilAppOpen => 11,
        Capability::Sleep => 12,
        Capability::MessageBox => 13,
        Capability::System => 14,
    }
}

/// The binding of one capability.
pub open spec fn binding_of(capability: Capability) -> BindingView {
    BindingView {
        name: capability_name(capability),
        capability,
        kind: capability_kind(capability),
    }
}

/// The bindings of every context: one for each capability, in order.
pub open spec fn fixed_bindings() -> Seq<BindingView> {
    Seq::new(all_capabilities().len(), |i: int| binding_of(all_capabilities()[i]))
}

/// What a context holds on `platform`: the fixed bindings and the platform's
/// name.
pub open spec fn context_of(platform: Platform) -> ContextView {
    ContextView { bindings: fixed_bindings(), system: system_name(platform) }
}

/// The capability that scripts reach under `name`, if there is one.
pub open spec fn capability_named(name: Seq<char>) -> Option<Capability> {
    if exists|c: Capability| capability_name(c) == name {
        Some(choose|c: Capability| capability_name(c) == name)
    } else {
        None
    }
}

impl Capability {
    /// The name under which scripts reach this capability.
    pub fn name(self) -> (name: &'static str)
        ensures
            name@ == capability_name(self),
    {
        match self {
            Capability::OpenApp => "openApp",
            Capability::CloseApp => "closeApp",
            Capability::ForceCloseApp => "forceCloseApp",
            Capability::IsAppOpen => "isAppOpen",
            Capability::IsWindowOpen => "isWindowOpen",
            Capability::OpenUrl => "openURL",
            Capability::Exit => "exit",
            Capability::RunCommand => "runCommand",
            Capability::WaitUntilWindowClose => "waitUntilWindowClose",
            Capability::WaitUntilAppClose => "waitUntilAppClose",
            Capability::WaitUntilWindowOpen => "waitUntilWindowOpen",
            Capability::WaitUntilAppOpen => "waitUntilAppOpen",
            Capability::Sleep => "sleep",
            Capability::MessageBox => "messageBox",
            Capability::System => "system",
        }
    }

    /// How this capability is bound.
    pub fn kind(self) -> (kind: BindingKind)
        ensures
            kind == capability_kind(self),
    {
        match self {
            Capability::WaitUntilWindowClose
            | Capability::WaitUntilAppClose
            | Capability::WaitUntilWindowOpen
            | Capability::WaitUntilAppOpen
            | Capability::Sleep => BindingKind::AsyncFunction,
            Capability::System => BindingKind::Constant,
            _ => BindingKind::Function,
        }
    }

    /// Every capability, once, in the order in which a context binds them.
    pub fn all() -> (all: Vec<Capability>)
        ensures
            all@ == all_capabilities(),
    {
        let all = vec![
            Capability::OpenApp,
            Capability::CloseApp,
            Capability::ForceCloseApp,
            Capability::IsAppOpen,
            Capability::IsWindowOpen,
            Capability::OpenUrl,
            Capability::Exit,
            Capability::RunCommand,
            Capability::WaitUntilWindowClose,
            Capability::WaitUntilAppClose,
            Capability::WaitUntilWindowOpen,
            Capability::WaitUntilAppOpen,
            Capability::Sleep,
            Capability::MessageBox,
            Capability::System,
        ];
        assert(all@ =~= all_capabilities());
        all
    }
}

/// Builds the binding set for one run of a script on `platform`.
pub fn create_context(platform: Platform) -> (context: Context)
    ensures
        context@ == context_of(platform),
{
    let all = Capability::all();
    let mut bindings: Vec<Binding> = Vec::new();
    let mut i: usize = 0;
    while i < all.len()
        invariant
            all@ == all_capabilities(),
            i <= all.len(),
            bindings@.len() == i,
            forall|k: int| 0 <= k < i ==> (#[trigger] bindings@[k])@ == binding_of(all@[k]),
        decreases all.len() - i,
    {
        let capability = all[i];
        bindings.push(
            Binding {
                name: String::from_str(capability.name()),
                capability,
                kind: capability.kind(),
            },
        );
        i += 1;
    }
    let context = Context { bindings, system: system(platform) };
    assert(context@.bindings =~= context_of(platform).bindings);
    context
}

impl Context {
    /// The bindings, in the order in which they were made. They are the
    /// same in every context.
    pub fn bindings(&self) -> (bindings: &Vec<Binding>)
        ensures
            self@.bindings == fixed_bindings(),
            bindings@.len() == fixed_bindings().len(),
            forall|i: int|
                0 <= i < bindings@.len() ==> (#[trigger] bindings@[i])@ == fixed_bindings()[i],
    {
        proof {
            use_type_invariant(self);
            assert(self@.bindings =~= fixed_bindings());
        }
        &self.bindings
    }

    /// The value of the `system` constant.
    pub fn system(&self) -> (name: &String)
        ensures
            name@ == self@.system,
    {
        &self.system
    }

    /// The capability bound under `name`; `None` for every name that no
    /// capability has.
    pub fn lookup(&self, name: &str) -> (found: Option<Capability>)
        ensures
            found == capability_named(name@),
    {
        proof {
            use_type_invariant(self);
        }
        let mut i: usize = 0;
        while i < self.bindings.len()
            invariant
                i <= self.bindings@.len(),
                self.bindings@.len() == all_capabilities().len(),
                forall|k: int|
                    0 <= k < self.bindings@.len() ==> (#[trigger] self.bindings@[k])@ == binding_of(
                        all_capabilities()[k],
                    ),
                forall|k: int| 0 <= k < i ==> capability_name(#[trigger] all_capabilities()[k]) != name@,
            decreases self.bindings@.len() - i,
        {
            assert(self.bindings@[i as int]@ == binding_of(all_capabilities()[i as int]));
            if same_text(self.bindings[i].name.as_str(), name) {
                let found = self.bindings[i].capability;
                proof {
                    capability_names_differ(found, capability_named(name@)->0);
                }
                return Some(found);
            }
            i += 1;
        }
        proof {
            assert forall|c: Capability| capability_name(c) != name@ by {
                every_capability_is_bound(c);
                assert(capability_name(all_capabilities()[capability_index(c)]) != name@);
            }
        }
        None
    }
}

/// Every capability stands in `all_capabilities`, at its index and nowhere
/// else: a context binds each of the fifteen exactly once.
pub proof fn every_capability_is_bound(capability: Capability)
    ensures
        all_capabilities().len() == 15,
        0 <= capability_index(capability) < 15,
        all_capabilities()[capability_index(capability)] == capability,
        forall|i: int|
            0 <= i < 15 && all_capabilities()[i] == capability ==> i == capability_index(
                capability,
            ),
{
}

/// No two capabilities share a name, so a name of a context stands for one
/// host operation.
pub proof fn capability_names_differ(a: Capability, b: Capability)
    ensures
        capability_name(a) == capability_name(b) <==> a == b,
{
    reveal_strlit("openApp");
    reveal_strlit("closeApp");
    reveal_strlit("forceCloseApp");
    reveal_strlit("isAppOpen");
    reveal_strlit("isWindowOpen");
    reveal_strlit("openURL");
    reveal_strlit("exit");
    reveal_strlit("runCommand");
    reveal_strlit("waitUntilWindowClose");
    reveal_strlit("waitUntilAppClose");
    reveal_strlit("waitUntilWindowOpen");
    reveal_strlit("waitUntilAppOpen");
    reveal_strlit("sleep");
    reveal_strlit("messageBox");
    reveal_strlit("system");
    assert("openApp"@.len() == 7 && "openApp"@[4] == 'A');
    assert("closeApp"@.len() == 8);
    assert("forceCloseApp"@.len() == 13);
    assert("isAppOpen"@.len() == 9);
    assert("isWindowOpen"@.len() == 12);
    assert("openURL"@.len() == 7 && "openURL"@[4] == 'U');
    assert("exit"@.len() == 4);
    assert("runCommand"@.len() == 10 && "runCommand"@[0] == 'r');
    assert("waitUntilWindowClose"@.len() == 20);
    assert("waitUntilAppClose"@.len() == 17);
    assert("waitUntilWindowOpen"@.len() == 19);
    assert("waitUntilAppOpen"@.len() == 16);
    assert("sleep"@.len() == 5);
    assert("messageBox"@.len() == 10 && "messageBox"@[0] == 'm');
    assert("system"@.len() == 6);
}

} // verus!
