use luauncher::platform::Platform;
use luauncher::registry::{create_context, Binding, BindingKind, Capability};

const NAMES: [&str; 15] = [
    "openApp",
    "closeApp",
    "forceCloseApp",
    "isAppOpen",
    "isWindowOpen",
    "openURL",
    "exit",
    "runCommand",
    "waitUntilWindowClose",
    "waitUntilAppClose",
    "waitUntilWindowOpen",
    "waitUntilAppOpen",
    "sleep",
    "messageBox",
    "system",
];

#[test]
fn a_context_binds_the_fifteen_names_in_order() {
    let context = create_context(Platform::Linux);
    let names: Vec<&str> = context.bindings().iter().map(|b| b.name.as_str()).collect();
    assert_eq!(names, NAMES);
}

#[test]
fn every_binding_is_that_of_its_capability() {
    let context = create_context(Platform::Windows);
    let all = Capability::all();
    assert_eq!(all.len(), 15);
    assert_eq!(context.bindings().len(), 15);
    for (binding, capability) in context.bindings().iter().zip(all) {
        assert_eq!(
            *binding,
            Binding {
                name: capability.name().to_string(),
                capability,
                kind: capability.kind()
            }
        );
    }
}

#[test]
fn waits_and_sleep_suspend_the_script() {
    for capability in Capability::all() {
        let expected = match capability {
            Capability::WaitUntilWindowClose
            | Capability::WaitUntilAppClose
            | Capability::WaitUntilWindowOpen
            | Capability::WaitUntilAppOpen
            | Capability::Sleep => BindingKind::AsyncFunction,
            Capability::System => BindingKind::Constant,
            _ => BindingKind::Function,
        };
        assert_eq!(capability.kind(), expected);
    }
}

#[test]
fn lookup_finds_each_capability_under_its_name() {
    let context = create_context(Platform::MacOS);
    for capability in Capability::all() {
        assert_eq!(context.lookup(capability.name()), Some(capability));
    }
    assert_eq!(context.lookup("openURL"), Some(Capability::OpenUrl));
    assert_eq!(context.lookup("waitUntilAppOpen"), Some(Capability::WaitUntilAppOpen));
}

#[test]
fn lookup_finds_nothing_under_any_other_name() {
    let context = create_context(Platform::Linux);
    for name in ["", "openurl", "OpenApp", "exit ", "os", "io", "require", "waitUntilAppOpened"] {
        assert_eq!(context.lookup(name), None, "{name:?}");
    }
}

#[test]
fn the_system_constant_names_the_platform() {
    assert_eq!(create_context(Platform::Windows).system(), "Windows");
    assert_eq!(create_context(Platform::MacOS).system(), "MacOS");
    assert_eq!(create_context(Platform::Linux).system(), "Linux");
}

#[test]
fn two_contexts_share_nothing_but_their_content() {
    let first = create_context(Platform::Linux);
    let second = create_context(Platform::Linux);
    assert_eq!(first, second);
    assert!(!std::ptr::eq(first.bindings(), second.bindings()));
}
