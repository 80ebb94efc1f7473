use luauncher::platform::{system, Platform};

#[test]
fn system_names_the_three_platforms() {
    assert_eq!(system(Platform::Windows), "Windows");
    assert_eq!(system(Platform::MacOS), "MacOS");
    assert_eq!(system(Platform::Linux), "Linux");
}

#[test]
fn system_names_are_pairwise_different() {
    let all = [Platform::Windows, Platform::MacOS, Platform::Linux];
    for a in all {
        for b in all {
            assert_eq!(system(a) == system(b), a == b);
        }
    }
}
