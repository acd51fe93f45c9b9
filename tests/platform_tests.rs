use terminal_snake::platform::{contains_microsoft, Platform};

#[test]
fn kernel_version_naming_microsoft_means_wsl() {
    let version = "Linux version 5.15.90.1-Microsoft-standard-WSL2";
    assert!(Platform::from_kernel_version(Some(version)).is_wsl());
    assert!(!Platform::from_kernel_version(Some("Linux version 6.1.0-generic")).is_wsl());
    assert!(!Platform::from_kernel_version(None).is_wsl());
}

#[test]
fn microsoft_match_ignores_case() {
    assert!(contains_microsoft("MICROSOFT"));
    assert!(contains_microsoft("xxmicrosoftxx"));
    assert!(!contains_microsoft("micro soft"));
}
