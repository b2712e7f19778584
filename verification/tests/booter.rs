use rinux::booter::{Args, Profile};

#[test]
fn profile_names() {
    assert_eq!(Profile::Release.as_profile(), "release");
    assert_eq!(Profile::Dev.as_profile(), "dev");
}

#[test]
fn profile_dirs() {
    assert_eq!(Profile::Release.as_path(), "release");
    assert_eq!(Profile::Dev.as_path(), "debug");
}

#[test]
fn args_hold_flags() {
    let a = Args { bios: true, no_screen: false };
    assert!(a.bios);
    assert!(!a.no_screen);
}
