use relision::{linux, macos, win32};

#[test]
fn os_names() {
    assert_eq!(linux::tos(), "linux");
    assert_eq!(macos::tos(), "macos");
    assert_eq!(win32::tos(), "win32");
}
