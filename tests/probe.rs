use podmod::probe::is_enabled_report;
use podmod::probe::is_module_listed;
use podmod::probe::probe_text;

const LSMOD: &str = "Module                  Size  Used by\n\
v4l2loopback           45056  0\n\
snd_hda_intel          57344  3\n\
videodev              352256  1 v4l2loopback\n";

#[test]
fn listed_module_is_loaded() {
    assert!(is_module_listed(LSMOD, "v4l2loopback"));
    assert!(is_module_listed(LSMOD, "videodev"));
}

#[test]
fn only_whole_first_fields_count() {
    // A prefix of a name, and a name in the "Used by" column.
    assert!(!is_module_listed(LSMOD, "v4l2"));
    assert!(!is_module_listed(LSMOD, "snd_hda"));
    assert!(!is_module_listed(LSMOD, "loopback"));
    assert!(!is_module_listed(LSMOD, ""));
    assert!(!is_module_listed("", "videodev"));
}

#[test]
fn last_line_without_newline() {
    assert!(is_module_listed("Module Size Used by\nzfs", "zfs"));
}

#[test]
fn secure_boot_state_reports() {
    assert!(is_enabled_report("SecureBoot enabled\n"));
    assert!(!is_enabled_report("SecureBoot disabled\n"));
    assert!(!is_enabled_report("EFI variables are not supported on this system\n"));
    assert!(!is_enabled_report(""));
}

#[test]
fn header_line_is_no_module() {
    assert!(!is_module_listed(LSMOD, "Module"));
    assert!(!is_module_listed("Module Size Used by\n", "Module"));
    assert!(is_module_listed("Module Size Used by\nModule 1 0\n", "Module"));
}

#[test]
fn probe_text_drops_surrounding_white_space() {
    assert_eq!(probe_text("6.1.0-13-amd64\n"), "6.1.0-13-amd64");
    assert_eq!(probe_text("  x86_64 \t\r\n"), "x86_64");
    assert_eq!(probe_text("a b"), "a b");
    assert_eq!(probe_text("\u{a0}\u{3000}"), "");
    assert_eq!(probe_text(""), "");
}
