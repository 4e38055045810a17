use meili::global::{flag_or_default, Global};

#[test]
fn flag_starts_off() {
    let global = Global::default();
    assert!(!global.get_scan_ips_in_background());
}

#[test]
fn flag_keeps_what_was_set() {
    let global = Global::default();
    global.set_scan_ips_in_background(true);
    assert!(global.get_scan_ips_in_background());
    global.set_scan_ips_in_background(false);
    assert!(!global.get_scan_ips_in_background());
}

#[test]
fn unreadable_flag_counts_as_off() {
    assert!(!flag_or_default(None));
    assert!(flag_or_default(Some(true)));
    assert!(!flag_or_default(Some(false)));
}
