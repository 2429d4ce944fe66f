use lw_telemetry::types::{fo_inode, fo_monitor_name};

#[test]
fn bindgen_test_layout_fo_inode() {
    assert_eq!(core::mem::size_of::<fo_inode>(), 16usize);
    assert_eq!(core::mem::align_of::<fo_inode>(), 8usize);
}

#[test]
fn bindgen_test_layout_fo_monitor_name() {
    assert_eq!(core::mem::size_of::<fo_monitor_name>(), 320usize);
    assert_eq!(core::mem::align_of::<fo_monitor_name>(), 1usize);
}
