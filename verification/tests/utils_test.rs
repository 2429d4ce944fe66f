use lw_telemetry::utils::convert_dev_t;

#[test]
fn test_superbloc_dev_t() {
    assert_eq!(convert_dev_t(65025), 266338305);
}
