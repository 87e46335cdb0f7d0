use task_tracker::pool::PoolConfig;

#[test]
fn the_standard_pool_shape_is_fixed() {
    let c = PoolConfig::standard();
    assert_eq!(c.max_size, 5);
    assert_eq!(c.min_idle, 1);
    assert_eq!(c.connection_timeout_secs, 60);
    assert_eq!(c.idle_timeout_secs, 300);
    assert_eq!(c.max_lifetime_secs, 1800);
    assert!(c.test_on_check_out);
}
