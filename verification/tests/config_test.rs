use job_pool::PoolConfig;

#[test]
fn blocking_under() {
    let config = PoolConfig::builder().n_workers(10_u16).max_jobs(5_u16).build();
    match config.validate() {
        Ok(_) => panic!("Expected Err value"),
        Err(err) => assert_eq!(
            "Max number of jobs (5) is lower than the number of workers (10)",
            err.to_string()
        ),
    }
}

#[test]
fn size_0() {
    let config = PoolConfig::builder().n_workers(0_u16).build();
    match config.validate() {
        Ok(_) => panic!("Expected Err value"),
        Err(err) => assert_eq!("Invalid pool size: 0", err.to_string()),
    }
}

#[test]
fn default_config_is_valid() {
    let config = PoolConfig::default();
    assert_eq!(config.n_workers, 16);
    assert!(config.max_jobs.is_none());
    assert!(config.incoming_buf_size.is_none());
    assert!(config.validate().is_ok());
}

#[test]
fn builder_defaults_match_default() {
    let built = PoolConfig::builder().build();
    let config = PoolConfig::default();
    assert_eq!(built.n_workers, config.n_workers);
    assert_eq!(built.max_jobs, config.max_jobs);
    assert_eq!(built.incoming_buf_size, config.incoming_buf_size);
}

#[test]
fn builder_sets_every_field() {
    let config = PoolConfig::builder()
        .n_workers(4_u16)
        .max_jobs(8_u16)
        .incoming_buf_size(2_u16)
        .build();
    assert_eq!(config.n_workers, 4);
    assert_eq!(config.max_jobs, Some(8));
    assert_eq!(config.incoming_buf_size, Some(2));
    assert!(config.validate().is_ok());
}

#[test]
fn builder_in_place_setters() {
    let mut builder = PoolConfig::builder();
    builder.set_n_workers(3_u16);
    builder.set_max_jobs(9_u16);
    builder.set_incoming_buf_size(1_u16);
    let config = builder.build();
    assert_eq!(config.n_workers, 3);
    assert_eq!(config.max_jobs, Some(9));
    assert_eq!(config.incoming_buf_size, Some(1));
}

#[test]
fn cap_equal_to_workers_is_legal() {
    let config = PoolConfig::builder().n_workers(4_u16).max_jobs(4_u16).build();
    assert!(config.validate().is_ok());
}

#[test]
fn rejection_message_renders_multi_digit_values() {
    let config = PoolConfig::builder().n_workers(100_u16).max_jobs(99_u16).build();
    let err = config.validate().unwrap_err();
    assert_eq!(
        "Max number of jobs (99) is lower than the number of workers (100)",
        err
    );
}
