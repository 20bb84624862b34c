use job_pool::capi;

#[test]
fn negative_sentinels_mean_absent() {
    let raw = capi::PoolConfig { n_workers: 16, max_jobs: -1, incoming_buf_size: -1 };
    let config = raw.convert();
    assert_eq!(config.n_workers, 16);
    assert!(config.max_jobs.is_none());
    assert!(config.incoming_buf_size.is_none());
    assert!(config.validate().is_ok());
}

#[test]
fn zero_sentinel_means_absent() {
    let raw = capi::PoolConfig { n_workers: 8, max_jobs: 0, incoming_buf_size: 0 };
    let config = raw.convert();
    assert!(config.max_jobs.is_none());
    assert!(config.incoming_buf_size.is_none());
}

#[test]
fn positive_fields_are_kept() {
    let raw = capi::PoolConfig { n_workers: 4, max_jobs: 32, incoming_buf_size: 2 };
    let config = raw.convert();
    assert_eq!(config.n_workers, 4);
    assert_eq!(config.max_jobs, Some(32));
    assert_eq!(config.incoming_buf_size, Some(2));
}

#[test]
fn oversized_fields_keep_their_low_sixteen_bits() {
    let raw = capi::PoolConfig { n_workers: 1, max_jobs: 70000, incoming_buf_size: 65536 };
    let config = raw.convert();
    assert_eq!(config.max_jobs, Some(4464));
    assert_eq!(config.incoming_buf_size, Some(0));
}
