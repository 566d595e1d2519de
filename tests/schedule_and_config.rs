use newton_rows::config::{Config, ConfigError, MAX_RESOLUTION};
use newton_rows::schedule::worker_rows;

#[test]
fn strided_rows_of_each_worker() {
    assert_eq!(worker_rows(0, 2, 4), vec![0, 2]);
    assert_eq!(worker_rows(1, 2, 4), vec![1, 3]);
    assert_eq!(worker_rows(2, 3, 10), vec![2, 5, 8]);
    assert_eq!(worker_rows(0, 1, 3), vec![0, 1, 2]);
}

#[test]
fn more_workers_than_rows() {
    assert_eq!(worker_rows(0, 4, 2), vec![0]);
    assert_eq!(worker_rows(1, 4, 2), vec![1]);
    assert!(worker_rows(2, 4, 2).is_empty());
    assert!(worker_rows(3, 4, 2).is_empty());
}

#[test]
fn partition_covers_every_row_once() {
    for workers in 1..9usize {
        for resolution in 0..30usize {
            let mut seen = vec![0usize; resolution];
            for t in 0..workers {
                for r in worker_rows(t, workers, resolution) {
                    assert!(r < resolution);
                    assert_eq!(r % workers, t);
                    seen[r] += 1;
                }
            }
            assert!(seen.iter().all(|&n| n == 1));
        }
    }
}

#[test]
fn config_accepts_supported_degrees() {
    for d in [1usize, 2, 5, 7] {
        let c = Config::new(d, 4, 2).unwrap();
        assert_eq!(c.degree, d);
        assert_eq!(c.resolution, 4);
        assert_eq!(c.threads, 2);
    }
}

#[test]
fn config_errors() {
    assert_eq!(Config::new(3, 4, 2), Err(ConfigError::UnsupportedDegree));
    assert_eq!(Config::new(0, 0, 0), Err(ConfigError::UnsupportedDegree));
    assert_eq!(Config::new(5, 0, 2), Err(ConfigError::ZeroResolution));
    assert_eq!(Config::new(5, MAX_RESOLUTION + 1, 2), Err(ConfigError::ResolutionTooLarge));
    assert_eq!(Config::new(7, 10, 0), Err(ConfigError::ZeroThreads));
    assert!(Config::new(7, MAX_RESOLUTION, 1).is_ok());
}
