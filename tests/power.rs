use fuzzer::{FuzzError, PowerMutationalStage, Testcase};

fn testcase(exec_time: Option<u64>, edges: Option<Vec<usize>>) -> Testcase {
    let mut t = Testcase::new(vec![0x41]);
    if let Some(ns) = exec_time {
        t.set_exec_time(ns);
    }
    if let Some(e) = edges {
        t.add_edges(e);
    }
    t
}

fn edges(n: usize) -> Vec<usize> {
    (0..n).collect()
}

#[test]
fn power_schedule() {
    let mut stage = PowerMutationalStage::new();
    let corpus = vec![testcase(Some(1_000_000), Some(edges(10)))];
    stage.init_avg_stats(&corpus).unwrap();
    assert_eq!(stage.avg_map_size(), 10);
    assert_eq!(stage.avg_exec_time(), 1_000_000);
    stage.end_perform();
    assert_eq!(stage.fuzz_level(), 2);
    let case = testcase(Some(100_000), Some(edges(30)));
    assert_eq!(stage.iterations(&case), Ok(24));
}

#[test]
fn zero_exec_time_uses_neutral_score() {
    let mut stage = PowerMutationalStage::new();
    let corpus = vec![testcase(Some(0), Some(edges(10)))];
    stage.init_avg_stats(&corpus).unwrap();
    assert_eq!(stage.avg_exec_time(), 0);
    // 100 * 2^1 / 100 with a neutral edge factor.
    assert_eq!(stage.iterations(&testcase(Some(5_000), Some(edges(10)))), Ok(2));
    assert_eq!(stage.iterations(&testcase(Some(0), Some(edges(10)))), Ok(2));
}

#[test]
fn zero_own_exec_time_uses_neutral_score() {
    let mut stage = PowerMutationalStage::new();
    stage.init_avg_stats(&vec![testcase(Some(1_000), Some(edges(10)))]).unwrap();
    assert_eq!(stage.iterations(&testcase(Some(0), Some(edges(10)))), Ok(2));
}

#[test]
fn slow_testcase_gets_fewer_rounds() {
    let mut stage = PowerMutationalStage::new();
    stage.init_avg_stats(&vec![testcase(Some(1_000), Some(edges(10)))]).unwrap();
    for _ in 0..5 {
        stage.end_perform();
    }
    assert_eq!(stage.fuzz_level(), 6);
    // 10 * 64 / 100 = 6
    assert_eq!(stage.iterations(&testcase(Some(20_000), Some(edges(10)))), Ok(6));
    // 25 * 64 / 100 = 16
    assert_eq!(stage.iterations(&testcase(Some(5_000), Some(edges(10)))), Ok(16));
    // 50 * 64 / 100 = 32
    assert_eq!(stage.iterations(&testcase(Some(3_000), Some(edges(10)))), Ok(32));
    // 75 * 64 / 100 = 48
    assert_eq!(stage.iterations(&testcase(Some(1_500), Some(edges(10)))), Ok(48));
    // 100 * 64 / 100 = 64
    assert_eq!(stage.iterations(&testcase(Some(1_000), Some(edges(10)))), Ok(64));
    // 150 * 64 / 100 = 96
    assert_eq!(stage.iterations(&testcase(Some(450), Some(edges(10)))), Ok(96));
    // 200 * 64 / 100 = 128
    assert_eq!(stage.iterations(&testcase(Some(300), Some(edges(10)))), Ok(128));
    // 300 * 64 / 100 = 192
    assert_eq!(stage.iterations(&testcase(Some(200), Some(edges(10)))), Ok(192));
}

#[test]
fn edge_count_scales_the_score() {
    let mut stage = PowerMutationalStage::new();
    stage.init_avg_stats(&vec![testcase(Some(1_000), Some(edges(12)))]).unwrap();
    let rounds = |n: usize| stage.iterations(&testcase(Some(1_000), Some(edges(n))));
    // x3: 300 * 2 / 100
    assert_eq!(rounds(41), Ok(6));
    // x2
    assert_eq!(rounds(25), Ok(4));
    // x1.5
    assert_eq!(rounds(17), Ok(3));
    // x1
    assert_eq!(rounds(12), Ok(2));
    // x0.75: 75 * 2 / 100 = 1
    assert_eq!(rounds(7), Ok(1));
    // x0.5: clamped to 1
    assert_eq!(rounds(5), Ok(1));
    // x0.25: clamped to 1
    assert_eq!(rounds(3), Ok(1));
}

#[test]
fn visited_paths_get_fewer_rounds() {
    let mut stage = PowerMutationalStage::new();
    stage.init_avg_stats(&vec![testcase(Some(1_000), Some(edges(10)))]).unwrap();
    for _ in 0..9 {
        stage.end_perform();
    }
    let case = testcase(Some(1_000), Some(edges(10)));
    // 100 * 1024 / 100
    assert_eq!(stage.iterations(&case), Ok(1024));
    let h = stage.hash_testcase(&edges(10));
    assert_eq!(stage.get_paths(h), 1);
    stage.mark_path(&case).unwrap();
    assert_eq!(stage.get_paths(h), 1);
    stage.mark_path(&case).unwrap();
    stage.mark_path(&case).unwrap();
    stage.mark_path(&case).unwrap();
    assert_eq!(stage.get_paths(h), 4);
    assert_eq!(stage.iterations(&case), Ok(256));
}

#[test]
fn huge_fuzz_level_saturates() {
    let mut stage = PowerMutationalStage::new();
    stage.init_avg_stats(&vec![testcase(Some(1_000), Some(edges(10)))]).unwrap();
    for _ in 0..80 {
        stage.end_perform();
    }
    assert_eq!(stage.iterations(&testcase(Some(1_000), Some(edges(10)))), Ok(u64::MAX));
}

#[test]
fn missing_metadata_is_an_error() {
    let mut stage = PowerMutationalStage::new();
    let case = testcase(Some(1_000), None);
    assert_eq!(stage.iterations(&case), Err(FuzzError::MissingMetadata));
    assert_eq!(stage.mark_path(&case), Err(FuzzError::MissingMetadata));
}

#[test]
fn averages_need_a_measured_corpus() {
    let mut stage = PowerMutationalStage::new();
    assert_eq!(stage.init_avg_stats(&Vec::new()), Err(FuzzError::EmptyCorpus));
    let corpus = vec![testcase(Some(1), Some(edges(1))), testcase(None, Some(edges(1)))];
    assert_eq!(stage.init_avg_stats(&corpus), Err(FuzzError::MissingExecTime { index: 1 }));
    let corpus = vec![testcase(Some(1), None)];
    assert_eq!(stage.init_avg_stats(&corpus), Err(FuzzError::MissingMetadata));
    assert!(stage.needs_init());
}

#[test]
fn averages_are_integer_means() {
    let mut stage = PowerMutationalStage::new();
    let corpus = vec![
        testcase(Some(1_000), Some(edges(3))),
        testcase(Some(2_001), Some(edges(4))),
        testcase(Some(3_000), Some(edges(6))),
    ];
    stage.init_avg_stats(&corpus).unwrap();
    assert_eq!(stage.avg_exec_time(), 2_000);
    assert_eq!(stage.avg_map_size(), 4);
    assert!(!stage.needs_init());
}

#[test]
fn begin_perform_computes_averages_once() {
    let mut stage = PowerMutationalStage::new();
    let corpus = vec![testcase(Some(1_000_000), Some(edges(10))), testcase(Some(1_000_000), Some(edges(10)))];
    assert_eq!(stage.begin_perform(&corpus, 1), Ok(2));
    assert_eq!(stage.avg_map_size(), 10);
    let bigger = vec![testcase(Some(1), Some(edges(100)))];
    assert_eq!(stage.begin_perform(&bigger, 0), Ok(18));
    assert_eq!(stage.avg_map_size(), 10);
    assert_eq!(stage.begin_perform(&bigger, 3), Err(FuzzError::NoSuchTestcase { index: 3 }));
}

#[test]
fn unmeasured_testcase_keeps_base_score() {
    let mut stage = PowerMutationalStage::new();
    stage.init_avg_stats(&vec![testcase(Some(1_000), Some(edges(10)))]).unwrap();
    assert_eq!(stage.iterations(&testcase(None, Some(edges(10)))), Ok(2));
}
