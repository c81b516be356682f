use fuzzer::{evaluate_execution, BitmapFeedback, CoverageFeedbackState, ExitKind, FuzzError, Verdict};

const MAP_SIZE: usize = 16;

fn map_with(bytes: &[(usize, u8)]) -> Vec<u8> {
    let mut map = vec![0u8; MAP_SIZE];
    for (i, b) in bytes {
        map[*i] = *b;
    }
    map
}

#[test]
fn new_state_has_nothing_seen() {
    let state = CoverageFeedbackState::new("coverage", MAP_SIZE * 8);
    assert_eq!(state.get_all_time_count(), 0);
    assert_eq!(state.capacity(), MAP_SIZE * 8);
    assert_eq!(state.name, "coverage");
    assert_eq!(state.is_path_interesting(&[0, 5, 127]), Ok(true));
}

#[test]
fn empty_path_is_not_interesting() {
    let state = CoverageFeedbackState::new("coverage", 8);
    assert_eq!(state.is_path_interesting(&[]), Ok(false));
}

#[test]
fn mark_path_counts_new_edges() {
    let mut state = CoverageFeedbackState::new("coverage", MAP_SIZE * 8);
    assert_eq!(state.mark_path(&[0, 47]), Ok(()));
    assert_eq!(state.get_all_time_count(), 2);
    assert_eq!(state.is_path_interesting(&[0, 47]), Ok(false));
    assert_eq!(state.is_path_interesting(&[0, 48]), Ok(true));
    assert_eq!(state.mark_path(&[47, 48, 48]), Ok(()));
    assert_eq!(state.get_all_time_count(), 3);
}

#[test]
fn mark_path_twice_is_mark_path_once() {
    let mut once = CoverageFeedbackState::new("coverage", 64);
    let mut twice = CoverageFeedbackState::new("coverage", 64);
    let path = [1usize, 7, 7, 63];
    once.mark_path(&path).unwrap();
    twice.mark_path(&path).unwrap();
    twice.mark_path(&path).unwrap();
    assert_eq!(once.get_all_time_count(), 3);
    assert_eq!(twice.get_all_time_count(), once.get_all_time_count());
    for e in 0..64 {
        assert_eq!(once.is_path_interesting(&[e]), twice.is_path_interesting(&[e]));
    }
}

#[test]
fn edge_out_of_range_is_an_error() {
    let mut state = CoverageFeedbackState::new("coverage", 8);
    assert_eq!(state.is_path_interesting(&[1, 8]), Err(FuzzError::EdgeOutOfRange { edge: 8, capacity: 8 }));
    assert_eq!(state.mark_path(&[1, 9]), Err(FuzzError::EdgeOutOfRange { edge: 9, capacity: 8 }));
    assert_eq!(state.get_all_time_count(), 0);
    assert_eq!(state.is_path_interesting(&[1]), Ok(true));
}

#[test]
fn new_edge_acceptance() {
    let mut state = CoverageFeedbackState::new("coverage", MAP_SIZE * 8);
    let mut feedback = BitmapFeedback::new("coverage");
    let map = map_with(&[(0, 0x01), (5, 0x80)]);
    assert_eq!(feedback.is_interesting(&state, &map), Ok(true));
    assert_eq!(feedback.current_coverage(), &vec![0, 47]);
    let list = feedback.append_metadata(&mut state).unwrap();
    assert_eq!(list, vec![0, 47]);
    assert_eq!(state.get_all_time_count(), 2);
    assert_eq!(state.is_path_interesting(&[0]), Ok(false));
    assert_eq!(state.is_path_interesting(&[47]), Ok(false));
    assert!(feedback.current_coverage().is_empty());
}

#[test]
fn same_bitmap_stays_interesting_until_appended() {
    let state = CoverageFeedbackState::new("coverage", MAP_SIZE * 8);
    let mut feedback = BitmapFeedback::new("coverage");
    let map = map_with(&[(2, 0x10)]);
    assert_eq!(feedback.is_interesting(&state, &map), Ok(true));
    assert_eq!(feedback.is_interesting(&state, &map), Ok(true));
    assert_eq!(feedback.current_coverage(), &vec![20]);
}

#[test]
fn discard_forgets_current_coverage() {
    let state = CoverageFeedbackState::new("coverage", MAP_SIZE * 8);
    let mut feedback = BitmapFeedback::new_with_names("coverage", "crash_state", "crash_feedback");
    assert_eq!(feedback.name(), "crash_feedback");
    assert_eq!(feedback.observer_name(), "coverage");
    assert_eq!(feedback.feedback_state_name(), "crash_state");
    let map = map_with(&[(1, 0x03)]);
    feedback.is_interesting(&state, &map).unwrap();
    assert_eq!(feedback.current_path_hash(), fuzzer::path_hash(&[8, 9]));
    feedback.discard_metadata();
    assert!(feedback.current_coverage().is_empty());
}

#[test]
fn bitmap_past_state_capacity_is_an_error() {
    let state = CoverageFeedbackState::new("coverage", 8);
    let mut feedback = BitmapFeedback::new("coverage");
    let map = vec![0u8, 0x01];
    assert_eq!(feedback.is_interesting(&state, &map), Err(FuzzError::EdgeOutOfRange { edge: 8, capacity: 8 }));
}

struct Fuzz {
    queue_feedback: BitmapFeedback,
    queue_state: CoverageFeedbackState,
    crash_feedback: BitmapFeedback,
    crash_state: CoverageFeedbackState,
}

impl Fuzz {
    fn new() -> Self {
        Fuzz {
            queue_feedback: BitmapFeedback::new("coverage"),
            queue_state: CoverageFeedbackState::new("coverage", MAP_SIZE * 8),
            crash_feedback: BitmapFeedback::new_with_names("coverage", "crash_coverage", "crash_bitmap"),
            crash_state: CoverageFeedbackState::new("crash_coverage", MAP_SIZE * 8),
        }
    }

    fn run(&mut self, exit_kind: ExitKind, map: &[u8]) -> Result<Verdict, FuzzError> {
        evaluate_execution(
            exit_kind,
            map,
            &mut self.queue_feedback,
            &mut self.queue_state,
            &mut self.crash_feedback,
            &mut self.crash_state,
        )
    }
}

#[test]
fn clean_run_without_coverage_is_discarded() {
    let mut fuzz = Fuzz::new();
    let map = vec![0u8; MAP_SIZE];
    assert!(matches!(fuzz.run(ExitKind::Clean, &map), Ok(Verdict::Discarded)));
    assert_eq!(fuzz.queue_state.get_all_time_count(), 0);
}

#[test]
fn clean_run_with_new_edges_enters_queue() {
    let mut fuzz = Fuzz::new();
    let map = map_with(&[(0, 0x01), (5, 0x80)]);
    match fuzz.run(ExitKind::Clean, &map) {
        Ok(Verdict::Corpus(list)) => assert_eq!(list, vec![0, 47]),
        other => panic!("unexpected {:?}", other),
    }
    assert_eq!(fuzz.queue_state.get_all_time_count(), 2);
    assert_eq!(fuzz.crash_state.get_all_time_count(), 0);
    assert!(matches!(fuzz.run(ExitKind::Clean, &map), Ok(Verdict::Discarded)));
}

#[test]
fn crash_dedup() {
    let mut fuzz = Fuzz::new();
    let map = map_with(&[(0, 0x08)]);
    match fuzz.run(ExitKind::Crash, &map) {
        Ok(Verdict::Solution(list)) => assert_eq!(list, vec![3]),
        other => panic!("unexpected {:?}", other),
    }
    assert_eq!(fuzz.crash_state.get_all_time_count(), 1);
    assert!(matches!(fuzz.run(ExitKind::Crash, &map), Ok(Verdict::Discarded)));
    assert_eq!(fuzz.crash_state.get_all_time_count(), 1);
    assert_eq!(fuzz.queue_state.get_all_time_count(), 0);
}

#[test]
fn crash_on_queued_path_is_still_a_new_solution() {
    let mut fuzz = Fuzz::new();
    let map = map_with(&[(0, 0x08)]);
    assert!(matches!(fuzz.run(ExitKind::Clean, &map), Ok(Verdict::Corpus(_))));
    assert!(matches!(fuzz.run(ExitKind::Crash, &map), Ok(Verdict::Solution(_))));
}

#[test]
fn crash_on_known_crash_path_with_new_queue_edge_is_discarded() {
    let mut fuzz = Fuzz::new();
    let map = map_with(&[(0, 0x08)]);
    assert!(matches!(fuzz.run(ExitKind::Crash, &map), Ok(Verdict::Solution(_))));
    assert!(matches!(fuzz.run(ExitKind::Crash, &map), Ok(Verdict::Discarded)));
    assert_eq!(fuzz.queue_state.get_all_time_count(), 0);
}

#[test]
fn evaluation_rejects_edges_past_capacity() {
    let mut fuzz = Fuzz::new();
    let mut map = vec![0u8; MAP_SIZE + 1];
    map[MAP_SIZE] = 1;
    assert_eq!(
        fuzz.run(ExitKind::Clean, &map).err(),
        Some(FuzzError::EdgeOutOfRange { edge: MAP_SIZE * 8, capacity: MAP_SIZE * 8 })
    );
    assert_eq!(
        fuzz.run(ExitKind::Crash, &map).err(),
        Some(FuzzError::EdgeOutOfRange { edge: MAP_SIZE * 8, capacity: MAP_SIZE * 8 })
    );
}

#[test]
fn check_if_seen_and_mark_reports_earlier_sightings() {
    let mut state = CoverageFeedbackState::new("coverage", 16);
    assert_eq!(state.check_if_seen_and_mark(3), Ok(false));
    assert_eq!(state.get_all_time_count(), 1);
    assert_eq!(state.check_if_seen_and_mark(3), Ok(true));
    assert_eq!(state.get_all_time_count(), 1);
    assert_eq!(state.check_if_seen_and_mark(16), Err(FuzzError::EdgeOutOfRange { edge: 16, capacity: 16 }));
    assert_eq!(state.get_all_time_count(), 1);
}

#[test]
fn solution_needs_a_crash() {
    let state = CoverageFeedbackState::new("crash_coverage", MAP_SIZE * 8);
    let mut feedback = BitmapFeedback::new("coverage");
    let map = map_with(&[(0, 0x08)]);
    assert_eq!(fuzzer::is_solution(ExitKind::Clean, &mut feedback, &state, &map), Ok(false));
    assert!(feedback.current_coverage().is_empty());
    assert_eq!(fuzzer::is_solution(ExitKind::Crash, &mut feedback, &state, &map), Ok(true));
    assert_eq!(feedback.current_coverage(), &vec![3]);
}

#[test]
fn queue_needs_a_clean_run() {
    let state = CoverageFeedbackState::new("coverage", MAP_SIZE * 8);
    let mut feedback = BitmapFeedback::new("coverage");
    let map = map_with(&[(1, 0x01)]);
    assert_eq!(fuzzer::is_corpus_candidate(ExitKind::Crash, &mut feedback, &state, &map), Ok(false));
    assert!(feedback.current_coverage().is_empty());
    assert_eq!(fuzzer::is_corpus_candidate(ExitKind::Clean, &mut feedback, &state, &map), Ok(true));
    assert_eq!(feedback.current_coverage(), &vec![8]);
}
