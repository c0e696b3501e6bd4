use sbt_probe::results::CLOSEST_HIT_SENTINEL;
use sbt_probe::results::CLOSEST_HIT_SLOT;
use sbt_probe::results::INTERSECTION_SENTINEL;
use sbt_probe::results::INTERSECTION_SLOT;
use sbt_probe::results::ResultError;
use sbt_probe::results::check_results;
use sbt_probe::results::evaluate_results;
use sbt_probe::results::first_data_mismatch;

fn good_results() -> Vec<u32> {
    let mut v: Vec<u32> = (0..16).collect();
    v.push(CLOSEST_HIT_SENTINEL); // word 16
    v.push(INTERSECTION_SENTINEL); // word 17
    v.extend(std::iter::repeat(0).take(232));
    v
}

#[test]
fn sentinel_values_match_the_shaders() {
    assert_eq!(INTERSECTION_SENTINEL, 12777);
    assert_eq!(CLOSEST_HIT_SENTINEL, 120000);
    assert_eq!(CLOSEST_HIT_SLOT, 16);
    assert_eq!(INTERSECTION_SLOT, 17);
}

#[test]
fn good_buffer_passes_every_check() {
    let v = good_results();
    assert_eq!(check_results(&v), Ok(()));
    let verdict = evaluate_results(&v);
    assert!(verdict.data_ok);
    assert!(verdict.intersection_ran);
    assert!(verdict.closest_hit_ran);
}

#[test]
fn corrupted_data_word_is_reported_first() {
    let mut v = good_results();
    v[5] = 99;
    assert_eq!(check_results(&v), Err(ResultError::DataMismatch { index: 5 }));
    assert_eq!(first_data_mismatch(&v), Some(5));
    let verdict = evaluate_results(&v);
    assert!(!verdict.data_ok);
    assert!(verdict.intersection_ran);
    assert!(verdict.closest_hit_ran);
}

#[test]
fn earliest_corrupted_word_wins() {
    let mut v = good_results();
    v[3] = 7;
    v[12] = 8;
    assert_eq!(check_results(&v), Err(ResultError::DataMismatch { index: 3 }));
}

#[test]
fn missing_intersection_sentinel_is_reported() {
    let mut v = good_results();
    v[INTERSECTION_SLOT] = 0;
    assert_eq!(check_results(&v), Err(ResultError::IntersectionMissed));
    let verdict = evaluate_results(&v);
    assert!(verdict.data_ok);
    assert!(!verdict.intersection_ran);
    assert!(verdict.closest_hit_ran);
}

#[test]
fn missing_closest_hit_sentinel_is_reported() {
    let mut v = good_results();
    v[CLOSEST_HIT_SLOT] = 0;
    assert_eq!(check_results(&v), Err(ResultError::ClosestHitMissed));
    let verdict = evaluate_results(&v);
    assert!(verdict.data_ok);
    assert!(verdict.intersection_ran);
    assert!(!verdict.closest_hit_ran);
}

#[test]
fn data_mismatch_outranks_missing_sentinels() {
    let mut v = good_results();
    v[0] = 42;
    v[INTERSECTION_SLOT] = 0;
    v[CLOSEST_HIT_SLOT] = 0;
    assert_eq!(check_results(&v), Err(ResultError::DataMismatch { index: 0 }));
}

#[test]
fn short_buffer_is_rejected() {
    let v: Vec<u32> = (0..17).collect();
    assert_eq!(check_results(&v), Err(ResultError::TooFewWords));
    assert_eq!(check_results(&Vec::new()), Err(ResultError::TooFewWords));
}

#[test]
fn untouched_buffer_fails_as_no_shader_ran() {
    let v: Vec<u32> = vec![0; 250];
    // Word 0 holds 0 as expected, word 1 does not hold 1.
    assert_eq!(check_results(&v), Err(ResultError::DataMismatch { index: 1 }));
}
