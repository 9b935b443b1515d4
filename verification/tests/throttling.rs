use osc_cost::throttle::{
    is_throttled, random_wait, settle, ApiError, Reply, Settled, THROTTLING_MAX_WAIT_MS,
    THROTTLING_MIN_WAIT_MS,
};

fn failed(status: Option<u16>) -> Reply<u8, String> {
    Err(ApiError { status, error: "refused".to_string() })
}

#[test]
fn two_statuses_mean_throttled() {
    assert!(is_throttled(&failed(Some(503))));
    assert!(is_throttled(&failed(Some(429))));
    for status in [200, 400, 401, 404, 428, 430, 500, 502, 504] {
        assert!(!is_throttled(&failed(Some(status))));
    }
    assert!(!is_throttled(&failed(None)));
    assert!(!is_throttled::<u8, String>(&Ok(1)));
}

#[test]
fn a_pause_takes_one_to_ten_seconds() {
    assert_eq!(THROTTLING_MIN_WAIT_MS, 1000);
    assert_eq!(THROTTLING_MAX_WAIT_MS, 10000);
    let mut rng = rand::thread_rng();
    let pauses: Vec<u64> = (0..1000).map(|_| random_wait(&mut rng)).collect();
    assert!(pauses.iter().all(|ms| (1000..10000).contains(ms)));
    assert!(pauses.iter().any(|ms| *ms != pauses[0]));
}

#[test]
fn an_answer_goes_on() {
    let mut rng = rand::thread_rng();
    assert_eq!(settle::<u8, String>(&mut rng, Ok(7)), Ok(Settled::Answer(7)));
}

#[test]
fn a_throttled_call_is_sent_again() {
    let mut rng = rand::thread_rng();
    match settle(&mut rng, failed(Some(429))) {
        Ok(Settled::Retry(ms)) => assert!((1000..10000).contains(&ms)),
        _ => panic!("a throttled call is sent again"),
    }
}

#[test]
fn any_other_failure_is_final() {
    let mut rng = rand::thread_rng();
    assert_eq!(settle(&mut rng, failed(Some(500))), Err("refused".to_string()));
    assert_eq!(settle(&mut rng, failed(None)), Err("refused".to_string()));
}
