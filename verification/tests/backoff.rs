use control_plane::backoff::{
    backoff_delay_with_hash, calculate_exponential_backoff_delay, capped_backoff_delay,
    jitter_seed, MCP_MAX_RESTART_DELAY_MS, MCP_MIN_RESTART_DELAY_MS,
};

#[test]
fn capped_delay_doubles_until_the_cap() {
    assert_eq!(capped_backoff_delay(1), 1000);
    assert_eq!(capped_backoff_delay(2), 2000);
    assert_eq!(capped_backoff_delay(3), 4000);
    assert_eq!(capped_backoff_delay(4), 8000);
    assert_eq!(capped_backoff_delay(5), 16000);
    assert_eq!(capped_backoff_delay(6), 30000);
    assert_eq!(capped_backoff_delay(7), 30000);
    assert_eq!(capped_backoff_delay(u32::MAX), 30000);
}

#[test]
fn jitter_is_taken_from_the_hash() {
    // window of attempt 1 is 250 either way: 750 + hash % 500
    assert_eq!(backoff_delay_with_hash(1, 0), 750);
    assert_eq!(backoff_delay_with_hash(1, 499), 1249);
    assert_eq!(backoff_delay_with_hash(1, 500), 750);
    assert_eq!(backoff_delay_with_hash(3, 1262), 4262);
    // above the cap the jittered value is cut back to it
    assert_eq!(backoff_delay_with_hash(6, 14999), 30000);
    assert_eq!(backoff_delay_with_hash(6, 0), 22500);
    assert_eq!(backoff_delay_with_hash(6, u64::MAX), 22500 + (u64::MAX % 15000));
}

#[test]
fn jitter_seed_is_the_standard_hash_of_the_attempt() {
    assert_eq!(jitter_seed(1), 1742378985846435984);
    assert_eq!(jitter_seed(2), 16336925911988107921);
    assert_ne!(jitter_seed(1), 1);
}

#[test]
fn delays_of_the_first_attempts() {
    assert_eq!(calculate_exponential_backoff_delay(1), 1234);
    assert_eq!(calculate_exponential_backoff_delay(2), 2421);
    assert_eq!(calculate_exponential_backoff_delay(3), 4262);
    assert_eq!(calculate_exponential_backoff_delay(4), 9492);
    assert_eq!(calculate_exponential_backoff_delay(5), 13967);
    assert_eq!(calculate_exponential_backoff_delay(6), 23279);
    assert_eq!(calculate_exponential_backoff_delay(7), 30000);
}

#[test]
fn delay_stays_between_floor_and_cap() {
    let mut attempt: u32 = 1;
    while attempt <= 64 {
        let delay = calculate_exponential_backoff_delay(attempt);
        assert!(delay >= MCP_MIN_RESTART_DELAY_MS);
        assert!(delay <= MCP_MAX_RESTART_DELAY_MS);
        attempt += 1;
    }
    let last = calculate_exponential_backoff_delay(u32::MAX);
    assert!(last >= 22500 && last <= 30000);
}

#[test]
fn delay_is_the_same_on_every_call() {
    let mut attempt: u32 = 1;
    while attempt <= 16 {
        let first = calculate_exponential_backoff_delay(attempt);
        let second = calculate_exponential_backoff_delay(attempt);
        assert_eq!(first, second);
        attempt += 1;
    }
}
