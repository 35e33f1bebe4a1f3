use cvdtrader::circuit_breaker::{CircuitBreaker, CircuitBreakerState};

#[test]
fn test_circuit_breaker_normal() {
    let breaker = CircuitBreaker::new(500, 3);

    assert!(!breaker.is_tripped());
    assert_eq!(breaker.state(), CircuitBreakerState::Normal);
}

#[test]
fn test_circuit_breaker_high_latency() {
    let mut breaker = CircuitBreaker::new(500, 3);

    // The call that trips the breaker asks for the shutdown signal.
    assert!(breaker.record_latency(600));
    assert!(breaker.is_tripped());
    assert_eq!(breaker.last_latency(), Some(600));
}

#[test]
fn test_circuit_breaker_consecutive_failures() {
    let mut breaker = CircuitBreaker::new(500, 3);

    assert!(!breaker.record_failure());
    assert!(!breaker.is_tripped());

    assert!(!breaker.record_failure());
    assert!(!breaker.is_tripped());

    assert!(breaker.record_failure());
    assert!(breaker.is_tripped());
}

#[test]
fn circuit_breaker_test_circuit_breaker_reset() {
    let mut breaker = CircuitBreaker::new(500, 3);

    breaker.record_failure();
    breaker.record_failure();
    breaker.record_failure();
    assert!(breaker.is_tripped());

    breaker.reset();
    assert!(!breaker.is_tripped());
    assert_eq!(breaker.failure_count(), 0);
}

#[test]
fn test_circuit_breaker_success_resets_failures() {
    let mut breaker = CircuitBreaker::new(500, 3);

    breaker.record_failure();
    breaker.record_failure();
    assert_eq!(breaker.failure_count(), 2);

    breaker.record_success();
    assert_eq!(breaker.failure_count(), 0);
}

#[test]
fn test_circuit_breaker_trip() {
    let mut breaker = CircuitBreaker::new(500, 3);

    assert!(!breaker.record_failure());
    assert!(!breaker.is_tripped());
    assert!(!breaker.record_failure());
    assert!(!breaker.is_tripped());
    let signal = breaker.record_failure();
    assert!(breaker.is_tripped());
    // Verify the shutdown signal is asked for.
    assert!(signal);
}

#[test]
fn failure_modes_test_test_circuit_breaker_reset() {
    let mut breaker = CircuitBreaker::new(500, 3);

    breaker.record_failure();
    breaker.record_failure();

    // Record success - should reset failure count
    breaker.record_success();

    // Need 3 more failures to trip
    breaker.record_failure();
    breaker.record_failure();
    assert!(!breaker.is_tripped());

    breaker.record_failure();
    assert!(breaker.is_tripped());
}

#[test]
fn test_circuit_breaker_latency() {
    let mut breaker = CircuitBreaker::new(100, 3);

    let signal = breaker.record_latency(150);
    assert!(breaker.is_tripped());
    assert!(signal);
}

#[test]
fn test_breaker_signals_once() {
    let mut breaker = CircuitBreaker::new(100, 1);
    assert!(!breaker.record_latency(100));
    assert!(!breaker.is_tripped());
    assert!(breaker.record_latency(101));
    assert!(!breaker.record_latency(500));
    assert!(!breaker.record_failure());
    assert!(breaker.is_tripped());
    assert_eq!(breaker.last_latency(), Some(500));
    assert_eq!(breaker.failure_count(), 1);
    assert_eq!(breaker.max_latency_ms(), 100);
    assert_eq!(breaker.max_failures(), 1);

    breaker.reset();
    assert_eq!(breaker.state(), CircuitBreakerState::Normal);
    assert_eq!(breaker.last_latency(), Some(500));
    assert!(breaker.record_failure());
}

#[test]
fn test_breaker_zero_failure_limit() {
    let mut breaker = CircuitBreaker::new(500, 0);
    assert!(!breaker.is_tripped());
    assert!(breaker.record_failure());
    assert!(breaker.is_tripped());
}
