use cvdtrader::errors::ExecutionError;

#[test]
fn test_retryable_errors() {
    let network_err = ExecutionError::Network {
        message: "connection refused".to_string(),
        retryable: true,
    };
    assert!(network_err.is_retryable());
    assert_eq!(network_err.retry_delay_secs(), Some(2));

    let validation_err = ExecutionError::Validation {
        message: "invalid size".to_string(),
    };
    assert!(!validation_err.is_retryable());
    assert_eq!(validation_err.retry_delay_secs(), None);

    let timeout_err = ExecutionError::Timeout {
        message: "request timed out".to_string(),
    };
    assert!(timeout_err.is_retryable());
    assert_eq!(timeout_err.retry_delay_secs(), Some(1));

    let rate_limited = ExecutionError::RateLimited {
        retry_after_secs: 30,
    };
    assert!(rate_limited.is_retryable());
    assert_eq!(rate_limited.retry_delay_secs(), Some(30));
}

#[test]
fn test_execution_errors() {
    // Test retryable errors
    let network_err = ExecutionError::Network {
        message: "connection refused".to_string(),
        retryable: true,
    };
    assert!(network_err.is_retryable());
    assert_eq!(network_err.retry_delay_secs(), Some(2));

    let timeout_err = ExecutionError::Timeout {
        message: "request timed out".to_string(),
    };
    assert!(timeout_err.is_retryable());
    assert_eq!(timeout_err.retry_delay_secs(), Some(1));

    let rate_limited = ExecutionError::RateLimited {
        retry_after_secs: 30,
    };
    assert!(rate_limited.is_retryable());
    assert_eq!(rate_limited.retry_delay_secs(), Some(30));

    // Test non-retryable errors
    let validation_err = ExecutionError::Validation {
        message: "invalid size".to_string(),
    };
    assert!(!validation_err.is_retryable());
    assert_eq!(validation_err.retry_delay_secs(), None);

    let insufficient_balance = ExecutionError::InsufficientBalance {
        required_bits: 1000.0f64.to_bits(),
        available_bits: 500.0f64.to_bits(),
    };
    assert!(!insufficient_balance.is_retryable());
}

#[test]
fn test_every_error_kind() {
    let non_retryable_network = ExecutionError::Network {
        message: "reset".to_string(),
        retryable: false,
    };
    assert!(!non_retryable_network.is_retryable());
    assert_eq!(non_retryable_network.retry_delay_secs(), None);

    let exchange_retry = ExecutionError::Exchange {
        code: 502,
        message: "bad gateway".to_string(),
        retryable: true,
    };
    assert!(exchange_retry.is_retryable());
    assert_eq!(exchange_retry.retry_delay_secs(), Some(5));

    let exchange_final = ExecutionError::Exchange {
        code: 400,
        message: "bad request".to_string(),
        retryable: false,
    };
    assert!(!exchange_final.is_retryable());
    assert_eq!(exchange_final.retry_delay_secs(), None);

    let others = [
        ExecutionError::InsufficientBalance {
            required_bits: 1000.0f64.to_bits(),
            available_bits: 500.0f64.to_bits(),
        },
        ExecutionError::Rejected {
            reason: "post-only would cross".to_string(),
        },
        ExecutionError::PositionNotFound {
            symbol: "BTC".to_string(),
        },
        ExecutionError::OrderNotFound {
            order_id: "abc".to_string(),
        },
    ];
    for err in others.iter() {
        assert!(!err.is_retryable());
        assert_eq!(err.retry_delay_secs(), None);
    }
    if let ExecutionError::InsufficientBalance {
        required_bits,
        available_bits,
    } = &others[0]
    {
        assert_eq!(f64::from_bits(*required_bits), 1000.0);
        assert_eq!(f64::from_bits(*available_bits), 500.0);
    } else {
        panic!("expected an insufficient balance error");
    }
}

#[test]
fn test_transport_classification() {
    match ExecutionError::from_transport(true, true, "operation timed out".to_string()) {
        ExecutionError::Timeout { message } => assert_eq!(message, "operation timed out"),
        other => panic!("unexpected {:?}", other),
    }
    match ExecutionError::from_transport(false, true, "connection refused".to_string()) {
        ExecutionError::Network { message, retryable } => {
            assert_eq!(message, "connection refused");
            assert!(retryable);
        }
        other => panic!("unexpected {:?}", other),
    }
    match ExecutionError::from_transport(false, false, "bad body".to_string()) {
        ExecutionError::Network { message, retryable } => {
            assert_eq!(message, "bad body");
            assert!(!retryable);
        }
        other => panic!("unexpected {:?}", other),
    }
}

#[test]
fn test_from_http_client_error() {
    let err = reqwest::Client::new()
        .get("not a url")
        .build()
        .expect_err("a relative URL cannot be requested");
    let converted = ExecutionError::from_reqwest(&err);
    match converted {
        ExecutionError::Network { message, retryable } => {
            assert_eq!(message, err.to_string());
            assert!(message.starts_with("builder error"));
            assert!(!retryable);
        }
        other => panic!("unexpected {:?}", other),
    }
    assert!(!ExecutionError::from_reqwest(&err).is_retryable());
}

#[test]
fn test_error_messages() {
    let network = ExecutionError::Network {
        message: "reset".to_string(),
        retryable: false,
    };
    assert_eq!(
        network.message(),
        Some("Network error: reset (retryable: false)".to_string())
    );
    let exchange = ExecutionError::Exchange {
        code: -3,
        message: "bad gateway".to_string(),
        retryable: true,
    };
    assert_eq!(
        exchange.message(),
        Some("Exchange error -3: bad gateway (retryable: true)".to_string())
    );
    let exchange_502 = ExecutionError::Exchange {
        code: 502,
        message: "upstream".to_string(),
        retryable: false,
    };
    assert_eq!(
        exchange_502.message(),
        Some("Exchange error 502: upstream (retryable: false)".to_string())
    );
    let limited = ExecutionError::RateLimited { retry_after_secs: 30 };
    assert_eq!(
        limited.message(),
        Some("Rate limited, retry after 30 seconds".to_string())
    );
    let timeout = ExecutionError::Timeout {
        message: "request timed out".to_string(),
    };
    assert_eq!(timeout.message(), Some("Timeout: request timed out".to_string()));
    let validation = ExecutionError::Validation {
        message: "invalid size".to_string(),
    };
    assert_eq!(
        validation.message(),
        Some("Validation error: invalid size".to_string())
    );
    let rejected = ExecutionError::Rejected {
        reason: "post-only".to_string(),
    };
    assert_eq!(rejected.message(), Some("Order rejected: post-only".to_string()));
    let missing_position = ExecutionError::PositionNotFound {
        symbol: "BTC".to_string(),
    };
    assert_eq!(
        missing_position.message(),
        Some("Position not found for symbol: BTC".to_string())
    );
    let missing_order = ExecutionError::OrderNotFound {
        order_id: "abc".to_string(),
    };
    assert_eq!(missing_order.message(), Some("Order not found: abc".to_string()));
    let balance = ExecutionError::InsufficientBalance {
        required_bits: 1000.0f64.to_bits(),
        available_bits: 500.0f64.to_bits(),
    };
    assert_eq!(balance.message(), None);
}
