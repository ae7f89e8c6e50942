use std::time::{Duration, Instant};
use tunnel_manager::error::{TunnelError, UiError};

#[test]
fn test_error_creation_performance() {
    let start = Instant::now();

    // Create 1000 errors to test performance
    for i in 0..1000 {
        let _error = TunnelError::InvalidDeviceId {
            device_id: format!("device-{}", i),
        };
    }

    let duration = start.elapsed();
    // Should complete in less than 1ms for 1000 error creations
    assert!(duration < Duration::from_millis(1));
}

#[test]
fn test_error_conversion_performance() {
    let start = Instant::now();

    // Test error conversion performance
    for i in 0..1000 {
        let tunnel_error = TunnelError::AwsAuth {
            message: format!("Auth failed for attempt {}", i),
        };
        let _ui_error: UiError = tunnel_error.into();
    }

    let duration = start.elapsed();
    // Should complete in less than 2ms for 1000 conversions
    assert!(duration < Duration::from_millis(2));
}

#[test]
fn test_error_display_performance() {
    let start = Instant::now();

    // Test error display formatting performance
    for i in 0..1000 {
        let error = TunnelError::TunnelNotFound {
            device_id: format!("device-{}", i),
        };
        let _display_string = error.message();
    }

    let duration = start.elapsed();
    // Should complete in less than 5ms for 1000 display operations
    assert!(duration < Duration::from_millis(5));
}

#[test]
fn test_ui_error_message_retrieval_performance() {
    let errors = vec![
        UiError::EmptyDeviceId,
        UiError::AuthenticationRequired,
        UiError::ConnectionFailed {
            message: "Network timeout".to_string(),
        },
        UiError::DisconnectionFailed {
            message: "Process not found".to_string(),
        },
        UiError::Unknown,
    ];

    let start = Instant::now();

    // Test UI error message retrieval performance
    for _ in 0..1000 {
        for error in &errors {
            let _message = error.user_message();
            let _should_retry = error.should_retry();
        }
    }

    let duration = start.elapsed();
    // Should complete in less than 2ms for 5000 operations (1000 iterations * 5 errors)
    assert!(duration < Duration::from_millis(2));
}

#[test]
fn test_large_error_message_handling() {
    // Test with very large error messages
    let large_message = "A".repeat(10000);
    let error = TunnelError::connection(&large_message);

    assert_eq!(error.message(), format!("Connection failed: {}", large_message));
}

#[test]
fn test_nested_error_conversions() {
    // Test multiple levels of error conversions
    let io_error = std::io::Error::new(std::io::ErrorKind::NotFound, "File not found");
    let tunnel_error: TunnelError = io_error.into();
    let ui_error: UiError = tunnel_error.into();

    assert!(matches!(ui_error, UiError::ConnectionFailed { .. }));
}
