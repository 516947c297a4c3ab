use pane::skills::output::{OutputBuffer, SkillOutput};
use std::time::Duration;

#[test]
fn test_output_buffer_new_initializes_empty() {
    // Arrange & Act
    let buffer = OutputBuffer::new();

    // Assert
    assert!(buffer.is_empty());
    assert_eq!(buffer.len(), 0);
    assert!(!buffer.is_truncated());
}

#[test]
fn test_output_buffer_append_within_limit() {
    // Arrange
    let mut buffer = OutputBuffer::new();
    let data = b"Hello, world!";

    // Act
    buffer.append(data);

    // Assert
    assert_eq!(buffer.len(), data.len());
    assert!(!buffer.is_truncated());
    assert_eq!(buffer.to_string(), "Hello, world!");
}

#[test]
fn test_output_buffer_append_exceeds_limit_sets_truncated() {
    // Arrange
    let mut buffer = OutputBuffer::with_limit(10);
    let data = b"Hello, world! This is too long.";

    // Act
    buffer.append(data);

    // Assert
    assert_eq!(buffer.len(), 10); // Only first 10 bytes
    assert!(buffer.is_truncated());
    assert_eq!(buffer.to_string(), "Hello, wor");
}

#[test]
fn test_output_buffer_append_multiple_within_limit() {
    // Arrange
    let mut buffer = OutputBuffer::new();

    // Act
    buffer.append(b"Hello ");
    buffer.append(b"world");
    buffer.append(b"!");

    // Assert
    assert_eq!(buffer.len(), 12);
    assert!(!buffer.is_truncated());
    assert_eq!(buffer.to_string(), "Hello world!");
}

#[test]
fn test_output_buffer_append_multiple_exceeds_limit() {
    // Arrange
    let mut buffer = OutputBuffer::with_limit(10);

    // Act
    buffer.append(b"Hello"); // 5 bytes
    assert!(!buffer.is_truncated());

    buffer.append(b" world"); // +6 bytes = 11 total (exceeds limit)

    // Assert
    assert_eq!(buffer.len(), 10);
    assert!(buffer.is_truncated());
    assert_eq!(buffer.to_string(), "Hello worl");
}

#[test]
fn test_output_buffer_append_after_truncated_is_noop() {
    // Arrange
    let mut buffer = OutputBuffer::with_limit(5);
    buffer.append(b"Hello");
    buffer.append(b" world"); // Truncates
    assert!(buffer.is_truncated());

    // Act - try to append more after truncation
    buffer.append(b" more data");

    // Assert - should remain at limit
    assert_eq!(buffer.len(), 5);
    assert_eq!(buffer.to_string(), "Hello");
}

#[test]
fn test_output_buffer_to_string_converts_correctly() {
    // Arrange
    let mut buffer = OutputBuffer::new();
    buffer.append(b"Test output\n");
    buffer.append(b"Line 2\n");

    // Act
    let result = buffer.to_string();

    // Assert
    assert_eq!(result, "Test output\nLine 2\n");
}

#[test]
fn test_output_buffer_to_string_handles_invalid_utf8() {
    // Arrange
    let mut buffer = OutputBuffer::new();
    // Invalid UTF-8 sequence
    buffer.append(&[0xFF, 0xFE, 0xFD]);

    // Act
    let result = buffer.to_string();

    // Assert - should contain replacement characters, not panic
    assert!(!result.is_empty());
    assert!(result.contains('\u{FFFD}')); // Unicode replacement character
}

#[test]
fn test_skill_output_struct_creation() {
    // Arrange & Act
    let output = SkillOutput {
        stdout: "Output text".to_string(),
        stderr: "Error text".to_string(),
        exit_code: Some(0),
        truncated: false,
        execution_time: Duration::from_millis(123),
    };

    // Assert
    assert_eq!(output.stdout, "Output text");
    assert_eq!(output.stderr, "Error text");
    assert_eq!(output.exit_code, Some(0));
    assert!(!output.truncated);
    assert_eq!(output.execution_time, Duration::from_millis(123));
}

#[test]
fn test_skill_output_with_truncation() {
    // Arrange & Act
    let output = SkillOutput {
        stdout: "Truncated output".to_string(),
        stderr: String::new(),
        exit_code: Some(0),
        truncated: true,
        execution_time: Duration::from_secs(1),
    };

    // Assert
    assert!(output.truncated);
}

#[test]
fn test_skill_output_with_none_exit_code() {
    // Arrange & Act - process was killed/interrupted
    let output = SkillOutput {
        stdout: String::new(),
        stderr: "Process killed".to_string(),
        exit_code: None,
        truncated: false,
        execution_time: Duration::from_millis(50),
    };

    // Assert
    assert!(output.exit_code.is_none());
}
