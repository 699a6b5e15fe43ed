use render_core::gl::{
    DEBUG_SEVERITY_HIGH, DEBUG_SEVERITY_LOW, DEBUG_SEVERITY_MEDIUM, DEBUG_SOURCE_API,
    DEBUG_SOURCE_APPLICATION, DEBUG_SOURCE_OTHER, DEBUG_SOURCE_THIRD_PARTY,
    DEBUG_SOURCE_WINDOW_SYSTEM, DEBUG_TYPE_DEPRECATED_BEHAVIOR, DEBUG_TYPE_ERROR,
    DEBUG_TYPE_MARKER, DEBUG_TYPE_OTHER, DEBUG_TYPE_PERFORMANCE, DEBUG_TYPE_POP_GROUP,
    DEBUG_TYPE_PORTABILITY, DEBUG_TYPE_PUSH_GROUP, DEBUG_TYPE_UNDEFINED_BEHAVIOR,
};
use render_core::logging::{gl_log_callback, LogLevel, LogRecord};
use render_core::text::decimal;

#[test]
fn driver_message_of_high_severity_is_an_error_line() {
    let record = gl_log_callback(
        DEBUG_SOURCE_API,
        DEBUG_TYPE_ERROR,
        1282,
        DEBUG_SEVERITY_HIGH,
        "GL_INVALID_OPERATION in glDrawElements",
    );
    assert_eq!(
        record,
        LogRecord {
            level: LogLevel::Error,
            text: "#1282 [GL_DEBUG_SOURCE_API] [GL_DEBUG_TYPE_ERROR] GL_INVALID_OPERATION in glDrawElements"
                .to_string(),
        }
    );
}

#[test]
fn driver_severity_maps_to_level() {
    let level = |severity: u32| gl_log_callback(0, 0, 0, severity, "").level;
    assert_eq!(level(DEBUG_SEVERITY_HIGH), LogLevel::Error);
    assert_eq!(level(DEBUG_SEVERITY_MEDIUM), LogLevel::Warn);
    assert_eq!(level(DEBUG_SEVERITY_LOW), LogLevel::Info);
    // Notifications, and anything else, are for debugging.
    assert_eq!(level(0x826B), LogLevel::Debug);
    assert_eq!(level(0), LogLevel::Debug);
    assert_eq!(level(u32::MAX), LogLevel::Debug);
}

#[test]
fn driver_sources_have_their_labels() {
    let label = |source: u32| gl_log_callback(source, DEBUG_TYPE_OTHER, 0, 0, "m").text;
    assert_eq!(label(DEBUG_SOURCE_API), "#0 [GL_DEBUG_SOURCE_API] [GL_DEBUG_TYPE_OTHER] m");
    assert_eq!(
        label(DEBUG_SOURCE_WINDOW_SYSTEM),
        "#0 [GL_DEBUG_SOURCE_WINDOW_SYSTEM] [GL_DEBUG_TYPE_OTHER] m"
    );
    assert_eq!(
        label(DEBUG_SOURCE_THIRD_PARTY),
        "#0 [GL_DEBUG_SOURCE_THIRD_PARTY] [GL_DEBUG_TYPE_OTHER] m"
    );
    assert_eq!(
        label(DEBUG_SOURCE_APPLICATION),
        "#0 [GL_DEBUG_SOURCE_APPLICATION] [GL_DEBUG_TYPE_OTHER] m"
    );
    assert_eq!(label(DEBUG_SOURCE_OTHER), "#0 [GL_DEBUG_SOURCE_OTHER] [GL_DEBUG_TYPE_OTHER] m");
    // The shader compiler has no label of its own.
    assert_eq!(label(0x8248), "#0 [UNKNOWN] [GL_DEBUG_TYPE_OTHER] m");
    assert_eq!(label(7), "#0 [UNKNOWN] [GL_DEBUG_TYPE_OTHER] m");
}

#[test]
fn driver_types_have_their_labels() {
    let label = |tp: u32| gl_log_callback(7, tp, 42, 0, "text").text;
    assert_eq!(label(DEBUG_TYPE_ERROR), "#42 [UNKNOWN] [GL_DEBUG_TYPE_ERROR] text");
    assert_eq!(
        label(DEBUG_TYPE_DEPRECATED_BEHAVIOR),
        "#42 [UNKNOWN] [GL_DEBUG_TYPE_DEPRECATED_BEHAVIOR] text"
    );
    assert_eq!(
        label(DEBUG_TYPE_UNDEFINED_BEHAVIOR),
        "#42 [UNKNOWN] [GL_DEBUG_TYPE_UNDEFINED_BEHAVIOR] text"
    );
    assert_eq!(label(DEBUG_TYPE_PORTABILITY), "#42 [UNKNOWN] [GL_DEBUG_TYPE_PORTABILITY] text");
    assert_eq!(label(DEBUG_TYPE_PERFORMANCE), "#42 [UNKNOWN] [GL_DEBUG_TYPE_PERFORMANCE] text");
    assert_eq!(label(DEBUG_TYPE_MARKER), "#42 [UNKNOWN] [GL_DEBUG_TYPE_MARKER] text");
    assert_eq!(label(DEBUG_TYPE_PUSH_GROUP), "#42 [UNKNOWN] [GL_DEBUG_TYPE_PUSH_GROUP] text");
    assert_eq!(label(DEBUG_TYPE_POP_GROUP), "#42 [UNKNOWN] [GL_DEBUG_TYPE_POP_GROUP] text");
    assert_eq!(label(DEBUG_TYPE_OTHER), "#42 [UNKNOWN] [GL_DEBUG_TYPE_OTHER] text");
    assert_eq!(label(1), "#42 [UNKNOWN] [UNKNOWN] text");
}

#[test]
fn driver_message_number_is_written_in_full() {
    let record = gl_log_callback(0, 0, u32::MAX, DEBUG_SEVERITY_LOW, "");
    assert_eq!(record.text, "#4294967295 [UNKNOWN] [UNKNOWN] ");
    assert_eq!(record.level, LogLevel::Info);
}

#[test]
fn decimal_writes_numbers_as_format_does() {
    for number in [0u64, 1, 9, 10, 11, 99, 100, 101, 1282, 65535, 4294967295, u64::MAX] {
        assert_eq!(decimal(number), format!("{}", number));
    }
}
