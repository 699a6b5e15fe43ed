use render_core::gl;
use render_core::gl::{ActiveVariable, GlReply, ReplyKind};

#[test]
fn shader_kind_codes_are_those_of_glow() {
    assert_eq!(gl::VERTEX_SHADER, glow::VERTEX_SHADER);
    assert_eq!(gl::FRAGMENT_SHADER, glow::FRAGMENT_SHADER);
    assert_eq!(gl::GEOMETRY_SHADER, glow::GEOMETRY_SHADER);
    assert_eq!(gl::TESS_CONTROL_SHADER, glow::TESS_CONTROL_SHADER);
    assert_eq!(gl::TESS_EVALUATION_SHADER, glow::TESS_EVALUATION_SHADER);
    assert_eq!(gl::COMPUTE_SHADER, glow::COMPUTE_SHADER);
}

#[test]
fn data_type_codes_are_those_of_glow() {
    assert_eq!(gl::INT, glow::INT);
    assert_eq!(gl::UNSIGNED_INT, glow::UNSIGNED_INT);
    assert_eq!(gl::FLOAT, glow::FLOAT);
    assert_eq!(gl::DOUBLE, glow::DOUBLE);
    assert_eq!(gl::FLOAT_VEC2, glow::FLOAT_VEC2);
    assert_eq!(gl::FLOAT_VEC3, glow::FLOAT_VEC3);
    assert_eq!(gl::FLOAT_VEC4, glow::FLOAT_VEC4);
    assert_eq!(gl::BOOL, glow::BOOL);
    assert_eq!(gl::FLOAT_MAT2, glow::FLOAT_MAT2);
    assert_eq!(gl::FLOAT_MAT3, glow::FLOAT_MAT3);
    assert_eq!(gl::FLOAT_MAT4, glow::FLOAT_MAT4);
}

#[test]
fn buffer_and_draw_codes_are_those_of_glow() {
    assert_eq!(gl::ARRAY_BUFFER, glow::ARRAY_BUFFER);
    assert_eq!(gl::ELEMENT_ARRAY_BUFFER, glow::ELEMENT_ARRAY_BUFFER);
    assert_eq!(gl::STATIC_DRAW, glow::STATIC_DRAW);
    assert_eq!(gl::TRIANGLES, glow::TRIANGLES);
    assert_eq!(gl::TRUE, glow::TRUE);
    assert_eq!(gl::FALSE, glow::FALSE);
}

#[test]
fn debug_codes_are_those_of_glow() {
    assert_eq!(gl::DEBUG_SOURCE_API, glow::DEBUG_SOURCE_API);
    assert_eq!(gl::DEBUG_SOURCE_WINDOW_SYSTEM, glow::DEBUG_SOURCE_WINDOW_SYSTEM);
    assert_eq!(gl::DEBUG_SOURCE_THIRD_PARTY, glow::DEBUG_SOURCE_THIRD_PARTY);
    assert_eq!(gl::DEBUG_SOURCE_APPLICATION, glow::DEBUG_SOURCE_APPLICATION);
    assert_eq!(gl::DEBUG_SOURCE_OTHER, glow::DEBUG_SOURCE_OTHER);
    assert_eq!(gl::DEBUG_TYPE_ERROR, glow::DEBUG_TYPE_ERROR);
    assert_eq!(gl::DEBUG_TYPE_DEPRECATED_BEHAVIOR, glow::DEBUG_TYPE_DEPRECATED_BEHAVIOR);
    assert_eq!(gl::DEBUG_TYPE_UNDEFINED_BEHAVIOR, glow::DEBUG_TYPE_UNDEFINED_BEHAVIOR);
    assert_eq!(gl::DEBUG_TYPE_PORTABILITY, glow::DEBUG_TYPE_PORTABILITY);
    assert_eq!(gl::DEBUG_TYPE_PERFORMANCE, glow::DEBUG_TYPE_PERFORMANCE);
    assert_eq!(gl::DEBUG_TYPE_OTHER, glow::DEBUG_TYPE_OTHER);
    assert_eq!(gl::DEBUG_TYPE_MARKER, glow::DEBUG_TYPE_MARKER);
    assert_eq!(gl::DEBUG_TYPE_PUSH_GROUP, glow::DEBUG_TYPE_PUSH_GROUP);
    assert_eq!(gl::DEBUG_TYPE_POP_GROUP, glow::DEBUG_TYPE_POP_GROUP);
    assert_eq!(gl::DEBUG_SEVERITY_HIGH, glow::DEBUG_SEVERITY_HIGH);
    assert_eq!(gl::DEBUG_SEVERITY_MEDIUM, glow::DEBUG_SEVERITY_MEDIUM);
    assert_eq!(gl::DEBUG_SEVERITY_LOW, glow::DEBUG_SEVERITY_LOW);
}

#[test]
fn context_parameter_codes_are_those_of_glow() {
    assert_eq!(gl::VENDOR, glow::VENDOR);
    assert_eq!(gl::RENDERER, glow::RENDERER);
    assert_eq!(gl::VERSION, glow::VERSION);
    assert_eq!(gl::EXTENSIONS, glow::EXTENSIONS);
    assert_eq!(gl::MAJOR_VERSION, glow::MAJOR_VERSION);
    assert_eq!(gl::MINOR_VERSION, glow::MINOR_VERSION);
    assert_eq!(gl::NUM_EXTENSIONS, glow::NUM_EXTENSIONS);
    assert_eq!(gl::SHADING_LANGUAGE_VERSION, glow::SHADING_LANGUAGE_VERSION);
}

#[test]
fn replies_know_their_kind() {
    assert_eq!(GlReply::Nothing.reply_kind(), ReplyKind::Nothing);
    assert_eq!(GlReply::Created(Ok(1)).reply_kind(), ReplyKind::Created);
    assert_eq!(GlReply::Created(Err("no".to_string())).reply_kind(), ReplyKind::Created);
    assert_eq!(GlReply::Status(false).reply_kind(), ReplyKind::Status);
    assert_eq!(GlReply::Text("log".to_string()).reply_kind(), ReplyKind::Text);
    assert_eq!(GlReply::Count(3).reply_kind(), ReplyKind::Count);
    assert_eq!(GlReply::Variable(None).reply_kind(), ReplyKind::Variable);
    assert_eq!(
        GlReply::Variable(Some(ActiveVariable { size: 1, kind: 0, name: "x".to_string() }))
            .reply_kind(),
        ReplyKind::Variable
    );
    assert_eq!(GlReply::Location(None).reply_kind(), ReplyKind::Location);
    assert_eq!(GlReply::Integer(-1).reply_kind(), ReplyKind::Integer);
}
