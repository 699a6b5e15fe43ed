use render_core::error::Error;
use render_core::gl::{
    GlCall, GlReply, ReplyKind, EXTENSIONS, MAJOR_VERSION, MINOR_VERSION, NUM_EXTENSIONS,
    RENDERER, SHADING_LANGUAGE_VERSION, VENDOR, VERSION,
};
use render_core::metadata::{GlVersion, MetadataQuery, OpenGlMetadata};

fn metadata_with_version(major: i32, minor: i32, extensions: &[&str]) -> OpenGlMetadata {
    let mut query = MetadataQuery::new();
    query.resume(GlReply::Integer(extensions.len() as i32));
    for name in extensions {
        query.resume(GlReply::Text(name.to_string()));
    }
    query.resume(GlReply::Text("Mesa Intel(R) UHD Graphics".to_string()));
    query.resume(GlReply::Text("4.6 (Core Profile) Mesa 22.0.1".to_string()));
    query.resume(GlReply::Text("Intel".to_string()));
    query.resume(GlReply::Text("4.60".to_string()));
    query.resume(GlReply::Integer(major));
    query.resume(GlReply::Integer(minor));
    assert!(query.is_finished());
    query.finish()
}

#[test]
fn metadata_is_asked_for_in_order() {
    let mut query = MetadataQuery::new();
    assert!(!query.is_finished());
    assert_eq!(query.awaits(), ReplyKind::Integer);
    assert_eq!(query.pending(), vec![GlCall::GetParameterI32 { parameter: NUM_EXTENSIONS }]);
    query.resume(GlReply::Integer(2));
    assert_eq!(query.awaits(), ReplyKind::Text);
    assert_eq!(
        query.pending(),
        vec![GlCall::GetParameterIndexedString { parameter: EXTENSIONS, index: 0 }]
    );
    query.resume(GlReply::Text("GL_ARB_one".to_string()));
    assert_eq!(
        query.pending(),
        vec![GlCall::GetParameterIndexedString { parameter: EXTENSIONS, index: 1 }]
    );
    query.resume(GlReply::Text("GL_ARB_two".to_string()));
    assert_eq!(query.pending(), vec![GlCall::GetParameterString { parameter: RENDERER }]);
    query.resume(GlReply::Text("renderer".to_string()));
    assert_eq!(query.pending(), vec![GlCall::GetParameterString { parameter: VERSION }]);
    query.resume(GlReply::Text("version".to_string()));
    assert_eq!(query.pending(), vec![GlCall::GetParameterString { parameter: VENDOR }]);
    query.resume(GlReply::Text("vendor".to_string()));
    assert_eq!(
        query.pending(),
        vec![GlCall::GetParameterString { parameter: SHADING_LANGUAGE_VERSION }]
    );
    query.resume(GlReply::Text("glsl".to_string()));
    assert_eq!(query.awaits(), ReplyKind::Integer);
    assert_eq!(query.pending(), vec![GlCall::GetParameterI32 { parameter: MAJOR_VERSION }]);
    query.resume(GlReply::Integer(4));
    assert_eq!(query.pending(), vec![GlCall::GetParameterI32 { parameter: MINOR_VERSION }]);
    query.resume(GlReply::Integer(6));
    assert!(query.is_finished());
    assert_eq!(query.awaits(), ReplyKind::Nothing);
    assert_eq!(query.pending(), vec![]);
    let metadata = query.finish();
    assert_eq!(metadata.version(), GlVersion { major: 4, minor: 6, patch: 0 });
    assert_eq!(metadata.extension_count(), 2);
    assert!(metadata.has_extension("GL_ARB_one"));
    assert!(metadata.has_extension("GL_ARB_two"));
    assert!(!metadata.has_extension("GL_ARB_three"));
    assert_eq!(
        metadata.summary(),
        "[OpenGL] Version: version\n[OpenGL] Vendor: vendor\n[OpenGL] Renderer: renderer\n[OpenGL] GLSL Version: glsl\n[OpenGL] 2 extension(s) supported"
    );
}

#[test]
fn metadata_without_extensions_goes_on_to_the_strings() {
    let mut query = MetadataQuery::new();
    query.resume(GlReply::Integer(0));
    assert_eq!(query.pending(), vec![GlCall::GetParameterString { parameter: RENDERER }]);
}

#[test]
fn metadata_counts_an_extension_once() {
    let metadata = metadata_with_version(4, 3, &["GL_a", "GL_b", "GL_a", "GL_c", "GL_b"]);
    assert_eq!(metadata.extension_count(), 3);
    assert!(metadata.has_extension("GL_a"));
    assert!(metadata.has_extension("GL_b"));
    assert!(metadata.has_extension("GL_c"));
    assert!(metadata.summary().ends_with("\n[OpenGL] 3 extension(s) supported"));
}

#[test]
fn metadata_summary_names_version_vendor_renderer_and_glsl() {
    let metadata = metadata_with_version(4, 6, &[]);
    assert_eq!(
        metadata.summary(),
        "[OpenGL] Version: 4.6 (Core Profile) Mesa 22.0.1\n[OpenGL] Vendor: Intel\n[OpenGL] Renderer: Mesa Intel(R) UHD Graphics\n[OpenGL] GLSL Version: 4.60\n[OpenGL] 0 extension(s) supported"
    );
}

#[test]
fn version_at_or_above_the_floor_passes() {
    assert_eq!(metadata_with_version(4, 3, &[]).assert_version(), Ok(()));
    assert_eq!(metadata_with_version(4, 6, &[]).assert_version(), Ok(()));
    assert_eq!(metadata_with_version(5, 0, &[]).assert_version(), Ok(()));
    assert_eq!(metadata_with_version(10, 1, &[]).assert_version(), Ok(()));
}

#[test]
fn version_below_the_floor_is_refused() {
    assert_eq!(metadata_with_version(4, 2, &[]).assert_version(), Err(Error::UnsupportedVersion));
    assert_eq!(metadata_with_version(4, 0, &[]).assert_version(), Err(Error::UnsupportedVersion));
    assert_eq!(metadata_with_version(3, 3, &[]).assert_version(), Err(Error::UnsupportedVersion));
    assert_eq!(metadata_with_version(3, 9, &[]).assert_version(), Err(Error::UnsupportedVersion));
    assert_eq!(metadata_with_version(0, 0, &[]).assert_version(), Err(Error::UnsupportedVersion));
}

#[test]
fn version_numbers_are_read_as_unsigned() {
    let metadata = metadata_with_version(-1, 2, &[]);
    assert_eq!(metadata.version(), GlVersion { major: u64::MAX, minor: 2, patch: 0 });
    assert_eq!(metadata.assert_version(), Ok(()));
}

#[test]
fn error_messages_read_as_sentences() {
    assert_eq!(Error::NotLinked.message(), "Shader program not been linked");
    assert_eq!(Error::UnknownShaderType(7).message(), "Unknown shader type: 7");
    assert_eq!(
        Error::UnsupportedVersion.message(),
        "Application requies at least OpenGL v4.3.0"
    );
    assert_eq!(Error::InvalidGeometry.message(), "Mesh arrays do not describe one mesh");
    assert_eq!(Error::Io("No such file".to_string()).message(), "No such file");
    assert_eq!(Error::GpuResource("out of handles".to_string()).message(), "out of handles");
    assert_eq!(Error::Compile { info_log: "0:1: syntax".to_string() }.message(), "0:1: syntax");
    assert_eq!(Error::Link { info_log: "unresolved".to_string() }.message(), "unresolved");
}
