//! The text of each error.

use shader_program::driver::ShaderKind;
use shader_program::error::ShaderError;

#[test]
fn unreadable_source_names_the_file() {
    let error = ShaderError::SourceUnreadable { path: "shaders/test.vert".to_string() };
    assert_eq!(error.message(), "Failed read of file shaders/test.vert");
}

#[test]
fn compile_failure_names_the_kind_and_gives_the_log() {
    let vertex =
        ShaderError::CompileFailed { kind: ShaderKind::Vertex, log: "0:1 bad".to_string() };
    assert_eq!(vertex.message(), "While compiling vertex 0:1 bad");
    let fragment =
        ShaderError::CompileFailed { kind: ShaderKind::Fragment, log: "0:2 worse".to_string() };
    assert_eq!(fragment.message(), "While compiling fragment 0:2 worse");
}

#[test]
fn compile_failure_without_a_log_still_has_a_message() {
    let error = ShaderError::CompileFailed { kind: ShaderKind::Fragment, log: String::new() };
    assert_eq!(error.message(), "While compiling fragment ");
}

#[test]
fn link_failure_is_the_log() {
    let error = ShaderError::LinkFailed { log: "undefined reference\n".to_string() };
    assert_eq!(error.message(), "undefined reference\n");
}

#[test]
fn missing_uniform_names_the_uniform_and_the_program() {
    let error = ShaderError::RequiredUniformMissing {
        name: "cameraPos".to_string(),
        program: "hehehehaw".to_string(),
    };
    assert_eq!(
        error.message(),
        "Could not find uniform \"cameraPos\" in shader program \"hehehehaw\""
    );
}

#[test]
fn missing_attribute_names_the_attribute_and_the_program() {
    let error = ShaderError::RequiredAttributeMissing {
        name: "position".to_string(),
        program: "test".to_string(),
    };
    assert_eq!(error.message(), "Could not find attribute \"position\" in shader program \"test\"");
}

#[test]
fn unexpected_reply_has_a_message() {
    assert_eq!(
        ShaderError::UnexpectedReply.message(),
        "The host answered with a reply of the wrong form"
    );
}

#[test]
fn kinds_have_their_words() {
    assert_eq!(ShaderKind::Vertex.word(), "vertex");
    assert_eq!(ShaderKind::Fragment.word(), "fragment");
}
