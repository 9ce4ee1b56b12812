//! Compilation, one step at a time.

use shader_program::driver::{Call, Progress, Reply, ShaderKind};
use shader_program::error::ShaderError;
use shader_program::shader::{Compilation, Shader, ShaderSource};

fn asked(progress: Progress<Compilation, Shader, ShaderError>) -> (Compilation, Vec<Call>) {
    match progress {
        Progress::Ask(machine, calls) => (machine, calls),
        Progress::Finished(result, _) => panic!("ended early: {:?}", result),
    }
}

fn finished(
    progress: Progress<Compilation, Shader, ShaderError>,
) -> (Result<Shader, ShaderError>, Vec<Call>) {
    match progress {
        Progress::Finished(result, calls) => (result, calls),
        Progress::Ask(_, calls) => panic!("still asking: {:?}", calls),
    }
}

#[test]
fn vertex_compile_begins_with_reading_the_file() {
    let (_, calls) = asked(Shader::vertex_from_source("shaders/test.vert"));
    assert_eq!(calls, vec![Call::ReadSource { path: "shaders/test.vert".to_string() }]);
}

#[test]
fn fragment_compile_allocates_a_fragment_shader() {
    let (machine, _) = asked(Shader::fragment_from_source("a.frag"));
    let (_, calls) = asked(machine.step(Reply::Text("void main() {}".to_string())));
    assert_eq!(calls, vec![Call::CreateShader { kind: ShaderKind::Fragment }]);
}

#[test]
fn vertex_compile_allocates_a_vertex_shader() {
    let (machine, _) = asked(Shader::vertex_from_source("a.vert"));
    let (_, calls) = asked(machine.step(Reply::Text("void main() {}".to_string())));
    assert_eq!(calls, vec![Call::CreateShader { kind: ShaderKind::Vertex }]);
}

#[test]
fn from_source_takes_the_kind_it_is_given() {
    let (machine, calls) = asked(Shader::from_source("b.glsl", ShaderKind::Fragment));
    assert_eq!(calls, vec![Call::ReadSource { path: "b.glsl".to_string() }]);
    let (_, calls) = asked(machine.step(Reply::Text(String::new())));
    assert_eq!(calls, vec![Call::CreateShader { kind: ShaderKind::Fragment }]);
}

#[test]
fn compilation_of_a_source_is_the_same_as_from_source() {
    let source = ShaderSource::new("c.vert", ShaderKind::Vertex);
    assert_eq!(source.path(), "c.vert");
    assert_eq!(source.kind(), ShaderKind::Vertex);
    assert_eq!(source.duplicate(), source);
    assert_eq!(Compilation::start(source), Shader::vertex_from_source("c.vert"));
}

#[test]
fn source_is_submitted_verbatim_then_compiled_then_queried() {
    let (machine, _) = asked(Shader::vertex_from_source("a.vert"));
    let (machine, _) = asked(machine.step(Reply::Text("  raw\ttext\n".to_string())));
    let (_, calls) = asked(machine.step(Reply::Handle(7)));
    assert_eq!(
        calls,
        vec![
            Call::ShaderSource { shader: 7, text: "  raw\ttext\n".to_string() },
            Call::CompileShader { shader: 7 },
            Call::GetCompileStatus { shader: 7 },
        ]
    );
}

#[test]
fn any_nonzero_status_is_success() {
    for status in [1, -1, 35713, i32::MIN, i32::MAX] {
        let (machine, _) = asked(Shader::vertex_from_source("a.vert"));
        let (machine, _) = asked(machine.step(Reply::Text("x".to_string())));
        let (machine, _) = asked(machine.step(Reply::Handle(9)));
        let (result, calls) = finished(machine.step(Reply::Value(status)));
        let shader = result.expect("a shader");
        assert_eq!(shader.id(), 9);
        assert_eq!(shader.source().path(), "a.vert");
        assert!(calls.is_empty());
    }
}

#[test]
fn zero_status_fetches_the_log_and_releases_the_shader() {
    let (machine, _) = asked(Shader::fragment_from_source("a.frag"));
    let (machine, _) = asked(machine.step(Reply::Text("x".to_string())));
    let (machine, _) = asked(machine.step(Reply::Handle(4)));
    let (machine, calls) = asked(machine.step(Reply::Value(0)));
    assert_eq!(calls, vec![Call::GetShaderLogLength { shader: 4 }]);
    let (machine, calls) = asked(machine.step(Reply::Value(12)));
    assert_eq!(calls, vec![Call::GetShaderInfoLog { shader: 4, length: 12 }]);
    let (result, calls) = finished(machine.step(Reply::Text("bad things\n\0".to_string())));
    assert_eq!(
        result,
        Err(ShaderError::CompileFailed {
            kind: ShaderKind::Fragment,
            log: "bad things\n\0".to_string(),
        })
    );
    assert_eq!(calls, vec![Call::DeleteShader { shader: 4 }]);
}

#[test]
fn failure_without_a_log_has_an_empty_log() {
    for length in [0, -1, i32::MIN] {
        let (machine, _) = asked(Shader::vertex_from_source("a.vert"));
        let (machine, _) = asked(machine.step(Reply::Text("x".to_string())));
        let (machine, _) = asked(machine.step(Reply::Handle(4)));
        let (machine, _) = asked(machine.step(Reply::Value(0)));
        let (result, calls) = finished(machine.step(Reply::Value(length)));
        assert_eq!(
            result,
            Err(ShaderError::CompileFailed { kind: ShaderKind::Vertex, log: String::new() })
        );
        assert_eq!(calls, vec![Call::DeleteShader { shader: 4 }]);
    }
}

#[test]
fn unreadable_source_is_reported_without_a_driver_call() {
    let (machine, _) = asked(Shader::fragment_from_source("gone.frag"));
    let (result, calls) = finished(machine.step(Reply::Unreadable));
    assert_eq!(result, Err(ShaderError::SourceUnreadable { path: "gone.frag".to_string() }));
    assert!(calls.is_empty());
}

#[test]
fn wrong_reply_to_the_read_ends_the_compilation() {
    let (machine, _) = asked(Shader::vertex_from_source("a.vert"));
    let (result, calls) = finished(machine.step(Reply::Handle(1)));
    assert_eq!(result, Err(ShaderError::UnexpectedReply));
    assert!(calls.is_empty());
}

#[test]
fn wrong_reply_to_the_allocation_ends_the_compilation() {
    let (machine, _) = asked(Shader::vertex_from_source("a.vert"));
    let (machine, _) = asked(machine.step(Reply::Text("x".to_string())));
    let (result, calls) = finished(machine.step(Reply::Value(1)));
    assert_eq!(result, Err(ShaderError::UnexpectedReply));
    assert!(calls.is_empty());
}

#[test]
fn wrong_reply_to_the_status_releases_the_shader() {
    let (machine, _) = asked(Shader::vertex_from_source("a.vert"));
    let (machine, _) = asked(machine.step(Reply::Text("x".to_string())));
    let (machine, _) = asked(machine.step(Reply::Handle(5)));
    let (result, calls) = finished(machine.step(Reply::Unreadable));
    assert_eq!(result, Err(ShaderError::UnexpectedReply));
    assert_eq!(calls, vec![Call::DeleteShader { shader: 5 }]);
}

#[test]
fn wrong_reply_while_reading_the_log_releases_the_shader() {
    let (machine, _) = asked(Shader::vertex_from_source("a.vert"));
    let (machine, _) = asked(machine.step(Reply::Text("x".to_string())));
    let (machine, _) = asked(machine.step(Reply::Handle(5)));
    let (machine, _) = asked(machine.step(Reply::Value(0)));
    let (machine, _) = asked(machine.step(Reply::Value(3)));
    let (result, calls) = finished(machine.step(Reply::Value(3)));
    assert_eq!(result, Err(ShaderError::UnexpectedReply));
    assert_eq!(calls, vec![Call::DeleteShader { shader: 5 }]);
}

#[test]
fn shader_is_released_by_one_call() {
    let (machine, _) = asked(Shader::vertex_from_source("a.vert"));
    let (machine, _) = asked(machine.step(Reply::Text("x".to_string())));
    let (machine, _) = asked(machine.step(Reply::Handle(11)));
    let (result, _) = finished(machine.step(Reply::Value(1)));
    let shader = result.expect("a shader");
    assert_eq!(shader.release(), vec![Call::DeleteShader { shader: 11 }]);
}

#[test]
fn recompile_releases_the_old_object_before_it_reads() {
    let (machine, _) = asked(Shader::fragment_from_source("a.frag"));
    let (machine, _) = asked(machine.step(Reply::Text("x".to_string())));
    let (machine, _) = asked(machine.step(Reply::Handle(11)));
    let (result, _) = finished(machine.step(Reply::Value(1)));
    let shader = result.expect("a shader");
    let (machine, calls) = asked(shader.recompile());
    assert_eq!(
        calls,
        vec![Call::DeleteShader { shader: 11 }, Call::ReadSource { path: "a.frag".to_string() }]
    );
    let (_, calls) = asked(machine.step(Reply::Text("y".to_string())));
    assert_eq!(calls, vec![Call::CreateShader { kind: ShaderKind::Fragment }]);
}
