//! Fetching info logs.

use shader_program::driver::{Call, Object, Progress, Reply};
use shader_program::error::ShaderError;
use shader_program::log::LogFetch;
use shader_program::shader::Shader;

fn a_shader(id: u32) -> Shader {
    let machine = match Shader::vertex_from_source("a.vert") {
        Progress::Ask(machine, _) => machine,
        Progress::Finished(..) => panic!("ended early"),
    };
    let machine = match machine.step(Reply::Text("x".to_string())) {
        Progress::Ask(machine, _) => machine,
        Progress::Finished(..) => panic!("ended early"),
    };
    let machine = match machine.step(Reply::Handle(id)) {
        Progress::Ask(machine, _) => machine,
        Progress::Finished(..) => panic!("ended early"),
    };
    match machine.step(Reply::Value(1)) {
        Progress::Finished(Ok(shader), _) => shader,
        other => panic!("no shader: {:?}", other),
    }
}

#[test]
fn shader_log_is_measured_then_fetched() {
    let shader = a_shader(8);
    let (machine, calls) = match shader.get_compilation_log() {
        Progress::Ask(machine, calls) => (machine, calls),
        Progress::Finished(..) => panic!("ended early"),
    };
    assert_eq!(calls, vec![Call::GetShaderLogLength { shader: 8 }]);
    let (machine, calls) = match machine.step(Reply::Value(6)) {
        Progress::Ask(machine, calls) => (machine, calls),
        Progress::Finished(..) => panic!("ended early"),
    };
    assert_eq!(calls, vec![Call::GetShaderInfoLog { shader: 8, length: 6 }]);
    assert_eq!(
        machine.step(Reply::Text("hello\0".to_string())),
        Progress::Finished(Ok("hello\0".to_string()), vec![])
    );
}

#[test]
fn program_log_asks_the_program() {
    let (machine, calls) = match LogFetch::start(Object::Program(2)) {
        Progress::Ask(machine, calls) => (machine, calls),
        Progress::Finished(..) => panic!("ended early"),
    };
    assert_eq!(calls, vec![Call::GetProgramLogLength { program: 2 }]);
    match machine.step(Reply::Value(1)) {
        Progress::Ask(_, calls) => {
            assert_eq!(calls, vec![Call::GetProgramInfoLog { program: 2, length: 1 }]);
        }
        Progress::Finished(..) => panic!("ended early"),
    }
}

#[test]
fn log_of_no_length_is_empty_and_not_fetched() {
    for length in [0, -5] {
        let machine = match LogFetch::start(Object::Shader(1)) {
            Progress::Ask(machine, _) => machine,
            Progress::Finished(..) => panic!("ended early"),
        };
        let ended = machine.step(Reply::Value(length));
        assert_eq!(ended, Progress::Finished(Ok(String::new()), vec![]));
    }
}

#[test]
fn wrong_reply_ends_the_fetch() {
    let machine = match LogFetch::start(Object::Shader(1)) {
        Progress::Ask(machine, _) => machine,
        Progress::Finished(..) => panic!("ended early"),
    };
    assert_eq!(
        machine.step(Reply::Text("early".to_string())),
        Progress::Finished(Err(ShaderError::UnexpectedReply), vec![])
    );
    let machine = match LogFetch::start(Object::Shader(1)) {
        Progress::Ask(machine, _) => machine,
        Progress::Finished(..) => panic!("ended early"),
    };
    let machine = match machine.step(Reply::Value(4)) {
        Progress::Ask(machine, _) => machine,
        Progress::Finished(..) => panic!("ended early"),
    };
    assert_eq!(
        machine.step(Reply::Unreadable),
        Progress::Finished(Err(ShaderError::UnexpectedReply), vec![])
    );
}
