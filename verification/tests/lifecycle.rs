//! Whole operations, run against a small simulated driver.

use shader_program::driver::{Call, Progress, Reply, ShaderKind};
use shader_program::error::ShaderError;
use shader_program::program::{Linking, Program};
use shader_program::reload::{ReloadFailure, Reloading};
use shader_program::shader::{Compilation, Shader};

const VERTEX: &str = "in vec3 position; void main() { gl_Position = vec4(position, 1.0); }";
const FRAGMENT: &str =
    "uniform vec2 resolution; uniform float time; out vec4 outcolor; void main() {}";
const BROKEN: &str = "uniform vec2 resolution; void main() { syntax error }";
const COMPILE_LOG: &str = "0:1(40): error: syntax error, unexpected IDENTIFIER\n\0";
const LINK_LOG: &str = "error: linking with uncompiled shader\n\0";

/// A driver that keeps books: which objects are alive, and every call made.
struct Driver {
    files: Vec<(String, String)>,
    next_handle: u32,
    shaders: Vec<(u32, String)>,
    programs: Vec<(u32, Vec<u32>)>,
    released: Vec<u32>,
    refuse_to_link: bool,
    calls: Vec<Call>,
}

impl Driver {
    fn new() -> Driver {
        Driver {
            files: vec![
                ("test.vert".to_string(), VERTEX.to_string()),
                ("test.frag".to_string(), FRAGMENT.to_string()),
                ("broken.frag".to_string(), BROKEN.to_string()),
            ],
            next_handle: 1,
            shaders: Vec::new(),
            programs: Vec::new(),
            released: Vec::new(),
            refuse_to_link: false,
            calls: Vec::new(),
        }
    }

    fn remove_file(&mut self, path: &str) {
        self.files.retain(|(name, _)| name != path);
    }

    fn write_file(&mut self, path: &str, text: &str) {
        self.remove_file(path);
        self.files.push((path.to_string(), text.to_string()));
    }

    fn text_of(&self, shader: u32) -> String {
        let found = self.shaders.iter().find(|(id, _)| *id == shader);
        found.expect("a live shader").1.clone()
    }

    fn declares(&self, program: u32, name: &str) -> bool {
        let found = self.programs.iter().find(|(id, _)| *id == program);
        let (_, attached) = found.expect("a live program");
        attached.iter().any(|shader| self.text_of(*shader).contains(&format!(" {};", name)))
    }

    fn live_shaders(&self) -> Vec<u32> {
        self.shaders.iter().map(|(id, _)| *id).collect()
    }

    fn live_programs(&self) -> Vec<u32> {
        self.programs.iter().map(|(id, _)| *id).collect()
    }

    fn fresh(&mut self) -> u32 {
        let handle = self.next_handle;
        self.next_handle += 1;
        handle
    }

    fn perform(&mut self, call: &Call) -> Option<Reply> {
        self.calls.push(call.clone());
        match call {
            Call::ReadSource { path } => {
                let found = self.files.iter().find(|(name, _)| name == path);
                Some(match found {
                    Some((_, text)) => Reply::Text(text.clone()),
                    None => Reply::Unreadable,
                })
            }
            Call::CreateShader { .. } => {
                let handle = self.fresh();
                self.shaders.push((handle, String::new()));
                Some(Reply::Handle(handle))
            }
            Call::ShaderSource { shader, text } => {
                let slot = self.shaders.iter_mut().find(|(id, _)| id == shader);
                slot.expect("a live shader").1 = text.clone();
                None
            }
            Call::CompileShader { .. } => None,
            Call::GetCompileStatus { shader } => {
                let good = !self.text_of(*shader).contains("syntax error");
                Some(Reply::Value(if good { 1 } else { 0 }))
            }
            Call::GetShaderLogLength { .. } => Some(Reply::Value(COMPILE_LOG.len() as i32)),
            Call::GetShaderInfoLog { length, .. } => {
                assert_eq!(*length, COMPILE_LOG.len() as i32);
                Some(Reply::Text(COMPILE_LOG.to_string()))
            }
            Call::DeleteShader { shader } => {
                assert!(self.live_shaders().contains(shader), "shader {} released twice", shader);
                self.shaders.retain(|(id, _)| id != shader);
                self.released.push(*shader);
                None
            }
            Call::CreateProgram => {
                let handle = self.fresh();
                self.programs.push((handle, Vec::new()));
                Some(Reply::Handle(handle))
            }
            Call::AttachShader { program, shader } => {
                assert!(self.live_shaders().contains(shader));
                let slot = self.programs.iter_mut().find(|(id, _)| id == program);
                slot.expect("a live program").1.push(*shader);
                None
            }
            Call::BindFragDataLocation { .. } => None,
            Call::GetAttribLocation { program, name } => {
                Some(Reply::Value(if self.declares(*program, name) { 0 } else { -1 }))
            }
            Call::EnableVertexAttribArray { .. } => None,
            Call::VertexAttribPointer { .. } => None,
            Call::LinkProgram { .. } => None,
            Call::GetLinkStatus { .. } => {
                Some(Reply::Value(if self.refuse_to_link { 0 } else { 1 }))
            }
            Call::GetProgramLogLength { .. } => Some(Reply::Value(LINK_LOG.len() as i32)),
            Call::GetProgramInfoLog { .. } => Some(Reply::Text(LINK_LOG.to_string())),
            Call::DeleteProgram { program } => {
                let alive = self.live_programs().contains(program);
                assert!(alive, "program {} released twice", program);
                self.programs.retain(|(id, _)| id != program);
                self.released.push(*program);
                None
            }
            Call::UseProgram { .. } => None,
            Call::GetUniformLocation { program, name } => {
                let location = match name.as_str() {
                    "resolution" => 3,
                    "time" => 4,
                    _ => -1,
                };
                Some(Reply::Value(if self.declares(*program, name) { location } else { -1 }))
            }
            _ => None,
        }
    }

    fn perform_all(&mut self, calls: &[Call]) -> Option<Reply> {
        let mut last = None;
        for call in calls {
            last = self.perform(call);
        }
        last
    }

    fn compile(
        &mut self,
        started: Progress<Compilation, Shader, ShaderError>,
    ) -> Result<Shader, ShaderError> {
        let mut progress = started;
        loop {
            match progress {
                Progress::Ask(machine, calls) => {
                    let reply = self.perform_all(&calls).expect("the last call is answered");
                    progress = machine.step(reply);
                }
                Progress::Finished(result, calls) => {
                    self.perform_all(&calls);
                    return result;
                }
            }
        }
    }

    fn link(
        &mut self,
        started: Progress<Linking, Program, ShaderError>,
    ) -> Result<Program, ShaderError> {
        let mut progress = started;
        loop {
            match progress {
                Progress::Ask(machine, calls) => {
                    let reply = self.perform_all(&calls).expect("the last call is answered");
                    progress = machine.step(reply);
                }
                Progress::Finished(result, calls) => {
                    self.perform_all(&calls);
                    return result;
                }
            }
        }
    }

    fn reload(
        &mut self,
        started: Progress<Reloading, Program, ReloadFailure>,
    ) -> Result<Program, ReloadFailure> {
        let mut progress = started;
        loop {
            match progress {
                Progress::Ask(machine, calls) => {
                    let reply = self.perform_all(&calls).expect("the last call is answered");
                    progress = machine.step(reply);
                }
                Progress::Finished(result, calls) => {
                    self.perform_all(&calls);
                    return result;
                }
            }
        }
    }

    fn uniform_location(&mut self, program: &Program, name: &str) -> i32 {
        match self.perform(&program.locate_uniform(name)) {
            Some(Reply::Value(location)) => location,
            other => panic!("no location: {:?}", other),
        }
    }

    fn attrib_location(&mut self, program: &Program, name: &str) -> i32 {
        match self.perform(&program.locate_attrib(name)) {
            Some(Reply::Value(location)) => location,
            other => panic!("no location: {:?}", other),
        }
    }

    fn test_program(&mut self) -> Program {
        let vert = self.compile(Shader::vertex_from_source("test.vert")).expect("compiles");
        let frag = self.compile(Shader::fragment_from_source("test.frag")).expect("compiles");
        let started = Program::link("test".to_string(), "outcolor", vec![vert, frag]);
        self.link(started).expect("links")
    }
}

#[test]
fn valid_pair_links_and_resolves_its_uniforms() {
    let mut driver = Driver::new();
    let program = driver.test_program();
    assert_eq!(program.name(), "test");
    assert_eq!(program.shaders().len(), 2);
    assert_eq!(driver.live_programs(), vec![program.id()]);

    let resolution = driver.uniform_location(&program, "resolution");
    let found = program.get_uniform_option(resolution);
    assert_eq!(found.map(|uniform| uniform.id()), Some(3));

    let missing = driver.uniform_location(&program, "doesnotexist");
    assert_eq!(program.get_uniform_option(missing), None);
}

#[test]
fn position_is_an_attribute_right_after_link() {
    let mut driver = Driver::new();
    let program = driver.test_program();
    let location = driver.attrib_location(&program, "position");
    let attrib = program.get_attrib("position", location).expect("position is there");
    assert_eq!(attrib.id(), 0);
    assert!(driver.calls.contains(&Call::EnableVertexAttribArray { index: attrib.id() }));
    assert!(driver.calls.contains(&Call::VertexAttribPointer {
        index: attrib.id(),
        components: 3,
        stride: 0,
    }));
}

#[test]
fn required_uniform_that_is_absent_is_an_error() {
    let mut driver = Driver::new();
    let program = driver.test_program();
    let location = driver.uniform_location(&program, "doesnotexist");
    assert_eq!(location, -1);
    assert_eq!(
        program.get_uniform("doesnotexist", location),
        Err(ShaderError::RequiredUniformMissing {
            name: "doesnotexist".to_string(),
            program: "test".to_string(),
        })
    );
    assert_eq!(program.get_uniform_option(location), None);
}

#[test]
fn resolving_twice_gives_equal_locations() {
    let mut driver = Driver::new();
    let program = driver.test_program();
    let first = driver.uniform_location(&program, "resolution");
    let second = driver.uniform_location(&program, "resolution");
    assert_eq!(program.get_uniform_option(first), program.get_uniform_option(second));
    assert_eq!(program.get_uniform("resolution", first), program.get_uniform("resolution", second));
}

#[test]
fn syntax_error_fails_with_the_log_and_leaves_no_shader() {
    let mut driver = Driver::new();
    let result = driver.compile(Shader::fragment_from_source("broken.frag"));
    match result {
        Err(ShaderError::CompileFailed { kind, log }) => {
            assert_eq!(kind, ShaderKind::Fragment);
            assert!(!log.is_empty());
            assert_eq!(log, COMPILE_LOG);
        }
        other => panic!("the compilation should have failed: {:?}", other),
    }
    assert!(driver.live_shaders().is_empty());
    assert_eq!(driver.released, vec![1]);
    assert_eq!(driver.calls.last(), Some(&Call::DeleteShader { shader: 1 }));
}

#[test]
fn successful_compile_keeps_its_shader() {
    let mut driver = Driver::new();
    let shader = driver.compile(Shader::vertex_from_source("test.vert")).expect("compiles");
    assert_eq!(shader.id(), 1);
    assert_eq!(shader.source().path(), "test.vert");
    assert_eq!(shader.source().kind(), ShaderKind::Vertex);
    assert_eq!(driver.live_shaders(), vec![1]);
    assert!(driver.released.is_empty());
    assert_eq!(
        driver.calls,
        vec![
            Call::ReadSource { path: "test.vert".to_string() },
            Call::CreateShader { kind: ShaderKind::Vertex },
            Call::ShaderSource { shader: 1, text: VERTEX.to_string() },
            Call::CompileShader { shader: 1 },
            Call::GetCompileStatus { shader: 1 },
        ]
    );
}

#[test]
fn reload_with_unchanged_source_replaces_the_program() {
    let mut driver = Driver::new();
    let program = driver.test_program();
    let old_id = program.id();
    let old_shaders: Vec<u32> = program.shaders().iter().map(|shader| shader.id()).collect();

    let fresh = driver.reload(program.reload()).expect("the reload succeeds");
    assert_eq!(fresh.name(), "test");
    assert_ne!(fresh.id(), old_id);
    assert_eq!(fresh.shaders().len(), 2);
    assert_eq!(fresh.shaders()[0].source().path(), "test.vert");
    assert_eq!(fresh.shaders()[1].source().path(), "test.frag");

    let fresh_shaders: Vec<u32> = fresh.shaders().iter().map(|shader| shader.id()).collect();
    assert_eq!(driver.live_programs(), vec![fresh.id()]);
    assert_eq!(driver.live_shaders(), fresh_shaders);
    assert_eq!(driver.released, vec![old_id, old_shaders[0], old_shaders[1]]);

    let resolution = driver.uniform_location(&fresh, "resolution");
    assert!(fresh.get_uniform("resolution", resolution).is_ok());
    let time = driver.uniform_location(&fresh, "time");
    assert!(fresh.get_uniform_option(time).is_some());
}

#[test]
fn reload_with_a_deleted_source_hands_the_program_back() {
    let mut driver = Driver::new();
    let program = driver.test_program();
    let old_id = program.id();
    let alive_before = driver.live_shaders();
    driver.remove_file("test.frag");

    let failure = driver.reload(program.reload()).expect_err("a source is gone");
    assert_eq!(failure.error, ShaderError::SourceUnreadable { path: "test.frag".to_string() });
    assert_eq!(failure.program.id(), old_id);
    assert_eq!(failure.program.name(), "test");
    assert_eq!(failure.program.shaders().len(), 2);
    assert_eq!(driver.live_programs(), vec![old_id]);
    assert_eq!(driver.live_shaders(), alive_before);

    let resolution = driver.uniform_location(&failure.program, "resolution");
    assert!(failure.program.get_uniform("resolution", resolution).is_ok());
}

#[test]
fn reload_with_a_broken_source_hands_the_program_back() {
    let mut driver = Driver::new();
    let program = driver.test_program();
    let old_id = program.id();
    let alive_before = driver.live_shaders();
    driver.write_file("test.frag", BROKEN);

    let failure = driver.reload(program.reload()).expect_err("a source is broken");
    assert_eq!(
        failure.error,
        ShaderError::CompileFailed { kind: ShaderKind::Fragment, log: COMPILE_LOG.to_string() }
    );
    assert_eq!(failure.program.id(), old_id);
    assert_eq!(driver.live_programs(), vec![old_id]);
    assert_eq!(driver.live_shaders(), alive_before);
    assert_eq!(driver.released, vec![5, 4]);
}

#[test]
fn reload_whose_link_fails_hands_the_program_back() {
    let mut driver = Driver::new();
    let program = driver.test_program();
    let old_id = program.id();
    let alive_before = driver.live_shaders();
    driver.refuse_to_link = true;

    let failure = driver.reload(program.reload()).expect_err("the link is refused");
    assert_eq!(failure.error, ShaderError::LinkFailed { log: LINK_LOG.to_string() });
    assert_eq!(failure.program.id(), old_id);
    assert_eq!(driver.live_programs(), vec![old_id]);
    assert_eq!(driver.live_shaders(), alive_before);
    assert_eq!(driver.released, vec![6, 4, 5]);
}

#[test]
fn failed_link_releases_the_program_and_the_shaders() {
    let mut driver = Driver::new();
    let vert = driver.compile(Shader::vertex_from_source("test.vert")).expect("compiles");
    let frag = driver.compile(Shader::fragment_from_source("test.frag")).expect("compiles");
    driver.refuse_to_link = true;
    let result = driver.link(Program::link("test".to_string(), "outcolor", vec![vert, frag]));
    assert_eq!(result, Err(ShaderError::LinkFailed { log: LINK_LOG.to_string() }));
    assert!(driver.live_programs().is_empty());
    assert!(driver.live_shaders().is_empty());
    assert_eq!(driver.released, vec![3, 1, 2]);
}

#[test]
fn released_program_leaves_nothing_alive() {
    let mut driver = Driver::new();
    let program = driver.test_program();
    let calls = program.release();
    assert_eq!(
        calls,
        vec![
            Call::DeleteProgram { program: 3 },
            Call::DeleteShader { shader: 1 },
            Call::DeleteShader { shader: 2 },
        ]
    );
    driver.perform_all(&calls);
    assert!(driver.live_programs().is_empty());
    assert!(driver.live_shaders().is_empty());
}

#[test]
fn recompile_releases_first_and_compiles_the_same_source() {
    let mut driver = Driver::new();
    let shader = driver.compile(Shader::fragment_from_source("test.frag")).expect("compiles");
    let again = driver.compile(shader.recompile()).expect("compiles again");
    assert_eq!(again.source().path(), "test.frag");
    assert_eq!(again.source().kind(), ShaderKind::Fragment);
    assert_eq!(driver.released, vec![1]);
    assert_eq!(driver.live_shaders(), vec![again.id()]);
    assert_eq!(driver.calls[5], Call::DeleteShader { shader: 1 });
    assert_eq!(driver.calls[6], Call::ReadSource { path: "test.frag".to_string() });
}

#[test]
fn recompile_that_fails_leaves_no_shader() {
    let mut driver = Driver::new();
    let shader = driver.compile(Shader::fragment_from_source("test.frag")).expect("compiles");
    driver.write_file("test.frag", BROKEN);
    let result = driver.compile(shader.recompile());
    assert!(matches!(result, Err(ShaderError::CompileFailed { .. })));
    assert!(driver.live_shaders().is_empty());
}
