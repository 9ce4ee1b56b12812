//! The vocabulary spoken with the graphics driver: the calls that the library
//! asks its host to perform, and the replies that the host hands back.

use vstd::prelude::*;

verus! {

/// The pipeline stage that a shader is compiled for.
#[derive(Clone, Copy, Debug, PartialEq, Eq, Hash)]
pub enum ShaderKind {
    Vertex,
    Fragment,
}

/// An object that the driver allocates and releases, by its kind and its
/// handle.
#[derive(Clone, Copy, Debug, PartialEq, Eq)]
pub enum Object {
    Shader(u32),
    Program(u32),
}

/// One request to the host: a file read or a single graphics driver call.
///
/// Object names (`shader`, `program`) are the handles that the driver
/// allocated. Floating-point arguments travel as their IEEE-754 bit patterns.
#[derive(Clone, Debug, PartialEq, Eq)]
pub enum Call {
    /// Read the whole text of the file at `path`. Answered by `Reply::Text`,
    /// or by `Reply::Unreadable`.
    ReadSource { path: String },
    /// Allocate a shader object of `kind`. Answered by `Reply::Handle`.
    CreateShader { kind: ShaderKind },
    /// Replace the source of `shader` by `text`, passed as one string.
    ShaderSource { shader: u32, text: String },
    /// Compile the source last given to `shader`.
    CompileShader { shader: u32 },
    /// Query the compile status of `shader`. Answered by `Reply::Value`,
    /// zero for failure.
    GetCompileStatus { shader: u32 },
    /// Query the length of the info log of `shader`, terminator included.
    /// Answered by `Reply::Value`.
    GetShaderLogLength { shader: u32 },
    /// Fetch `length` bytes of the info log of `shader`. Answered by
    /// `Reply::Text`.
    GetShaderInfoLog { shader: u32, length: i32 },
    /// Release `shader`.
    DeleteShader { shader: u32 },
    /// Allocate a program object. Answered by `Reply::Handle`.
    CreateProgram,
    /// Attach `shader` to `program`.
    AttachShader { program: u32, shader: u32 },
    /// Bind the fragment output variable `name` to colour output `color`.
    BindFragDataLocation { program: u32, color: u32, name: String },
    /// Look up the vertex attribute `name`. Answered by `Reply::Value`,
    /// -1 where the program has no such attribute.
    GetAttribLocation { program: u32, name: String },
    /// Enable the vertex attribute array at `index`.
    EnableVertexAttribArray { index: u32 },
    /// Describe the array at `index`: `components` unnormalised floats per
    /// vertex, `stride` bytes apart (0 for tightly packed), from offset 0.
    VertexAttribPointer { index: u32, components: i32, stride: i32 },
    /// Link `program` from the shaders attached to it.
    LinkProgram { program: u32 },
    /// Query the link status of `program`. Answered by `Reply::Value`, zero
    /// for failure.
    GetLinkStatus { program: u32 },
    /// Query the length of the info log of `program`, terminator included.
    /// Answered by `Reply::Value`.
    GetProgramLogLength { program: u32 },
    /// Fetch `length` bytes of the info log of `program`. Answered by
    /// `Reply::Text`.
    GetProgramInfoLog { program: u32, length: i32 },
    /// Release `program`.
    DeleteProgram { program: u32 },
    /// Make `program` the active program.
    UseProgram { program: u32 },
    /// Look up the uniform `name`. Answered by `Reply::Value`, -1 where the
    /// program has no such uniform.
    GetUniformLocation { program: u32, name: String },
    /// Write an integer to the uniform at `location` of the active program.
    Uniform1i { location: i32, value: i32 },
    /// Write a float to the uniform at `location` of the active program.
    Uniform1f { location: i32, bits: u32 },
    /// Write a 2-component float vector.
    Uniform2f { location: i32, x: u32, y: u32 },
    /// Write a 3-component float vector.
    Uniform3f { location: i32, x: u32, y: u32, z: u32 },
    /// Write one 4x4 float matrix from 16 contiguous values, not transposed.
    UniformMatrix4fv { location: i32, values: Vec<u32> },
}

/// What a `Call` is in specifications: strings and vectors by their contents.
pub enum CallView {
    ReadSource { path: Seq<char> },
    CreateShader { kind: ShaderKind },
    ShaderSource { shader: u32, text: Seq<char> },
    CompileShader { shader: u32 },
    GetCompileStatus { shader: u32 },
    GetShaderLogLength { shader: u32 },
    GetShaderInfoLog { shader: u32, length: i32 },
    DeleteShader { shader: u32 },
    CreateProgram,
    AttachShader { program: u32, shader: u32 },
    BindFragDataLocation { program: u32, color: u32, name: Seq<char> },
    GetAttribLocation { program: u32, name: Seq<char> },
    EnableVertexAttribArray { index: u32 },
    VertexAttribPointer { index: u32, components: i32, stride: i32 },
    LinkProgram { program: u32 },
    GetLinkStatus { program: u32 },
    GetProgramLogLength { program: u32 },
    GetProgramInfoLog { program: u32, length: i32 },
    DeleteProgram { program: u32 },
    UseProgram { program: u32 },
    GetUniformLocation { program: u32, name: Seq<char> },
    Uniform1i { location: i32, value: i32 },
    Uniform1f { location: i32, bits: u32 },
    Uniform2f { location: i32, x: u32, y: u32 },
    Uniform3f { location: i32, x: u32, y: u32, z: u32 },
    UniformMatrix4fv { location: i32, values: Seq<u32> },
}

impl View for Call {
    type V = CallView;

    open spec fn view(&self) -> CallView {
        match *self {
            Call::ReadSource { path } => CallView::ReadSource { path: path@ },
            Call::CreateShader { kind } => CallView::CreateShader { kind },
            Call::ShaderSource { shader, text } => CallView::ShaderSource { shader, text: text@ },
            Call::CompileShader { shader } => CallView::CompileShader { shader },
            Call::GetCompileStatus { shader } => CallView::GetCompileStatus { shader },
            Call::GetShaderLogLength { shader } => CallView::GetShaderLogLength { shader },
            Call::GetShaderInfoLog { shader, length } => CallView::GetShaderInfoLog {
                shader,
                length,
            },
            Call::DeleteShader { shader } => CallView::DeleteShader { shader },
            Call::CreateProgram => CallView::CreateProgram,
            Call::AttachShader { program, shader } => CallView::AttachShader { program, shader },
            Call::BindFragDataLocation { program, color, name } => CallView::BindFragDataLocation {
                program,
                color,
                name: name@,
            },
            Call::GetAttribLocation { program, name } => CallView::GetAttribLocation {
                program,
                name: name@,
            },
            Call::EnableVertexAttribArray { index } => CallView::EnableVertexAttribArray { index },
            Call::VertexAttribPointer { index, components, stride } => {
                CallView::VertexAttribPointer { index, components, stride }
            },
            Call::LinkProgram { program } => CallView::LinkProgram { program },
            Call::GetLinkStatus { program } => CallView::GetLinkStatus { program },
            Call::GetProgramLogLength { program } => CallView::GetProgramLogLength { program },
            Call::GetProgramInfoLog { program, length } => CallView::GetProgramInfoLog {
                program,
                length,
            },
            Call::DeleteProgram { program } => CallView::DeleteProgram { program },
            Call::UseProgram { program } => CallView::UseProgram { program },
            Call::GetUniformLocation { program, name } => CallView::GetUniformLocation {
                program,
                name: name@,
            },
            Call::Uniform1i { location, value } => CallView::Uniform1i { location, value },
            Call::Uniform1f { location, bits } => CallView::Uniform1f { location, bits },
            Call::Uniform2f { location, x, y } => CallView::Uniform2f { location, x, y },
            Call::Uniform3f { location, x, y, z } => CallView::Uniform3f { location, x, y, z },
            Call::UniformMatrix4fv { location, values } => CallView::UniformMatrix4fv {
                location,
                values: values@,
            },
        }
    }
}

/// The contents of a list of calls, in order.
pub open spec fn view_calls(calls: Seq<Call>) -> Seq<CallView> {
    calls.map_values(|c: Call| c@)
}

/// Whether `call` releases an object of the driver.
pub open spec fn is_release(call: CallView) -> bool {
    call is DeleteShader || call is DeleteProgram
}

/// Whether no call in `calls` releases an object of the driver.
pub open spec fn releases_nothing(calls: Seq<CallView>) -> bool {
    forall|i: int| 0 <= i < calls.len() ==> !is_release(#[trigger] calls[i])
}

/// Appending a call to a list appends its contents to the list's contents.
pub proof fn view_calls_push(calls: Seq<Call>, call: Call)
    ensures
        view_calls(calls.push(call)) == view_calls(calls).push(call@),
{
    assert(view_calls(calls.push(call)) =~= view_calls(calls).push(call@));
}

/// A list that holds no call.
pub(crate) fn no_calls() -> (calls: Vec<Call>)
    ensures
        view_calls(calls@) == Seq::<CallView>::empty(),
{
    let calls = Vec::new();
    assert(view_calls(calls@) =~= Seq::<CallView>::empty());
    calls
}

/// A list that holds `call` alone.
pub(crate) fn single(call: Call) -> (calls: Vec<Call>)
    ensures
        view_calls(calls@) == seq![call@],
{
    let mut calls = Vec::new();
    calls.push(call);
    assert(view_calls(calls@) =~= seq![call@]);
    calls
}

/// Appends `call` to `calls`.
pub(crate) fn append_call(calls: &mut Vec<Call>, call: Call)
    ensures
        view_calls(final(calls)@) == view_calls(old(calls)@).push(call@),
{
    proof {
        view_calls_push(calls@, call);
    }
    calls.push(call);
}

/// Appends the calls of `more` to `calls`, in order.
pub(crate) fn append_calls(calls: &mut Vec<Call>, more: Vec<Call>)
    ensures
        view_calls(final(calls)@) == view_calls(old(calls)@) + view_calls(more@),
{
    let ghost before = calls@;
    let mut more = more;
    let ghost added = more@;
    calls.append(&mut more);
    assert(view_calls(before + added) =~= view_calls(before) + view_calls(added));
}

/// What the host answers to the last call of a batch.
#[derive(Clone, Debug, PartialEq, Eq)]
pub enum Reply {
    /// The name of a freshly allocated object.
    Handle(u32),
    /// An integer: a status, a length or a location.
    Value(i32),
    /// Text: the contents of a source file, or an info log.
    Text(String),
    /// The source file could not be read.
    Unreadable,
}

/// What a `Reply` is in specifications.
pub enum ReplyView {
    Handle(u32),
    Value(i32),
    Text(Seq<char>),
    Unreadable,
}

impl View for Reply {
    type V = ReplyView;

    open spec fn view(&self) -> ReplyView {
        match *self {
            Reply::Handle(h) => ReplyView::Handle(h),
            Reply::Value(v) => ReplyView::Value(v),
            Reply::Text(t) => ReplyView::Text(t@),
            Reply::Unreadable => ReplyView::Unreadable,
        }
    }
}

/// Where an operation stands after a step.
///
/// `Ask` carries the machine to step next and the calls to perform in order;
/// the reply to the last of them is what the next step takes. `Finished`
/// carries the result and the calls that remain to be performed, in order,
/// none of which is answered.
#[derive(Debug, PartialEq, Eq)]
#[must_use]
pub enum Progress<M, T, E> {
    Ask(M, Vec<Call>),
    Finished(Result<T, E>, Vec<Call>),
}

/// What a `Progress` is in specifications.
pub enum ProgressView<M, T, E> {
    Ask(M, Seq<CallView>),
    Finished(Result<T, E>, Seq<CallView>),
}

impl<M: View, T: View, E: View> View for Progress<M, T, E> {
    type V = ProgressView<M::V, T::V, E::V>;

    open spec fn view(&self) -> ProgressView<M::V, T::V, E::V> {
        match *self {
            Progress::Ask(m, calls) => ProgressView::Ask(m@, view_calls(calls@)),
            Progress::Finished(Ok(t), calls) => ProgressView::Finished(Ok(t@), view_calls(calls@)),
            Progress::Finished(Err(e), calls) => ProgressView::Finished(
                Err(e@),
                view_calls(calls@),
            ),
        }
    }
}

/// The specification of a machine: what it does with each reply.
pub trait Model: Sized {
    /// What the operation yields when it succeeds.
    type Output;

    /// What the operation yields when it fails.
    type Failure;

    /// Where the operation stands after `reply` has answered its last call.
    spec fn step(self, reply: ReplyView) -> ProgressView<Self, Self::Output, Self::Failure>;
}

/// Everything that an operation did while it was fed a list of replies.
pub struct Transcript<T, E> {
    /// The calls that the operation handed out, in order.
    pub calls: Seq<CallView>,
    /// The result, once the operation has finished; `None` while it still
    /// waits for a reply.
    pub result: Option<Result<T, E>>,
}

/// The transcript of the operation that stands at `progress` and is then
/// answered with `replies[from]`, `replies[from + 1]` and so on. Replies that
/// come after the operation has finished are not looked at.
pub open spec fn transcript_from<M: Model>(
    progress: ProgressView<M, M::Output, M::Failure>,
    replies: Seq<ReplyView>,
    from: int,
) -> Transcript<M::Output, M::Failure>
    decreases replies.len() - from,
{
    match progress {
        ProgressView::Finished(result, calls) => Transcript { calls, result: Some(result) },
        ProgressView::Ask(machine, calls) => {
            if 0 <= from < replies.len() {
                let rest = transcript_from(machine.step(replies[from]), replies, from + 1);
                Transcript { calls: calls + rest.calls, result: rest.result }
            } else {
                Transcript { calls, result: None }
            }
        },
    }
}

/// The transcript of the operation that stands at `progress` and is answered
/// with `replies`, in order.
pub open spec fn transcript<M: Model>(
    progress: ProgressView<M, M::Output, M::Failure>,
    replies: Seq<ReplyView>,
) -> Transcript<M::Output, M::Failure> {
    transcript_from(progress, replies, 0)
}

} // verus!
