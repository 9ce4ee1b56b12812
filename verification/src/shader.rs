//! Shader objects and their compilation.
//!
//! A shader is compiled in up to five exchanges with the host: the source
//! file is read, a shader object is allocated, the source is submitted and
//! compiled, and where the driver reports failure its info log is fetched.
//! A compilation that fails releases the object that it allocated.

use crate::driver::{
    append_call, no_calls, releases_nothing, single, transcript, transcript_from, view_calls,
    Call, CallView, Model, Object, Progress, ProgressView, Reply, ReplyView, ShaderKind, Transcript,
};
use crate::error::{ShaderError, ShaderErrorView};
use crate::ledger::{
    allocated, allocated_by, allocated_from, asks_for_an_object, nothing_released, released,
    released_after, released_together,
};
use crate::log::{LogFetch, LogFetchView};
use vstd::multiset::Multiset;
use vstd::prelude::*;

verus! {

/// Where a shader's text comes from and which stage it is for. Fixed once
/// made.
#[derive(Clone, Debug, PartialEq, Eq)]
pub struct ShaderSource {
    path: String,
    kind: ShaderKind,
}

/// A `ShaderSource` in specifications.
pub struct ShaderSourceView {
    pub path: Seq<char>,
    pub kind: ShaderKind,
}

impl View for ShaderSource {
    type V = ShaderSourceView;

    closed spec fn view(&self) -> ShaderSourceView {
        ShaderSourceView { path: self.path@, kind: self.kind }
    }
}

impl ShaderSource {
    /// The source of a `kind` shader whose text is in the file at `path`.
    pub fn new(path: &str, kind: ShaderKind) -> (source: ShaderSource)
        ensures
            source@ == (ShaderSourceView { path: path@, kind }),
    {
        ShaderSource { path: String::from_str(path), kind }
    }

    /// The path of the file that holds the text.
    pub fn path(&self) -> (path: &str)
        ensures
            path@ == self@.path,
    {
        self.path.as_str()
    }

    /// The stage that the shader is for.
    pub fn kind(&self) -> (kind: ShaderKind)
        ensures
            kind == self@.kind,
    {
        self.kind
    }

    /// A second value for the same source.
    pub fn duplicate(&self) -> (copy: ShaderSource)
        ensures
            copy@ == self@,
    {
        ShaderSource { path: self.path.clone(), kind: self.kind }
    }
}

/// A compiled shader object, with the source that it was compiled from.
///
/// A `Shader` comes into being only where a compilation ends in success, so
/// its handle names an object whose compile status the driver reported as
/// good.
#[derive(Debug, PartialEq, Eq)]
#[must_use]
pub struct Shader {
    id: u32,
    source: ShaderSource,
}

/// A `Shader` in specifications.
pub struct ShaderView {
    pub id: u32,
    pub source: ShaderSourceView,
}

impl View for Shader {
    type V = ShaderView;

    closed spec fn view(&self) -> ShaderView {
        ShaderView { id: self.id, source: self.source@ }
    }
}

impl ShaderView {
    /// Compiling this shader anew: its object is released first, then the same
    /// source is compiled as if for the first time.
    pub open spec fn recompile(self) -> CompileProgress {
        ProgressView::Ask(
            CompilationView { source: self.source, stage: CompileStageView::Reading },
            seq![
                CallView::DeleteShader { shader: self.id },
                CallView::ReadSource { path: self.source.path },
            ],
        )
    }
}

/// The contents of a list of shaders, in order.
pub open spec fn view_shaders(shaders: Seq<Shader>) -> Seq<ShaderView> {
    shaders.map_values(|s: Shader| s@)
}

/// How far a compilation has come.
#[derive(Debug, PartialEq, Eq)]
pub enum CompileStage {
    /// The source file is being read.
    Reading,
    /// The text is at hand and a shader object is being allocated.
    Creating { text: String },
    /// The text was submitted to `shader` and its compile status asked for.
    Compiling { shader: u32 },
    /// Compilation failed and the info log of `shader` is being fetched.
    ReadingLog { shader: u32, fetch: LogFetch },
}

/// A `CompileStage` in specifications.
pub enum CompileStageView {
    Reading,
    Creating { text: Seq<char> },
    Compiling { shader: u32 },
    ReadingLog { shader: u32, fetch: LogFetchView },
}

impl View for CompileStage {
    type V = CompileStageView;

    open spec fn view(&self) -> CompileStageView {
        match *self {
            CompileStage::Reading => CompileStageView::Reading,
            CompileStage::Creating { text } => CompileStageView::Creating { text: text@ },
            CompileStage::Compiling { shader } => CompileStageView::Compiling { shader },
            CompileStage::ReadingLog { shader, fetch } => CompileStageView::ReadingLog {
                shader,
                fetch: fetch@,
            },
        }
    }
}

/// A compilation that is under way.
#[derive(Debug, PartialEq, Eq)]
pub struct Compilation {
    source: ShaderSource,
    stage: CompileStage,
}

/// A `Compilation` in specifications.
pub struct CompilationView {
    pub source: ShaderSourceView,
    pub stage: CompileStageView,
}

/// Where a compilation stands after a step, in specifications.
pub type CompileProgress = ProgressView<CompilationView, ShaderView, ShaderErrorView>;

impl View for Compilation {
    type V = CompilationView;

    closed spec fn view(&self) -> CompilationView {
        CompilationView { source: self.source@, stage: self.stage@ }
    }
}

impl CompilationView {
    /// A compilation begins by reading the source file.
    pub open spec fn start(source: ShaderSourceView) -> CompileProgress {
        ProgressView::Ask(
            CompilationView { source, stage: CompileStageView::Reading },
            seq![CallView::ReadSource { path: source.path }],
        )
    }

    /// The calls that submit `text` to `shader`, compile it and ask how that
    /// went.
    pub open spec fn submission(shader: u32, text: Seq<char>) -> Seq<CallView> {
        seq![
            CallView::ShaderSource { shader, text },
            CallView::CompileShader { shader },
            CallView::GetCompileStatus { shader },
        ]
    }

    /// How a compilation that failed on `shader` goes on while its log is
    /// being fetched: it ends when the fetch ends, releasing `shader`.
    pub open spec fn after_log(
        source: ShaderSourceView,
        shader: u32,
        fetched: ProgressView<LogFetchView, Seq<char>, ShaderErrorView>,
    ) -> CompileProgress {
        match fetched {
            ProgressView::Ask(fetch, calls) => ProgressView::Ask(
                CompilationView { source, stage: CompileStageView::ReadingLog { shader, fetch } },
                calls,
            ),
            ProgressView::Finished(Ok(log), calls) => ProgressView::Finished(
                Err(ShaderErrorView::CompileFailed { kind: source.kind, log }),
                calls.push(CallView::DeleteShader { shader }),
            ),
            ProgressView::Finished(Err(error), calls) => ProgressView::Finished(
                Err(error),
                calls.push(CallView::DeleteShader { shader }),
            ),
        }
    }
}

impl Model for CompilationView {
    type Output = ShaderView;

    type Failure = ShaderErrorView;

    open spec fn step(self, reply: ReplyView) -> CompileProgress {
        match (self.stage, reply) {
            (CompileStageView::Reading, ReplyView::Text(text)) => ProgressView::Ask(
                CompilationView { source: self.source, stage: CompileStageView::Creating { text } },
                seq![CallView::CreateShader { kind: self.source.kind }],
            ),
            (CompileStageView::Reading, ReplyView::Unreadable) => ProgressView::Finished(
                Err(ShaderErrorView::SourceUnreadable { path: self.source.path }),
                Seq::empty(),
            ),
            (CompileStageView::Creating { text }, ReplyView::Handle(shader)) => ProgressView::Ask(
                CompilationView {
                    source: self.source,
                    stage: CompileStageView::Compiling { shader },
                },
                Self::submission(shader, text),
            ),
            (CompileStageView::Compiling { shader }, ReplyView::Value(status)) => {
                if status != 0 {
                    ProgressView::Finished(
                        Ok(ShaderView { id: shader, source: self.source }),
                        Seq::empty(),
                    )
                } else {
                    Self::after_log(
                        self.source,
                        shader,
                        LogFetchView::start(Object::Shader(shader)),
                    )
                }
            },
            (CompileStageView::Compiling { shader }, _) => ProgressView::Finished(
                Err(ShaderErrorView::UnexpectedReply),
                seq![CallView::DeleteShader { shader }],
            ),
            (CompileStageView::ReadingLog { shader, fetch }, _) => Self::after_log(
                self.source,
                shader,
                fetch.step(reply),
            ),
            _ => ProgressView::Finished(Err(ShaderErrorView::UnexpectedReply), Seq::empty()),
        }
    }
}

impl Compilation {
    /// The compilation of `source` at its beginning, with its first calls.
    pub(crate) fn begin(source: ShaderSource) -> (begun: (Compilation, Vec<Call>))
        ensures
            CompilationView::start(source@) == CompileProgress::Ask(
                begun.0@,
                view_calls(begun.1@),
            ),
    {
        let calls = single(Call::ReadSource { path: source.path.clone() });
        (Compilation { source, stage: CompileStage::Reading }, calls)
    }

    /// Begins to compile `source`.
    pub fn start(source: ShaderSource) -> (progress: Progress<Compilation, Shader, ShaderError>)
        ensures
            progress@ == CompilationView::start(source@),
    {
        let (compilation, calls) = Compilation::begin(source);
        Progress::Ask(compilation, calls)
    }

    /// Wraps a step of the log fetch into a step of the compilation.
    fn after_log(
        source: ShaderSource,
        shader: u32,
        fetched: Progress<LogFetch, String, ShaderError>,
    ) -> (progress: Progress<Compilation, Shader, ShaderError>)
        ensures
            progress@ == CompilationView::after_log(source@, shader, fetched@),
    {
        match fetched {
            Progress::Ask(fetch, calls) => Progress::Ask(
                Compilation { source, stage: CompileStage::ReadingLog { shader, fetch } },
                calls,
            ),
            Progress::Finished(Ok(log), calls) => {
                let mut calls = calls;
                append_call(&mut calls, Call::DeleteShader { shader });
                Progress::Finished(
                    Err(ShaderError::CompileFailed { kind: source.kind, log }),
                    calls,
                )
            },
            Progress::Finished(Err(error), calls) => {
                let mut calls = calls;
                append_call(&mut calls, Call::DeleteShader { shader });
                Progress::Finished(Err(error), calls)
            },
        }
    }

    /// Takes the reply to the last call and says how the compilation goes on.
    pub fn step(self, reply: Reply) -> (progress: Progress<Compilation, Shader, ShaderError>)
        ensures
            progress@ == self@.step(reply@),
    {
        let source = self.source;
        match (self.stage, reply) {
            (CompileStage::Reading, Reply::Text(text)) => {
                let calls = single(Call::CreateShader { kind: source.kind });
                Progress::Ask(Compilation { source, stage: CompileStage::Creating { text } }, calls)
            },
            (CompileStage::Reading, Reply::Unreadable) => {
                let path = source.path;
                Progress::Finished(Err(ShaderError::SourceUnreadable { path }), no_calls())
            },
            (CompileStage::Creating { text }, Reply::Handle(shader)) => {
                let mut calls = single(Call::ShaderSource { shader, text });
                append_call(&mut calls, Call::CompileShader { shader });
                append_call(&mut calls, Call::GetCompileStatus { shader });
                assert(view_calls(calls@) =~= CompilationView::submission(shader, text@));
                let stage = CompileStage::Compiling { shader };
                Progress::Ask(Compilation { source, stage }, calls)
            },
            (CompileStage::Compiling { shader }, Reply::Value(status)) => {
                if status != 0 {
                    Progress::Finished(Ok(Shader { id: shader, source }), no_calls())
                } else {
                    let fetched = LogFetch::start(Object::Shader(shader));
                    Compilation::after_log(source, shader, fetched)
                }
            },
            (CompileStage::Compiling { shader }, _) => Progress::Finished(
                Err(ShaderError::UnexpectedReply),
                single(Call::DeleteShader { shader }),
            ),
            (CompileStage::ReadingLog { shader, fetch }, reply) => Compilation::after_log(
                source,
                shader,
                fetch.step(reply),
            ),
            _ => Progress::Finished(Err(ShaderError::UnexpectedReply), no_calls()),
        }
    }
}

impl Shader {
    /// Begins to compile the vertex shader whose text is in the file at `path`.
    pub fn vertex_from_source(path: &str) -> (progress: Progress<Compilation, Shader, ShaderError>)
        ensures
            progress@ == CompilationView::start(
                ShaderSourceView { path: path@, kind: ShaderKind::Vertex },
            ),
    {
        Shader::from_source(path, ShaderKind::Vertex)
    }

    /// Begins to compile the fragment shader whose text is in the file at
    /// `path`.
    pub fn fragment_from_source(path: &str) -> (progress: Progress<
        Compilation,
        Shader,
        ShaderError,
    >)
        ensures
            progress@ == CompilationView::start(
                ShaderSourceView { path: path@, kind: ShaderKind::Fragment },
            ),
    {
        Shader::from_source(path, ShaderKind::Fragment)
    }

    /// Begins to compile the `kind` shader whose text is in the file at
    /// `path`. Nothing is allocated before the file has been read.
    pub fn from_source(path: &str, kind: ShaderKind) -> (progress: Progress<
        Compilation,
        Shader,
        ShaderError,
    >)
        ensures
            progress@ == CompilationView::start(ShaderSourceView { path: path@, kind }),
    {
        Compilation::start(ShaderSource::new(path, kind))
    }

    /// Releases this shader's object, then begins to compile its source
    /// anew. Whatever the outcome, the shader that was handed in is gone.
    pub fn recompile(self) -> (progress: Progress<Compilation, Shader, ShaderError>)
        ensures
            progress@ == self@.recompile(),
    {
        let mut calls = single(Call::DeleteShader { shader: self.id });
        append_call(&mut calls, Call::ReadSource { path: self.source.path.clone() });
        assert(view_calls(calls@) =~= seq![
            CallView::DeleteShader { shader: self.id },
            CallView::ReadSource { path: self.source.path@ },
        ]);
        Progress::Ask(Compilation { source: self.source, stage: CompileStage::Reading }, calls)
    }

    /// Begins to fetch the info log that the driver keeps for this shader.
    pub fn get_compilation_log(&self) -> (progress: Progress<LogFetch, String, ShaderError>)
        ensures
            progress@ == LogFetchView::start(Object::Shader(self@.id)),
    {
        LogFetch::start(Object::Shader(self.id))
    }

    /// Gives the shader up: the one call that releases its object.
    pub fn release(self) -> (calls: Vec<Call>)
        ensures
            view_calls(calls@) == seq![CallView::DeleteShader { shader: self@.id }],
    {
        single(Call::DeleteShader { shader: self.id })
    }

    /// The handle of the shader object.
    pub fn id(&self) -> (id: u32)
        ensures
            id == self@.id,
    {
        self.id
    }

    /// The source that the shader was compiled from.
    pub fn source(&self) -> (source: &ShaderSource)
        ensures
            source@ == self@.source,
    {
        &self.source
    }
}

/// A compilation of readable text that the driver accepts performs the file
/// read, the allocation and the submission, in that order and nothing else,
/// and yields the shader that wraps the allocated handle.
pub proof fn accepted_source_yields_its_shader(
    source: ShaderSourceView,
    text: Seq<char>,
    shader: u32,
    status: i32,
)
    requires
        status != 0,
    ensures
        transcript(
            CompilationView::start(source),
            seq![ReplyView::Text(text), ReplyView::Handle(shader), ReplyView::Value(status)],
        ) == (Transcript::<ShaderView, ShaderErrorView> {
            calls: seq![
                CallView::ReadSource { path: source.path },
                CallView::CreateShader { kind: source.kind },
                CallView::ShaderSource { shader, text },
                CallView::CompileShader { shader },
                CallView::GetCompileStatus { shader },
            ],
            result: Some(Ok(ShaderView { id: shader, source })),
        }),
{
    let replies = seq![ReplyView::Text(text), ReplyView::Handle(shader), ReplyView::Value(status)];
    let run = transcript(CompilationView::start(source), replies);
    reveal_with_fuel(transcript_from, 4);
    assert(run.calls =~= seq![
        CallView::ReadSource { path: source.path },
        CallView::CreateShader { kind: source.kind },
        CallView::ShaderSource { shader, text },
        CallView::CompileShader { shader },
        CallView::GetCompileStatus { shader },
    ]);
}

/// A compilation that the driver rejects fetches the info log, releases the
/// shader object as its last call, and fails with that log.
pub proof fn rejected_source_fails_with_the_log(
    source: ShaderSourceView,
    text: Seq<char>,
    shader: u32,
    length: i32,
    log: Seq<char>,
)
    requires
        length > 0,
    ensures
        transcript(
            CompilationView::start(source),
            seq![
                ReplyView::Text(text),
                ReplyView::Handle(shader),
                ReplyView::Value(0),
                ReplyView::Value(length),
                ReplyView::Text(log),
            ],
        ) == (Transcript::<ShaderView, ShaderErrorView> {
            calls: seq![
                CallView::ReadSource { path: source.path },
                CallView::CreateShader { kind: source.kind },
                CallView::ShaderSource { shader, text },
                CallView::CompileShader { shader },
                CallView::GetCompileStatus { shader },
                CallView::GetShaderLogLength { shader },
                CallView::GetShaderInfoLog { shader, length },
                CallView::DeleteShader { shader },
            ],
            result: Some(Err(ShaderErrorView::CompileFailed { kind: source.kind, log })),
        }),
{
    let replies = seq![
        ReplyView::Text(text),
        ReplyView::Handle(shader),
        ReplyView::Value(0),
        ReplyView::Value(length),
        ReplyView::Text(log),
    ];
    let run = transcript(CompilationView::start(source), replies);
    reveal_with_fuel(transcript_from, 6);
    assert(run.calls =~= seq![
        CallView::ReadSource { path: source.path },
        CallView::CreateShader { kind: source.kind },
        CallView::ShaderSource { shader, text },
        CallView::CompileShader { shader },
        CallView::GetCompileStatus { shader },
        CallView::GetShaderLogLength { shader },
        CallView::GetShaderInfoLog { shader, length },
        CallView::DeleteShader { shader },
    ]);
}

/// Where the source file cannot be read the compilation fails at once: the
/// driver is never called, so there is nothing to release.
pub proof fn unreadable_source_touches_no_driver(source: ShaderSourceView)
    ensures
        transcript(CompilationView::start(source), seq![ReplyView::Unreadable]) == (Transcript::<
            ShaderView,
            ShaderErrorView,
        > {
            calls: seq![CallView::ReadSource { path: source.path }],
            result: Some(Err(ShaderErrorView::SourceUnreadable { path: source.path })),
        }),
{
    let run = transcript(CompilationView::start(source), seq![ReplyView::Unreadable]);
    reveal_with_fuel(transcript_from, 2);
    assert(run.calls =~= seq![CallView::ReadSource { path: source.path }]);
}

/// The handle that the driver allocated for a compilation answered with
/// `replies`, if the compilation came that far.
pub open spec fn handle_given(replies: Seq<ReplyView>) -> Option<u32> {
    if replies.len() >= 2 && replies[0] is Text && replies[1] is Handle {
        Some(replies[1]->Handle_0)
    } else {
        None
    }
}

/// Whether `replies` report a shader object that compiled.
pub open spec fn accepted(replies: Seq<ReplyView>) -> bool {
    &&& handle_given(replies) is Some
    &&& replies.len() >= 3
    &&& replies[2] is Value
    &&& replies[2]->Value_0 != 0
}

/// Whatever the host answers, a compilation yields a shader exactly when the
/// driver allocated an object and reported that it compiled; the shader then
/// wraps that object and the source that was asked for.
pub proof fn compile_succeeds_exactly_when_accepted(
    source: ShaderSourceView,
    replies: Seq<ReplyView>,
)
    ensures
        transcript(CompilationView::start(source), replies).result matches Some(Ok(_))
            <==> accepted(replies),
        accepted(replies) ==> transcript(CompilationView::start(source), replies).result == Some(
            Ok::<ShaderView, ShaderErrorView>(
                ShaderView { id: handle_given(replies)->Some_0, source },
            ),
        ),
{
    reveal_with_fuel(transcript_from, 6);
}

/// Whatever the host answers, a compilation leaves no shader object behind
/// but the one that it yields: one that succeeds releases nothing, and one
/// that fails after an object was allocated releases that object with its
/// last call, and releases nothing else.
pub proof fn compile_releases_what_it_allocated(source: ShaderSourceView, replies: Seq<ReplyView>)
    ensures
        ({
            let run = transcript(CompilationView::start(source), replies);
            match (run.result, handle_given(replies)) {
                (Some(Ok(_)), _) => releases_nothing(run.calls),
                (Some(Err(_)), Some(shader)) => {
                    &&& run.calls.len() > 0
                    &&& run.calls.last() == CallView::DeleteShader { shader }
                    &&& releases_nothing(run.calls.drop_last())
                },
                (Some(Err(_)), None) => releases_nothing(run.calls),
                (None, _) => releases_nothing(run.calls),
            }
        }),
{
    reveal_with_fuel(transcript_from, 6);
}

impl CompilationView {
    /// The objects that a compilation holds at this stage: the shader object,
    /// from its allocation on.
    pub open spec fn holds(self) -> Multiset<Object> {
        match self.stage {
            CompileStageView::Compiling { shader } => Multiset::singleton(Object::Shader(shader)),
            CompileStageView::ReadingLog { shader, .. } => Multiset::singleton(
                Object::Shader(shader),
            ),
            _ => Multiset::empty(),
        }
    }
}

/// The objects that are accounted for where a compilation stands at
/// `progress`, before the calls of `progress` are performed: what those calls
/// release, and what the compilation holds, or its result owns, after them.
pub open spec fn compile_account(progress: CompileProgress) -> Multiset<Object> {
    match progress {
        ProgressView::Ask(machine, calls) => machine.holds().add(released(calls)),
        ProgressView::Finished(Ok(shader), calls) => released(calls).insert(
            Object::Shader(shader.id),
        ),
        ProgressView::Finished(Err(_), calls) => released(calls),
    }
}

/// Whether a compilation that stands at `progress` waits for an object
/// exactly when it has asked for one, which is then a shader.
pub open spec fn compile_settled(progress: CompileProgress) -> bool {
    match progress {
        ProgressView::Ask(machine, calls) => {
            &&& machine.stage is Creating <==> asks_for_an_object(calls)
            &&& asks_for_an_object(calls) ==> calls.last() is CreateShader
        },
        ProgressView::Finished(_, _) => true,
    }
}

/// A step of a compilation neither makes nor loses an object: what it held,
/// with what the driver allocated in answer, is what is accounted for after
/// the step.
pub proof fn compile_step_conserves(
    machine: CompilationView,
    calls: Seq<CallView>,
    reply: ReplyView,
)
    requires
        compile_settled(ProgressView::Ask(machine, calls)),
    ensures
        compile_settled(machine.step(reply)),
        machine.holds().add(allocated_by(calls, reply)) == compile_account(machine.step(reply)),
{
    let next = machine.step(reply);
    let before = machine.holds().add(allocated_by(calls, reply));
    match next {
        ProgressView::Ask(_, more) => {
            nothing_released(more);
            assert(before =~= compile_account(next));
        },
        ProgressView::Finished(_, more) => {
            if more.len() > 0 {
                released_after(more.drop_last(), more.last());
                assert(more.drop_last().push(more.last()) =~= more);
                nothing_released(more.drop_last());
            }
            assert(before =~= compile_account(next));
        },
    }
}

proof fn compile_conserves_from(progress: CompileProgress, replies: Seq<ReplyView>, from: int)
    requires
        compile_settled(progress),
    ensures
        ({
            let run = transcript_from(progress, replies, from);
            let made = allocated_from(progress, replies, from);
            match run.result {
                Some(Ok(shader)) => compile_account(progress).add(made) == released(
                    run.calls,
                ).insert(Object::Shader(shader.id)),
                Some(Err(_)) => compile_account(progress).add(made) == released(run.calls),
                None => true,
            }
        }),
    decreases replies.len() - from,
{
    let run = transcript_from(progress, replies, from);
    let made = allocated_from(progress, replies, from);
    match progress {
        ProgressView::Ask(machine, calls) => {
            if 0 <= from < replies.len() {
                let next = machine.step(replies[from]);
                let rest = transcript_from(next, replies, from + 1);
                let later = allocated_from(next, replies, from + 1);
                compile_step_conserves(machine, calls, replies[from]);
                compile_conserves_from(next, replies, from + 1);
                released_together(calls, rest.calls);
                match run.result {
                    Some(Ok(shader)) => {
                        let kept = Object::Shader(shader.id);
                        assert(rest.result == run.result);
                        assert(compile_account(next).add(later) == released(rest.calls).insert(
                            kept,
                        ));
                        assert(released(run.calls) == released(calls).add(released(rest.calls)));
                        assert(compile_account(progress).add(made) =~= released(calls).add(
                            compile_account(next).add(later),
                        ));
                        assert(released(calls).add(released(rest.calls).insert(kept)) =~= released(
                            calls,
                        ).add(released(rest.calls)).insert(kept));
                    },
                    Some(Err(_)) => {
                        assert(compile_account(progress).add(made) =~= released(run.calls));
                    },
                    None => {},
                }
            }
        },
        ProgressView::Finished(result, calls) => {
            assert(compile_account(progress).add(made) =~= compile_account(progress));
        },
    }
}

/// Whatever the host answers, a compilation that has ended has released
/// every object that the driver allocated for it, each once, but for the
/// object of the shader that it yields.
pub proof fn compile_conserves_objects(source: ShaderSourceView, replies: Seq<ReplyView>)
    ensures
        ({
            let run = transcript(CompilationView::start(source), replies);
            let made = allocated(CompilationView::start(source), replies);
            match run.result {
                Some(Ok(shader)) => made == released(run.calls).insert(Object::Shader(shader.id)),
                Some(Err(_)) => made == released(run.calls),
                None => true,
            }
        }),
{
    let start = CompilationView::start(source);
    nothing_released(start->Ask_1);
    compile_conserves_from(start, replies, 0);
    assert(compile_account(start) =~= Multiset::<Object>::empty());
    let made = allocated(start, replies);
    assert(compile_account(start).add(made) =~= made);
}

/// Whatever the host answers, a shader that is compiled anew is released
/// once, and of the objects that the driver allocates for the new
/// compilation only the one of the shader that it yields is left.
pub proof fn recompile_conserves_objects(shader: ShaderView, replies: Seq<ReplyView>)
    ensures
        ({
            let run = transcript(shader.recompile(), replies);
            let made = allocated(shader.recompile(), replies).insert(Object::Shader(shader.id));
            match run.result {
                Some(Ok(fresh)) => made == released(run.calls).insert(Object::Shader(fresh.id)),
                Some(Err(_)) => made == released(run.calls),
                None => true,
            }
        }),
{
    let start = shader.recompile();
    let batch = start->Ask_1;
    released_after(batch.drop_last(), batch.last());
    assert(batch.drop_last().push(batch.last()) =~= batch);
    released_after(Seq::empty(), CallView::DeleteShader { shader: shader.id });
    assert(batch.drop_last() =~= Seq::<CallView>::empty().push(
        CallView::DeleteShader { shader: shader.id },
    ));
    assert(compile_account(start) =~= Multiset::singleton(Object::Shader(shader.id)));
    compile_conserves_from(start, replies, 0);
    let made = allocated(start, replies);
    assert(compile_account(start).add(made) =~= made.insert(Object::Shader(shader.id)));
}

} // verus!
