//! Reloading a program from the sources of its shaders.
//!
//! A reload is all or nothing. Every shader of the program is compiled
//! afresh from its source, in order, and the fresh shaders are linked under
//! the program's name. Only when that link has succeeded is the old program
//! released, with its shaders, and the fresh one returned in its place.
//! Where a compilation or the link fails, the reload releases what it made
//! itself and hands the old program back as it was, with the error: the
//! caller goes on with the program that last worked.

use crate::driver::{
    append_calls, transcript, transcript_from, view_calls, Call, CallView, Model, Object,
    Progress, ProgressView, Reply, ReplyView,
};
use crate::error::{ShaderError, ShaderErrorView};
use crate::ledger::{
    allocated, allocated_by, allocated_from, nothing_released, one_more_shader, released,
    released_together, shader_objects,
};
use crate::program::{
    append_shader_releases, link_account, link_settled, link_step_conserves, releases,
    releases_release_the_program, shader_releases, shader_releases_release_the_shaders,
    LinkProgress, Linking, LinkingView, Program, ProgramView,
};
use crate::shader::{
    compile_account, compile_settled, compile_step_conserves, view_shaders, Compilation,
    CompilationView, CompileProgress, Shader, ShaderView,
};
use vstd::multiset::Multiset;
use vstd::prelude::*;

verus! {

/// The fragment output variable that a reloaded program is linked with.
pub open spec fn reload_output() -> Seq<char> {
    "outcolor"@
}

/// A reload that failed: the program as it was, and what went wrong.
#[derive(Debug, PartialEq, Eq)]
pub struct ReloadFailure {
    /// The program that was to be reloaded, untouched.
    pub program: Program,
    /// Why there is no fresh program.
    pub error: ShaderError,
}

/// A `ReloadFailure` in specifications.
pub struct ReloadFailureView {
    pub program: ProgramView,
    pub error: ShaderErrorView,
}

impl View for ReloadFailure {
    type V = ReloadFailureView;

    open spec fn view(&self) -> ReloadFailureView {
        ReloadFailureView { program: self.program@, error: self.error@ }
    }
}

/// What a reload is busy with.
#[derive(Debug, PartialEq, Eq)]
pub enum ReloadStage {
    /// The next shader is being compiled.
    Compiling(Compilation),
    /// Every shader is compiled and the fresh program is being linked.
    Linking(Linking),
}

/// A `ReloadStage` in specifications.
pub enum ReloadStageView {
    Compiling(CompilationView),
    Linking(LinkingView),
}

impl View for ReloadStage {
    type V = ReloadStageView;

    open spec fn view(&self) -> ReloadStageView {
        match *self {
            ReloadStage::Compiling(compilation) => ReloadStageView::Compiling(compilation@),
            ReloadStage::Linking(linking) => ReloadStageView::Linking(linking@),
        }
    }
}

/// A reload that is under way. It owns the program that it reloads, and the
/// fresh shaders that it has compiled so far.
#[derive(Debug, PartialEq, Eq)]
pub struct Reloading {
    old: Program,
    fresh: Vec<Shader>,
    stage: ReloadStage,
}

/// A `Reloading` in specifications. While the fresh program is being linked,
/// the fresh shaders are with the link and `fresh` is empty.
pub struct ReloadingView {
    pub old: ProgramView,
    pub fresh: Seq<ShaderView>,
    pub stage: ReloadStageView,
}

/// Where a reload stands after a step, in specifications.
pub type ReloadProgress = ProgressView<ReloadingView, ProgramView, ReloadFailureView>;

impl View for Reloading {
    type V = ReloadingView;

    closed spec fn view(&self) -> ReloadingView {
        ReloadingView { old: self.old@, fresh: view_shaders(self.fresh@), stage: self.stage@ }
    }
}

impl ReloadingView {
    /// The same progress, with `calls` to perform before its own.
    pub open spec fn after(calls: Seq<CallView>, progress: ReloadProgress) -> ReloadProgress {
        match progress {
            ProgressView::Ask(machine, more) => ProgressView::Ask(machine, calls + more),
            ProgressView::Finished(result, more) => ProgressView::Finished(result, calls + more),
        }
    }

    /// How the link of the fresh shaders counts for the reload. When it
    /// succeeds the old program is released and the fresh one is the result.
    /// When it fails, the link has released what was fresh, and the old
    /// program is handed back.
    pub open spec fn linking(old: ProgramView, linked: LinkProgress) -> ReloadProgress {
        match linked {
            ProgressView::Ask(linking, calls) => ProgressView::Ask(
                ReloadingView {
                    old,
                    fresh: Seq::empty(),
                    stage: ReloadStageView::Linking(linking),
                },
                calls,
            ),
            ProgressView::Finished(Ok(program), calls) => ProgressView::Finished(
                Ok(program),
                calls + releases(old.id, old.shaders),
            ),
            ProgressView::Finished(Err(error), calls) => ProgressView::Finished(
                Err(ReloadFailureView { program: old, error }),
                calls,
            ),
        }
    }

    /// What comes next when `fresh` holds the shaders compiled so far: the
    /// compilation of the next source, or, when none is left, the link.
    pub open spec fn proceed(old: ProgramView, fresh: Seq<ShaderView>) -> ReloadProgress {
        if fresh.len() < old.shaders.len() {
            let started = CompilationView::start(old.shaders[fresh.len() as int].source);
            ProgressView::Ask(
                ReloadingView {
                    old,
                    fresh,
                    stage: ReloadStageView::Compiling(started->Ask_0),
                },
                started->Ask_1,
            )
        } else {
            Self::linking(old, LinkingView::start(old.name, reload_output(), fresh))
        }
    }

    /// How a step of the compilation at hand counts for the reload. A shader
    /// that compiled joins the fresh ones. A failure ends the reload: the
    /// fresh shaders are released and the old program is handed back.
    pub open spec fn compiling(
        old: ProgramView,
        fresh: Seq<ShaderView>,
        compiled: CompileProgress,
    ) -> ReloadProgress {
        match compiled {
            ProgressView::Ask(compilation, calls) => ProgressView::Ask(
                ReloadingView { old, fresh, stage: ReloadStageView::Compiling(compilation) },
                calls,
            ),
            ProgressView::Finished(Ok(shader), calls) => Self::after(
                calls,
                Self::proceed(old, fresh.push(shader)),
            ),
            ProgressView::Finished(Err(error), calls) => ProgressView::Finished(
                Err(ReloadFailureView { program: old, error }),
                calls + shader_releases(fresh),
            ),
        }
    }

    /// A reload begins with the compilation of the first source.
    pub open spec fn start(old: ProgramView) -> ReloadProgress {
        Self::proceed(old, Seq::empty())
    }
}

impl Model for ReloadingView {
    type Output = ProgramView;

    type Failure = ReloadFailureView;

    open spec fn step(self, reply: ReplyView) -> ReloadProgress {
        match self.stage {
            ReloadStageView::Compiling(compilation) => Self::compiling(
                self.old,
                self.fresh,
                compilation.step(reply),
            ),
            ReloadStageView::Linking(linking) => Self::linking(self.old, linking.step(reply)),
        }
    }
}

impl Reloading {
    /// Puts `calls` before the calls of `progress`.
    fn after(calls: Vec<Call>, progress: Progress<Reloading, Program, ReloadFailure>) -> (joined:
        Progress<Reloading, Program, ReloadFailure>)
        ensures
            joined@ == ReloadingView::after(view_calls(calls@), progress@),
    {
        let mut calls = calls;
        match progress {
            Progress::Ask(machine, more) => {
                append_calls(&mut calls, more);
                Progress::Ask(machine, calls)
            },
            Progress::Finished(result, more) => {
                append_calls(&mut calls, more);
                Progress::Finished(result, calls)
            },
        }
    }

    /// Takes a step of the link into the reload.
    fn linking(old: Program, linked: Progress<Linking, Program, ShaderError>) -> (progress:
        Progress<Reloading, Program, ReloadFailure>)
        ensures
            progress@ == ReloadingView::linking(old@, linked@),
    {
        match linked {
            Progress::Ask(linking, calls) => {
                let fresh: Vec<Shader> = Vec::new();
                assert(view_shaders(fresh@) =~= Seq::<ShaderView>::empty());
                Progress::Ask(Reloading { old, fresh, stage: ReloadStage::Linking(linking) }, calls)
            },
            Progress::Finished(Ok(program), calls) => {
                let mut calls = calls;
                append_calls(&mut calls, old.release());
                Progress::Finished(Ok(program), calls)
            },
            Progress::Finished(Err(error), calls) => Progress::Finished(
                Err(ReloadFailure { program: old, error }),
                calls,
            ),
        }
    }

    /// Begins what comes next: the next compilation, or the link.
    fn proceed(old: Program, fresh: Vec<Shader>) -> (progress: Progress<
        Reloading,
        Program,
        ReloadFailure,
    >)
        ensures
            progress@ == ReloadingView::proceed(old@, view_shaders(fresh@)),
    {
        if fresh.len() < old.shaders().len() {
            let source = old.shaders()[fresh.len()].source().duplicate();
            let (compilation, calls) = Compilation::begin(source);
            Progress::Ask(
                Reloading { old, fresh, stage: ReloadStage::Compiling(compilation) },
                calls,
            )
        } else {
            let name = String::from_str(old.name());
            Reloading::linking(old, Program::link(name, "outcolor", fresh))
        }
    }

    /// Takes a step of the compilation at hand into the reload.
    fn compiling(
        old: Program,
        fresh: Vec<Shader>,
        compiled: Progress<Compilation, Shader, ShaderError>,
    ) -> (progress: Progress<Reloading, Program, ReloadFailure>)
        ensures
            progress@ == ReloadingView::compiling(old@, view_shaders(fresh@), compiled@),
    {
        match compiled {
            Progress::Ask(compilation, calls) => Progress::Ask(
                Reloading { old, fresh, stage: ReloadStage::Compiling(compilation) },
                calls,
            ),
            Progress::Finished(Ok(shader), calls) => {
                let mut fresh = fresh;
                let ghost before = view_shaders(fresh@);
                fresh.push(shader);
                assert(view_shaders(fresh@) =~= before.push(shader@));
                Reloading::after(calls, Reloading::proceed(old, fresh))
            },
            Progress::Finished(Err(error), calls) => {
                let mut calls = calls;
                append_shader_releases(&mut calls, &fresh);
                Progress::Finished(Err(ReloadFailure { program: old, error }), calls)
            },
        }
    }

    /// Takes the reply to the last call and says how the reload goes on.
    pub fn step(self, reply: Reply) -> (progress: Progress<Reloading, Program, ReloadFailure>)
        ensures
            progress@ == self@.step(reply@),
    {
        match self.stage {
            ReloadStage::Compiling(compilation) => Reloading::compiling(
                self.old,
                self.fresh,
                compilation.step(reply),
            ),
            ReloadStage::Linking(linking) => Reloading::linking(self.old, linking.step(reply)),
        }
    }
}

impl Program {
    /// Begins to reload the program: to compile its shaders afresh from their
    /// sources and to link them under the same name, with `outcolor` as the
    /// fragment output.
    ///
    /// The program passes to the reload. It comes back in the failure where
    /// the reload fails, untouched; where the reload succeeds it has been
    /// released and the fresh program takes its place.
    pub fn reload(self) -> (progress: Progress<Reloading, Program, ReloadFailure>)
        ensures
            progress@ == ReloadingView::start(self@),
    {
        let fresh: Vec<Shader> = Vec::new();
        assert(view_shaders(fresh@) =~= Seq::<ShaderView>::empty());
        Reloading::proceed(self, fresh)
    }
}

/// Whether `fresh` was compiled from the sources of `old`, one for one and in
/// the same order.
pub open spec fn same_sources(fresh: Seq<ShaderView>, old: Seq<ShaderView>) -> bool {
    &&& fresh.len() == old.len()
    &&& forall|i: int| 0 <= i < fresh.len() ==> (#[trigger] fresh[i]).source == old[i].source
}

/// Whether `fresh` is `old` reloaded: a program of the same name, made of
/// the same sources.
pub open spec fn reloaded_from(old: ProgramView, fresh: ProgramView) -> bool {
    &&& fresh.name == old.name
    &&& same_sources(fresh.shaders, old.shaders)
}

/// Whether `calls` ends with `tail`.
pub open spec fn ends_with(calls: Seq<CallView>, tail: Seq<CallView>) -> bool {
    &&& calls.len() >= tail.len()
    &&& calls.skip(calls.len() - tail.len()) == tail
}

/// What holds of a reload of `old` wherever it stands.
spec fn on_course(old: ProgramView, progress: ReloadProgress) -> bool {
    match progress {
        ProgressView::Ask(machine, _) => {
            &&& machine.old == old
            &&& match machine.stage {
                ReloadStageView::Compiling(compilation) => {
                    &&& machine.fresh.len() < old.shaders.len()
                    &&& same_sources(machine.fresh, old.shaders.take(machine.fresh.len() as int))
                    &&& compilation.source == old.shaders[machine.fresh.len() as int].source
                },
                ReloadStageView::Linking(linking) => {
                    &&& linking.request.name == old.name
                    &&& same_sources(linking.request.shaders, old.shaders)
                },
            }
        },
        ProgressView::Finished(Ok(fresh), calls) => {
            &&& reloaded_from(old, fresh)
            &&& ends_with(calls, releases(old.id, old.shaders))
        },
        ProgressView::Finished(Err(failure), _) => failure.program == old,
    }
}

proof fn linking_stays_on_course(old: ProgramView, linked: LinkProgress)
    requires
        match linked {
            ProgressView::Ask(linking, _) => linking.request.name == old.name && same_sources(
                linking.request.shaders,
                old.shaders,
            ),
            ProgressView::Finished(Ok(fresh), _) => reloaded_from(old, fresh),
            ProgressView::Finished(Err(_), _) => true,
        },
    ensures
        on_course(old, ReloadingView::linking(old, linked)),
{
    if let ProgressView::Finished(Ok(fresh), calls) = linked {
        let all = calls + releases(old.id, old.shaders);
        assert(all.skip(all.len() - releases(old.id, old.shaders).len()) =~= releases(
            old.id,
            old.shaders,
        ));
    }
}

proof fn proceeding_stays_on_course(old: ProgramView, fresh: Seq<ShaderView>)
    requires
        fresh.len() <= old.shaders.len(),
        same_sources(fresh, old.shaders.take(fresh.len() as int)),
    ensures
        on_course(old, ReloadingView::proceed(old, fresh)),
{
    if fresh.len() >= old.shaders.len() {
        assert(old.shaders.take(fresh.len() as int) =~= old.shaders);
        linking_stays_on_course(old, LinkingView::start(old.name, reload_output(), fresh));
    }
}

proof fn putting_before_stays_on_course(
    old: ProgramView,
    calls: Seq<CallView>,
    progress: ReloadProgress,
)
    requires
        on_course(old, progress),
    ensures
        on_course(old, ReloadingView::after(calls, progress)),
{
    if let ProgressView::Finished(Ok(fresh), more) = progress {
        let tail = releases(old.id, old.shaders);
        let all = calls + more;
        assert(all.skip(all.len() - tail.len()) =~= more.skip(more.len() - tail.len()));
    }
}

proof fn step_stays_on_course(old: ProgramView, machine: ReloadingView, reply: ReplyView)
    requires
        on_course(old, ProgressView::Ask(machine, Seq::empty())),
    ensures
        on_course(old, machine.step(reply)),
{
    match machine.stage {
        ReloadStageView::Compiling(compilation) => {
            let compiled = compilation.step(reply);
            if let ProgressView::Finished(Ok(shader), calls) = compiled {
                let fresh = machine.fresh.push(shader);
                assert(shader.source == compilation.source);
                assert(same_sources(fresh, old.shaders.take(fresh.len() as int)));
                proceeding_stays_on_course(old, fresh);
                putting_before_stays_on_course(old, calls, ReloadingView::proceed(old, fresh));
            }
        },
        ReloadStageView::Linking(linking) => {
            linking_stays_on_course(old, linking.step(reply));
        },
    }
}

proof fn course_is_kept(
    old: ProgramView,
    progress: ReloadProgress,
    replies: Seq<ReplyView>,
    from: int,
)
    requires
        on_course(old, progress),
    ensures
        ({
            let run = transcript_from(progress, replies, from);
            match run.result {
                Some(Ok(fresh)) => reloaded_from(old, fresh) && ends_with(
                    run.calls,
                    releases(old.id, old.shaders),
                ),
                Some(Err(failure)) => failure.program == old,
                None => true,
            }
        }),
    decreases replies.len() - from,
{
    if let ProgressView::Ask(machine, calls) = progress {
        if 0 <= from < replies.len() {
            let next = machine.step(replies[from]);
            step_stays_on_course(old, machine, replies[from]);
            course_is_kept(old, next, replies, from + 1);
            let rest = transcript_from(next, replies, from + 1);
            if rest.result matches Some(Ok(_)) {
                let tail = releases(old.id, old.shaders);
                let all = calls + rest.calls;
                assert(all.skip(all.len() - tail.len()) =~= rest.calls.skip(
                    rest.calls.len() - tail.len(),
                ));
            }
        }
    }
}

/// Whatever the host answers, a reload ends in one of two ways. Either it
/// yields a program of the same name, made of the same sources in the same
/// order, and its last calls release the old program and then the old
/// shaders. Or it fails and hands back the old program, unchanged.
pub proof fn reload_replaces_or_hands_back(old: ProgramView, replies: Seq<ReplyView>)
    ensures
        ({
            let run = transcript(ReloadingView::start(old), replies);
            match run.result {
                Some(Ok(fresh)) => reloaded_from(old, fresh) && ends_with(
                    run.calls,
                    releases(old.id, old.shaders),
                ),
                Some(Err(failure)) => failure.program == old,
                None => true,
            }
        }),
{
    assert(old.shaders.take(0) =~= Seq::<ShaderView>::empty());
    proceeding_stays_on_course(old, Seq::empty());
    course_is_kept(old, ReloadingView::start(old), replies, 0);
}

/// Whether the replies for the shader at `index` report that it was read,
/// allocated and compiled.
pub open spec fn compiled(replies: Seq<ReplyView>, index: int) -> bool {
    &&& replies[3 * index] is Text
    &&& replies[3 * index + 1] is Handle
    &&& replies[3 * index + 2] is Value
    &&& replies[3 * index + 2]->Value_0 != 0
}

/// Whether `replies` report `count` shaders that compiled, one after the
/// other, and then a program that linked.
pub open spec fn all_accepted(count: int, replies: Seq<ReplyView>) -> bool {
    &&& replies.len() >= 3 * count + 3
    &&& forall|index: int| 0 <= index < count ==> #[trigger] compiled(replies, index)
    &&& replies[3 * count] is Handle
    &&& replies[3 * count + 1] is Value
    &&& replies[3 * count + 2] is Value
    &&& replies[3 * count + 2]->Value_0 != 0
}

/// The program that a reload of `old` yields when it is answered with
/// `replies` that are all accepting: it wraps the handles that the driver
/// allocated, and bears the old name and sources.
pub open spec fn reloaded(old: ProgramView, replies: Seq<ReplyView>) -> ProgramView {
    ProgramView {
        name: old.name,
        id: replies[3 * (old.shaders.len() as int)]->Handle_0,
        shaders: Seq::new(
            old.shaders.len(),
            |i: int| ShaderView { id: replies[3 * i + 1]->Handle_0, source: old.shaders[i].source },
        ),
    }
}

proof fn putting_before_keeps_the_result(
    calls: Seq<CallView>,
    progress: ReloadProgress,
    replies: Seq<ReplyView>,
    from: int,
)
    ensures
        transcript_from(ReloadingView::after(calls, progress), replies, from).result
            == transcript_from(progress, replies, from).result,
{
    reveal_with_fuel(transcript_from, 2);
}

proof fn accepted_from(old: ProgramView, fresh: Seq<ShaderView>, replies: Seq<ReplyView>)
    requires
        old.shaders.len() > 0,
        all_accepted(old.shaders.len() as int, replies),
        fresh.len() <= old.shaders.len(),
        fresh == reloaded(old, replies).shaders.take(fresh.len() as int),
    ensures
        transcript_from(
            ReloadingView::proceed(old, fresh),
            replies,
            3 * (fresh.len() as int),
        ).result
            == Some(Ok::<ProgramView, ReloadFailureView>(reloaded(old, replies))),
    decreases old.shaders.len() - fresh.len(),
{
    let done = fresh.len() as int;
    if done < old.shaders.len() {
        assert(compiled(replies, done));
        let shader = ShaderView {
            id: replies[3 * done + 1]->Handle_0,
            source: old.shaders[done].source,
        };
        let more = fresh.push(shader);
        assert(more =~= reloaded(old, replies).shaders.take(done + 1));
        accepted_from(old, more, replies);
        let next = ReloadingView::proceed(old, more);
        reveal_with_fuel(transcript_from, 4);
        putting_before_keeps_the_result(Seq::empty(), next, replies, 3 * done + 3);
    } else {
        assert(fresh =~= reloaded(old, replies).shaders);
        reveal_with_fuel(transcript_from, 4);
    }
}

/// A reload in which the driver accepts every source and the link succeeds:
/// it yields the fresh program, which bears the old name and sources.
pub proof fn accepted_reload_succeeds(old: ProgramView, replies: Seq<ReplyView>)
    requires
        old.shaders.len() > 0,
        all_accepted(old.shaders.len() as int, replies),
    ensures
        transcript(ReloadingView::start(old), replies).result == Some(
            Ok::<ProgramView, ReloadFailureView>(reloaded(old, replies)),
        ),
        reloaded_from(old, reloaded(old, replies)),
{
    assert(Seq::<ShaderView>::empty() =~= reloaded(old, replies).shaders.take(0));
    accepted_from(old, Seq::empty(), replies);
}

impl ReloadingView {
    /// The objects that a reload holds at this stage: those of the old
    /// program, the fresh shaders, and what the compilation or the link at
    /// hand holds.
    pub open spec fn holds(self) -> Multiset<Object> {
        self.old.objects().add(shader_objects(self.fresh)).add(
            match self.stage {
                ReloadStageView::Compiling(compilation) => compilation.holds(),
                ReloadStageView::Linking(linking) => linking.holds(),
            },
        )
    }
}

/// The objects that are accounted for where a reload stands at `progress`,
/// before the calls of `progress` are performed: what those calls release,
/// and what the reload holds, or its result owns or hands back, after them.
pub open spec fn reload_account(progress: ReloadProgress) -> Multiset<Object> {
    match progress {
        ProgressView::Ask(machine, calls) => machine.holds().add(released(calls)),
        ProgressView::Finished(Ok(program), calls) => released(calls).add(program.objects()),
        ProgressView::Finished(Err(failure), calls) => released(calls).add(
            failure.program.objects(),
        ),
    }
}

/// Whether the compilation or the link at hand is settled, and the fresh
/// shaders are with the link while it is under way.
pub open spec fn reload_settled(progress: ReloadProgress) -> bool {
    match progress {
        ProgressView::Ask(machine, calls) => match machine.stage {
            ReloadStageView::Compiling(compilation) => compile_settled(
                ProgressView::Ask(compilation, calls),
            ),
            ReloadStageView::Linking(linking) => {
                &&& link_settled(ProgressView::Ask(linking, calls))
                &&& machine.fresh.len() == 0
            },
        },
        ProgressView::Finished(_, _) => true,
    }
}

proof fn linking_conserves(old: ProgramView, linked: LinkProgress)
    requires
        link_settled(linked),
    ensures
        reload_settled(ReloadingView::linking(old, linked)),
        reload_account(ReloadingView::linking(old, linked)) == old.objects().add(
            link_account(linked),
        ),
{
    let next = ReloadingView::linking(old, linked);
    match linked {
        ProgressView::Finished(Ok(program), calls) => {
            released_together(calls, releases(old.id, old.shaders));
            releases_release_the_program(old.id, old.shaders);
        },
        _ => {},
    }
    assert(reload_account(next) =~= old.objects().add(link_account(linked)));
}

proof fn proceeding_conserves(old: ProgramView, fresh: Seq<ShaderView>, calls: Seq<CallView>)
    ensures
        reload_settled(ReloadingView::after(calls, ReloadingView::proceed(old, fresh))),
        reload_account(ReloadingView::after(calls, ReloadingView::proceed(old, fresh)))
            == old.objects().add(shader_objects(fresh)).add(released(calls)),
{
    let next = ReloadingView::proceed(old, fresh);
    let joined = ReloadingView::after(calls, next);
    if fresh.len() < old.shaders.len() {
        let batch = next->Ask_1;
        nothing_released(batch);
        released_together(calls, batch);
    } else {
        let linked = LinkingView::start(old.name, reload_output(), fresh);
        match linked {
            ProgressView::Ask(_, batch) => {
                nothing_released(batch);
                released_together(calls, batch);
            },
            ProgressView::Finished(_, batch) => {
                nothing_released(batch);
                released_together(calls, batch);
            },
        }
        linking_conserves(old, linked);
    }
    assert(reload_account(joined) =~= old.objects().add(shader_objects(fresh)).add(
        released(calls),
    ));
}

/// A step of a reload neither makes nor loses an object: what it held, with
/// what the driver allocated in answer, is what is accounted for after the
/// step.
pub proof fn reload_step_conserves(machine: ReloadingView, calls: Seq<CallView>, reply: ReplyView)
    requires
        reload_settled(ProgressView::Ask(machine, calls)),
    ensures
        reload_settled(machine.step(reply)),
        machine.holds().add(allocated_by(calls, reply)) == reload_account(machine.step(reply)),
{
    let next = machine.step(reply);
    let old = machine.old;
    let fresh = machine.fresh;
    let before = machine.holds().add(allocated_by(calls, reply));
    match machine.stage {
        ReloadStageView::Compiling(compilation) => {
            let compiled = compilation.step(reply);
            compile_step_conserves(compilation, calls, reply);
            let held = old.objects().add(shader_objects(fresh));
            assert(before =~= held.add(compile_account(compiled)));
            match compiled {
                ProgressView::Ask(_, _) => {
                    assert(reload_account(next) =~= held.add(compile_account(compiled)));
                },
                ProgressView::Finished(Ok(shader), more) => {
                    one_more_shader(fresh, shader);
                    proceeding_conserves(old, fresh.push(shader), more);
                    assert(reload_account(next) =~= held.add(compile_account(compiled)));
                },
                ProgressView::Finished(Err(_), more) => {
                    released_together(more, shader_releases(fresh));
                    shader_releases_release_the_shaders(fresh);
                    assert(reload_account(next) =~= held.add(compile_account(compiled)));
                },
            }
        },
        ReloadStageView::Linking(linking) => {
            link_step_conserves(linking, calls, reply);
            linking_conserves(old, linking.step(reply));
            assert(shader_objects(fresh) =~= Multiset::<Object>::empty());
            assert(before =~= reload_account(next));
        },
    }
}

proof fn reload_conserves_from(progress: ReloadProgress, replies: Seq<ReplyView>, from: int)
    requires
        reload_settled(progress),
    ensures
        ({
            let run = transcript_from(progress, replies, from);
            let made = allocated_from(progress, replies, from);
            match run.result {
                Some(Ok(program)) => reload_account(progress).add(made) == released(
                    run.calls,
                ).add(program.objects()),
                Some(Err(failure)) => reload_account(progress).add(made) == released(
                    run.calls,
                ).add(failure.program.objects()),
                None => true,
            }
        }),
    decreases replies.len() - from,
{
    let run = transcript_from(progress, replies, from);
    let made = allocated_from(progress, replies, from);
    match progress {
        ProgressView::Ask(machine, calls) => {
            if 0 <= from < replies.len() {
                let next = machine.step(replies[from]);
                let rest = transcript_from(next, replies, from + 1);
                let later = allocated_from(next, replies, from + 1);
                reload_step_conserves(machine, calls, replies[from]);
                reload_conserves_from(next, replies, from + 1);
                released_together(calls, rest.calls);
                assert(rest.result == run.result);
                assert(released(run.calls) == released(calls).add(released(rest.calls)));
                assert(reload_account(progress).add(made) =~= released(calls).add(
                    reload_account(next).add(later),
                ));
                match run.result {
                    Some(Ok(program)) => {
                        assert(released(calls).add(released(rest.calls).add(program.objects()))
                            =~= released(calls).add(released(rest.calls)).add(program.objects()));
                    },
                    Some(Err(failure)) => {
                        assert(released(calls).add(
                            released(rest.calls).add(failure.program.objects()),
                        ) =~= released(calls).add(released(rest.calls)).add(
                            failure.program.objects(),
                        ));
                    },
                    None => {},
                }
            }
        },
        ProgressView::Finished(_, _) => {
            assert(reload_account(progress).add(made) =~= reload_account(progress));
        },
    }
}

/// Whatever the host answers, a reload that has ended has released every
/// object that it no longer needs, each once, and none that it still needs.
/// One that succeeded has released the old program and its shaders and
/// nothing of the fresh program. One that failed has released exactly what
/// the driver allocated for it, so that nothing of the old program, which it
/// hands back, is gone.
pub proof fn reload_conserves_objects(old: ProgramView, replies: Seq<ReplyView>)
    ensures
        ({
            let run = transcript(ReloadingView::start(old), replies);
            let made = allocated(ReloadingView::start(old), replies);
            match run.result {
                Some(Ok(program)) => old.objects().add(made) == released(run.calls).add(
                    program.objects(),
                ),
                Some(Err(failure)) => failure.program == old && made == released(run.calls),
                None => true,
            }
        }),
{
    let start = ReloadingView::start(old);
    let run = transcript(start, replies);
    let made = allocated(start, replies);
    proceeding_conserves(old, Seq::empty(), Seq::empty());
    assert(ReloadingView::after(Seq::empty(), start) =~= start) by {
        match start {
            ProgressView::Ask(_, calls) => {
                assert(Seq::<CallView>::empty() + calls =~= calls);
            },
            ProgressView::Finished(_, calls) => {
                assert(Seq::<CallView>::empty() + calls =~= calls);
            },
        }
    }
    assert(reload_account(start) =~= old.objects());
    reload_conserves_from(start, replies, 0);
    reload_replaces_or_hands_back(old, replies);
    if let Some(Err(failure)) = run.result {
        assert(old.objects().add(made) == released(run.calls).add(old.objects()));
        assert forall|object: Object| made.count(object) == released(run.calls).count(
            object,
        ) by {
            assert(old.objects().add(made).count(object) == released(run.calls).add(
                old.objects(),
            ).count(object));
        }
        assert(made =~= released(run.calls));
    }
}

} // verus!
