//! Shader programs and their linking.
//!
//! A program is linked in up to five exchanges with the host: a program
//! object is allocated; every shader is attached in order, the fragment
//! output is bound to colour output 0 and the `position` attribute is looked
//! up; the attribute's array is enabled and described and the program is
//! linked; and where the driver reports failure its info log is fetched.
//! A link that fails releases the program object and the shaders that were
//! handed to it.

use crate::driver::{
    append_call, append_calls, no_calls, releases_nothing, single, transcript, transcript_from,
    view_calls, Call, CallView, Model, Object, Progress, ProgressView, Reply, ReplyView, Transcript,
};
use crate::error::{ShaderError, ShaderErrorView};
use crate::ledger::{
    allocated, allocated_by, allocated_from, asks_for_an_object, nothing_released, released,
    released_after, released_together, shader_objects,
};
use crate::log::{LogFetch, LogFetchView};
use crate::shader::{view_shaders, Shader, ShaderView};
use crate::uniform::{Attrib, ProgramUniformContext, Uniform};
use vstd::multiset::Multiset;
use vstd::prelude::*;

verus! {

/// A linked program object, with the shaders that it was linked from.
///
/// A `Program` comes into being only where a link ends in success, so its
/// handle names an object whose link status the driver reported as good, and
/// it owns at least one shader.
#[derive(Debug, PartialEq, Eq)]
#[must_use]
pub struct Program {
    name: String,
    id: u32,
    shaders: Vec<Shader>,
}

/// A `Program` in specifications.
pub struct ProgramView {
    pub name: Seq<char>,
    pub id: u32,
    pub shaders: Seq<ShaderView>,
}

impl View for Program {
    type V = ProgramView;

    closed spec fn view(&self) -> ProgramView {
        ProgramView { name: self.name@, id: self.id, shaders: view_shaders(self.shaders@) }
    }
}

impl Program {
    /// A program owns at least one shader.
    #[verifier::type_invariant]
    spec fn owns_a_shader(self) -> bool {
        self.shaders@.len() > 0
    }
}

/// The vertex attribute that every program is laid out for.
pub open spec fn position_name() -> Seq<char> {
    "position"@
}

/// The log with which a link of no shaders fails.
pub open spec fn no_shaders_log() -> Seq<char> {
    "no shaders to link"@
}

/// The array index that the driver is given for an attribute at `location`:
/// the location itself, or for a negative one the unsigned number with the
/// same 32 bits.
pub open spec fn array_index(location: i32) -> u32 {
    if location >= 0 {
        location as u32
    } else {
        (location + 0x1_0000_0000) as u32
    }
}

/// The calls that attach `shaders` to `program`, in order.
pub open spec fn attachments(program: u32, shaders: Seq<ShaderView>) -> Seq<CallView> {
    Seq::new(shaders.len(), |i: int| CallView::AttachShader { program, shader: shaders[i].id })
}

/// The calls that release `shaders`, in order.
pub open spec fn shader_releases(shaders: Seq<ShaderView>) -> Seq<CallView> {
    Seq::new(shaders.len(), |i: int| CallView::DeleteShader { shader: shaders[i].id })
}

/// The calls that release `program` and then `shaders`, in order.
pub open spec fn releases(program: u32, shaders: Seq<ShaderView>) -> Seq<CallView> {
    seq![CallView::DeleteProgram { program }] + shader_releases(shaders)
}

/// What the driver's answer `location` to a lookup of the attribute `name`
/// in the program called `program` means: -1 says that there is no such
/// attribute, which is an error; any other answer is the attribute's place.
pub open spec fn resolved_attrib(
    name: Seq<char>,
    program: Seq<char>,
    location: i32,
) -> Result<u32, ShaderErrorView> {
    if location == -1 {
        Err(ShaderErrorView::RequiredAttributeMissing { name, program })
    } else {
        Ok(array_index(location))
    }
}

/// What the driver's answer `location` to a lookup of a uniform means: -1
/// says that there is no such uniform; any other answer is the uniform's
/// location.
pub open spec fn resolved_uniform(location: i32) -> Option<i32> {
    if location == -1 {
        None
    } else {
        Some(location)
    }
}

/// As `resolved_uniform`, for the uniform `name` that the program called
/// `program` cannot do without: its absence is an error.
pub open spec fn required_uniform(
    name: Seq<char>,
    program: Seq<char>,
    location: i32,
) -> Result<i32, ShaderErrorView> {
    match resolved_uniform(location) {
        Some(found) => Ok(found),
        None => Err(ShaderErrorView::RequiredUniformMissing { name, program }),
    }
}

/// How far a link has come.
#[derive(Debug, PartialEq, Eq)]
pub enum LinkStage {
    /// A program object is being allocated.
    Creating,
    /// The shaders are attached to `program`, the output is bound and the
    /// location of `position` was asked for.
    Resolving { program: u32 },
    /// `program` was linked and its link status asked for.
    Linking { program: u32 },
    /// Linking failed and the info log of `program` is being fetched.
    ReadingLog { program: u32, fetch: LogFetch },
}

/// A `LinkStage` in specifications.
pub enum LinkStageView {
    Creating,
    Resolving { program: u32 },
    Linking { program: u32 },
    ReadingLog { program: u32, fetch: LogFetchView },
}

impl View for LinkStage {
    type V = LinkStageView;

    open spec fn view(&self) -> LinkStageView {
        match *self {
            LinkStage::Creating => LinkStageView::Creating,
            LinkStage::Resolving { program } => LinkStageView::Resolving { program },
            LinkStage::Linking { program } => LinkStageView::Linking { program },
            LinkStage::ReadingLog { program, fetch } => LinkStageView::ReadingLog {
                program,
                fetch: fetch@,
            },
        }
    }
}

/// What is to be linked: the name of the program, the name of its fragment
/// output variable, and the shaders. It owns the shaders.
#[derive(Debug, PartialEq, Eq)]
pub struct LinkRequest {
    name: String,
    output: String,
    shaders: Vec<Shader>,
}

/// A `LinkRequest` in specifications.
pub struct LinkRequestView {
    pub name: Seq<char>,
    pub output: Seq<char>,
    pub shaders: Seq<ShaderView>,
}

impl View for LinkRequest {
    type V = LinkRequestView;

    closed spec fn view(&self) -> LinkRequestView {
        LinkRequestView {
            name: self.name@,
            output: self.output@,
            shaders: view_shaders(self.shaders@),
        }
    }
}

impl LinkRequest {
    /// A link has at least one shader to link.
    #[verifier::type_invariant]
    spec fn holds_a_shader(self) -> bool {
        self.shaders@.len() > 0
    }
}

/// A link that is under way.
#[derive(Debug, PartialEq, Eq)]
pub struct Linking {
    request: LinkRequest,
    stage: LinkStage,
}

/// A `Linking` in specifications.
pub struct LinkingView {
    pub request: LinkRequestView,
    pub stage: LinkStageView,
}

/// Where a link stands after a step, in specifications.
pub type LinkProgress = ProgressView<LinkingView, ProgramView, ShaderErrorView>;

impl View for Linking {
    type V = LinkingView;

    closed spec fn view(&self) -> LinkingView {
        LinkingView { request: self.request@, stage: self.stage@ }
    }
}

impl LinkRequestView {
    /// The link of this request at `stage`.
    pub open spec fn at(self, stage: LinkStageView) -> LinkingView {
        LinkingView { request: self, stage }
    }

    /// What is set up on a fresh `program` before it is linked, up to the
    /// lookup of `position`.
    pub open spec fn preparation(self, program: u32) -> Seq<CallView> {
        attachments(program, self.shaders) + seq![
            CallView::BindFragDataLocation { program, color: 0, name: self.output },
            CallView::GetAttribLocation { program, name: position_name() },
        ]
    }

    /// The link has failed with `error`: after `calls`, `program` and the
    /// shaders are released.
    pub open spec fn fail(
        self,
        program: u32,
        error: ShaderErrorView,
        calls: Seq<CallView>,
    ) -> LinkProgress {
        ProgressView::Finished(Err(error), calls + releases(program, self.shaders))
    }

    /// How a link that failed on `program` goes on while its log is being
    /// fetched: it ends when the fetch ends.
    pub open spec fn after_log(
        self,
        program: u32,
        fetched: ProgressView<LogFetchView, Seq<char>, ShaderErrorView>,
    ) -> LinkProgress {
        match fetched {
            ProgressView::Ask(fetch, calls) => ProgressView::Ask(
                self.at(LinkStageView::ReadingLog { program, fetch }),
                calls,
            ),
            ProgressView::Finished(Ok(log), calls) => self.fail(
                program,
                ShaderErrorView::LinkFailed { log },
                calls,
            ),
            ProgressView::Finished(Err(error), calls) => self.fail(program, error, calls),
        }
    }
}

impl LinkingView {
    /// A link of no shaders fails at once, without a call. Any other link
    /// begins by allocating a program object.
    pub open spec fn start(
        name: Seq<char>,
        output: Seq<char>,
        shaders: Seq<ShaderView>,
    ) -> LinkProgress {
        if shaders.len() == 0 {
            ProgressView::Finished(
                Err(ShaderErrorView::LinkFailed { log: no_shaders_log() }),
                Seq::empty(),
            )
        } else {
            ProgressView::Ask(
                (LinkRequestView { name, output, shaders }).at(LinkStageView::Creating),
                seq![CallView::CreateProgram],
            )
        }
    }

    /// The layout of `position` at `location`, three tightly packed floats
    /// per vertex, and then the link itself.
    pub open spec fn layout_and_link(program: u32, location: i32) -> Seq<CallView> {
        seq![
            CallView::EnableVertexAttribArray { index: array_index(location) },
            CallView::VertexAttribPointer {
                index: array_index(location),
                components: 3,
                stride: 0,
            },
            CallView::LinkProgram { program },
            CallView::GetLinkStatus { program },
        ]
    }
}

impl Model for LinkingView {
    type Output = ProgramView;

    type Failure = ShaderErrorView;

    open spec fn step(self, reply: ReplyView) -> LinkProgress {
        let request = self.request;
        match (self.stage, reply) {
            (LinkStageView::Creating, ReplyView::Handle(program)) => ProgressView::Ask(
                request.at(LinkStageView::Resolving { program }),
                request.preparation(program),
            ),
            (LinkStageView::Creating, _) => ProgressView::Finished(
                Err(ShaderErrorView::UnexpectedReply),
                shader_releases(request.shaders),
            ),
            (LinkStageView::Resolving { program }, ReplyView::Value(location)) => {
                ProgressView::Ask(
                    request.at(LinkStageView::Linking { program }),
                    Self::layout_and_link(program, location),
                )
            },
            (LinkStageView::Resolving { program }, _) => request.fail(
                program,
                ShaderErrorView::UnexpectedReply,
                Seq::empty(),
            ),
            (LinkStageView::Linking { program }, ReplyView::Value(status)) => {
                if status != 0 {
                    ProgressView::Finished(
                        Ok(
                            ProgramView {
                                name: request.name,
                                id: program,
                                shaders: request.shaders,
                            },
                        ),
                        Seq::empty(),
                    )
                } else {
                    request.after_log(program, LogFetchView::start(Object::Program(program)))
                }
            },
            (LinkStageView::Linking { program }, _) => request.fail(
                program,
                ShaderErrorView::UnexpectedReply,
                Seq::empty(),
            ),
            (LinkStageView::ReadingLog { program, fetch }, _) => request.after_log(
                program,
                fetch.step(reply),
            ),
        }
    }
}

/// The array index for an attribute at `location`.
pub(crate) fn index_of(location: i32) -> (index: u32)
    ensures
        index == array_index(location),
{
    if location >= 0 {
        location as u32
    } else {
        let lifted: i64 = location as i64 + 0x1_0000_0000;
        lifted as u32
    }
}

/// Appends to `calls` the calls that release `shaders`, in order.
pub(crate) fn append_shader_releases(calls: &mut Vec<Call>, shaders: &Vec<Shader>)
    ensures
        view_calls(final(calls)@) == view_calls(old(calls)@) + shader_releases(
            view_shaders(shaders@),
        ),
{
    let ghost before = view_calls(calls@);
    let mut i: usize = 0;
    while i < shaders.len()
        invariant
            0 <= i <= shaders.len(),
            view_calls(calls@) == before + shader_releases(view_shaders(shaders@).take(i as int)),
        decreases shaders.len() - i,
    {
        let shader = shaders[i].id();
        append_call(calls, Call::DeleteShader { shader });
        assert(shader_releases(view_shaders(shaders@).take(i as int)).push(
            CallView::DeleteShader { shader },
        ) =~= shader_releases(view_shaders(shaders@).take(i as int + 1)));
        assert((before + shader_releases(view_shaders(shaders@).take(i as int))).push(
            CallView::DeleteShader { shader },
        ) =~= before + shader_releases(view_shaders(shaders@).take(i as int + 1)));
        i += 1;
    }
    assert(view_shaders(shaders@).take(shaders.len() as int) =~= view_shaders(shaders@));
}

/// Appends to `calls` the calls that attach `shaders` to `program`, in order.
pub(crate) fn append_attachments(calls: &mut Vec<Call>, program: u32, shaders: &Vec<Shader>)
    ensures
        view_calls(final(calls)@) == view_calls(old(calls)@) + attachments(
            program,
            view_shaders(shaders@),
        ),
{
    let ghost before = view_calls(calls@);
    let mut i: usize = 0;
    while i < shaders.len()
        invariant
            0 <= i <= shaders.len(),
            view_calls(calls@) == before + attachments(
                program,
                view_shaders(shaders@).take(i as int),
            ),
        decreases shaders.len() - i,
    {
        let shader = shaders[i].id();
        append_call(calls, Call::AttachShader { program, shader });
        assert(attachments(program, view_shaders(shaders@).take(i as int)).push(
            CallView::AttachShader { program, shader },
        ) =~= attachments(program, view_shaders(shaders@).take(i as int + 1)));
        assert((before + attachments(program, view_shaders(shaders@).take(i as int))).push(
            CallView::AttachShader { program, shader },
        ) =~= before + attachments(program, view_shaders(shaders@).take(i as int + 1)));
        i += 1;
    }
    assert(view_shaders(shaders@).take(shaders.len() as int) =~= view_shaders(shaders@));
}

impl LinkRequest {
    /// Ends the link in `error`: after `calls`, the program object and the
    /// shaders are released.
    fn fail(self, program: u32, error: ShaderError, calls: Vec<Call>) -> (progress: Progress<
        Linking,
        Program,
        ShaderError,
    >)
        ensures
            progress@ == self@.fail(program, error@, view_calls(calls@)),
    {
        let ghost before = view_calls(calls@);
        let mut calls = calls;
        append_call(&mut calls, Call::DeleteProgram { program });
        append_shader_releases(&mut calls, &self.shaders);
        assert(view_calls(calls@) =~= before + releases(program, view_shaders(self.shaders@)));
        Progress::Finished(Err(error), calls)
    }

    /// Takes a step of the log fetch into the link.
    fn after_log(self, program: u32, fetched: Progress<LogFetch, String, ShaderError>) -> (progress:
        Progress<Linking, Program, ShaderError>)
        ensures
            progress@ == self@.after_log(program, fetched@),
    {
        match fetched {
            Progress::Ask(fetch, calls) => Progress::Ask(
                Linking { request: self, stage: LinkStage::ReadingLog { program, fetch } },
                calls,
            ),
            Progress::Finished(Ok(log), calls) => self.fail(
                program,
                ShaderError::LinkFailed { log },
                calls,
            ),
            Progress::Finished(Err(error), calls) => self.fail(program, error, calls),
        }
    }
}

impl Linking {
    /// Takes the reply to the last call and says how the link goes on.
    pub fn step(self, reply: Reply) -> (progress: Progress<Linking, Program, ShaderError>)
        ensures
            progress@ == self@.step(reply@),
    {
        let request = self.request;
        match (self.stage, reply) {
            (LinkStage::Creating, Reply::Handle(program)) => {
                let mut calls = no_calls();
                append_attachments(&mut calls, program, &request.shaders);
                append_call(
                    &mut calls,
                    Call::BindFragDataLocation { program, color: 0, name: request.output.clone() },
                );
                append_call(
                    &mut calls,
                    Call::GetAttribLocation { program, name: String::from_str("position") },
                );
                assert(view_calls(calls@) =~= request@.preparation(program));
                Progress::Ask(Linking { request, stage: LinkStage::Resolving { program } }, calls)
            },
            (LinkStage::Creating, _) => {
                let mut calls = no_calls();
                append_shader_releases(&mut calls, &request.shaders);
                assert(view_calls(calls@) =~= shader_releases(view_shaders(request.shaders@)));
                Progress::Finished(Err(ShaderError::UnexpectedReply), calls)
            },
            (LinkStage::Resolving { program }, Reply::Value(location)) => {
                let index = index_of(location);
                let mut calls = single(Call::EnableVertexAttribArray { index });
                append_call(
                    &mut calls,
                    Call::VertexAttribPointer { index, components: 3, stride: 0 },
                );
                append_call(&mut calls, Call::LinkProgram { program });
                append_call(&mut calls, Call::GetLinkStatus { program });
                assert(view_calls(calls@) =~= LinkingView::layout_and_link(program, location));
                Progress::Ask(Linking { request, stage: LinkStage::Linking { program } }, calls)
            },
            (LinkStage::Resolving { program }, _) => request.fail(
                program,
                ShaderError::UnexpectedReply,
                no_calls(),
            ),
            (LinkStage::Linking { program }, Reply::Value(status)) => {
                if status != 0 {
                    proof {
                        use_type_invariant(&request);
                    }
                    Progress::Finished(
                        Ok(Program { name: request.name, id: program, shaders: request.shaders }),
                        no_calls(),
                    )
                } else {
                    request.after_log(program, LogFetch::start(Object::Program(program)))
                }
            },
            (LinkStage::Linking { program }, _) => request.fail(
                program,
                ShaderError::UnexpectedReply,
                no_calls(),
            ),
            (LinkStage::ReadingLog { program, fetch }, reply) => request.after_log(
                program,
                fetch.step(reply),
            ),
        }
    }
}

impl Program {
    /// The name that the program was linked under.
    pub fn name(&self) -> (name: &str)
        ensures
            name@ == self@.name,
    {
        self.name.as_str()
    }

    /// The handle of the program object.
    pub fn id(&self) -> (id: u32)
        ensures
            id == self@.id,
    {
        self.id
    }

    /// The shaders that the program owns, in the order in which they were
    /// attached. There is at least one.
    pub fn shaders(&self) -> (shaders: &Vec<Shader>)
        ensures
            view_shaders(shaders@) == self@.shaders,
            shaders@.len() > 0,
    {
        proof {
            use_type_invariant(self);
        }
        &self.shaders
    }

    /// Gives the program up: the calls that release the program object and
    /// then each of its shaders.
    pub fn release(self) -> (calls: Vec<Call>)
        ensures
            view_calls(calls@) == releases(self@.id, self@.shaders),
    {
        let mut calls = single(Call::DeleteProgram { program: self.id });
        append_shader_releases(&mut calls, &self.shaders);
        calls
    }

    /// Activates the program, then lets `cb` write its uniforms.
    ///
    /// The result is the call that makes this program the active one,
    /// followed by the calls that `cb` returned, in their order. `cb` is lent
    /// the only context there is for those writes, for as long as it runs.
    pub fn use_program<F>(&self, cb: F) -> (calls: Vec<Call>) where
        F: FnOnce(&ProgramUniformContext) -> Vec<Call>,

        requires
            forall|context: &ProgramUniformContext| cb.requires((context,)),
        ensures
            exists|context: &ProgramUniformContext, writes: Vec<Call>|
                cb.ensures((context,), writes) && view_calls(calls@) == seq![
                    CallView::UseProgram { program: self@.id },
                ] + view_calls(writes@),
    {
        let mut calls = single(Call::UseProgram { program: self.id });
        let context = ProgramUniformContext::open();
        let writes = cb(&context);
        append_calls(&mut calls, writes);
        calls
    }

    /// The call that asks the driver where the attribute `name` is.
    pub fn locate_attrib(&self, name: &str) -> (call: Call)
        ensures
            call@ == (CallView::GetAttribLocation { program: self@.id, name: name@ }),
    {
        Call::GetAttribLocation { program: self.id, name: String::from_str(name) }
    }

    /// Makes the attribute `name` of the driver's answer `location`. Every
    /// attribute that is asked for is needed, so its absence is an error.
    pub fn get_attrib(&self, name: &str, location: i32) -> (result: Result<Attrib, ShaderError>)
        ensures
            match result {
                Ok(attrib) => resolved_attrib(name@, self@.name, location) == Ok::<
                    u32,
                    ShaderErrorView,
                >(attrib@),
                Err(error) => resolved_attrib(name@, self@.name, location) == Err::<
                    u32,
                    ShaderErrorView,
                >(error@),
            },
    {
        match location {
            -1 => Err(
                ShaderError::RequiredAttributeMissing {
                    name: String::from_str(name),
                    program: self.name.clone(),
                },
            ),
            found => Ok(Attrib::at(index_of(found))),
        }
    }

    /// The call that asks the driver where the uniform `name` is.
    pub fn locate_uniform(&self, name: &str) -> (call: Call)
        ensures
            call@ == (CallView::GetUniformLocation { program: self@.id, name: name@ }),
    {
        Call::GetUniformLocation { program: self.id, name: String::from_str(name) }
    }

    /// Makes the uniform `name` of the driver's answer `location`, for a
    /// uniform that the program cannot do without: its absence is an error.
    pub fn get_uniform(&self, name: &str, location: i32) -> (result: Result<Uniform, ShaderError>)
        ensures
            match result {
                Ok(uniform) => required_uniform(name@, self@.name, location) == Ok::<
                    i32,
                    ShaderErrorView,
                >(uniform@),
                Err(error) => required_uniform(name@, self@.name, location) == Err::<
                    i32,
                    ShaderErrorView,
                >(error@),
            },
    {
        match self.get_uniform_option(location) {
            Some(uniform) => Ok(uniform),
            None => Err(
                ShaderError::RequiredUniformMissing {
                    name: String::from_str(name),
                    program: self.name.clone(),
                },
            ),
        }
    }

    /// Makes a uniform of the driver's answer `location`, for a uniform that
    /// may be missing: `None` where the program has none of that name.
    pub fn get_uniform_option(&self, location: i32) -> (result: Option<Uniform>)
        ensures
            match result {
                Some(uniform) => resolved_uniform(location) == Some(uniform@),
                None => resolved_uniform(location) == None::<i32>,
            },
    {
        match location {
            -1 => None,
            id => Some(Uniform::at(id)),
        }
    }

    /// Begins to fetch the info log that the driver keeps for this program.
    pub fn get_link_log(&self) -> (progress: Progress<LogFetch, String, ShaderError>)
        ensures
            progress@ == LogFetchView::start(Object::Program(self@.id)),
    {
        LogFetch::start(Object::Program(self.id))
    }

    /// Begins to link `shaders`, in their order, into a program called
    /// `name` whose fragment output variable `output_color_var` goes to
    /// colour output 0. The shaders pass to the link: they end up in the
    /// program, or are released where the link fails.
    ///
    /// A link of no shaders fails at once and calls nothing.
    pub fn link(name: String, output_color_var: &str, shaders: Vec<Shader>) -> (progress: Progress<
        Linking,
        Program,
        ShaderError,
    >)
        ensures
            progress@ == LinkingView::start(name@, output_color_var@, view_shaders(shaders@)),
    {
        if shaders.len() == 0 {
            Progress::Finished(
                Err(ShaderError::LinkFailed { log: String::from_str("no shaders to link") }),
                no_calls(),
            )
        } else {
            let request = LinkRequest { name, output: String::from_str(output_color_var), shaders };
            Progress::Ask(
                Linking { request, stage: LinkStage::Creating },
                single(Call::CreateProgram),
            )
        }
    }
}

/// Whether `replies` report a program object that linked.
pub open spec fn linked(replies: Seq<ReplyView>) -> bool {
    &&& replies.len() >= 3
    &&& replies[0] is Handle
    &&& replies[1] is Value
    &&& replies[2] is Value
    &&& replies[2]->Value_0 != 0
}

/// Everything that a link performs on a fresh `program` up to the query of
/// its link status, where `position` was found at `location`.
pub open spec fn link_calls(
    output: Seq<char>,
    shaders: Seq<ShaderView>,
    program: u32,
    location: i32,
) -> Seq<CallView> {
    seq![CallView::CreateProgram] + attachments(program, shaders) + seq![
        CallView::BindFragDataLocation { program, color: 0, name: output },
        CallView::GetAttribLocation { program, name: position_name() },
    ] + LinkingView::layout_and_link(program, location)
}

/// A link of no shaders fails whatever the host would answer, and asks it
/// nothing.
pub proof fn link_of_nothing_fails_at_once(
    name: Seq<char>,
    output: Seq<char>,
    replies: Seq<ReplyView>,
)
    ensures
        transcript(LinkingView::start(name, output, Seq::empty()), replies) == (Transcript::<
            ProgramView,
            ShaderErrorView,
        > {
            calls: Seq::empty(),
            result: Some(Err(ShaderErrorView::LinkFailed { log: no_shaders_log() })),
        }),
{
    reveal_with_fuel(transcript_from, 1);
}

/// A link that the driver accepts allocates the program, attaches every
/// shader in order, binds the output to colour output 0, looks `position` up,
/// lays it out and links, in that order and nothing else. It yields the
/// program that wraps the allocated handle, under the name asked for, and
/// that owns the shaders.
pub proof fn accepted_link_yields_its_program(
    name: Seq<char>,
    output: Seq<char>,
    shaders: Seq<ShaderView>,
    program: u32,
    location: i32,
    status: i32,
)
    requires
        shaders.len() > 0,
        status != 0,
    ensures
        transcript(
            LinkingView::start(name, output, shaders),
            seq![ReplyView::Handle(program), ReplyView::Value(location), ReplyView::Value(status)],
        ) == (Transcript::<ProgramView, ShaderErrorView> {
            calls: link_calls(output, shaders, program, location),
            result: Some(Ok(ProgramView { name, id: program, shaders })),
        }),
{
    let replies = seq![
        ReplyView::Handle(program),
        ReplyView::Value(location),
        ReplyView::Value(status),
    ];
    let run = transcript(LinkingView::start(name, output, shaders), replies);
    reveal_with_fuel(transcript_from, 4);
    assert(run.calls =~= link_calls(output, shaders, program, location));
}

/// A link that the driver rejects fetches the info log, releases the program
/// object and then every shader, and fails with that log.
pub proof fn rejected_link_fails_with_the_log(
    name: Seq<char>,
    output: Seq<char>,
    shaders: Seq<ShaderView>,
    program: u32,
    location: i32,
    length: i32,
    log: Seq<char>,
)
    requires
        shaders.len() > 0,
        length > 0,
    ensures
        transcript(
            LinkingView::start(name, output, shaders),
            seq![
                ReplyView::Handle(program),
                ReplyView::Value(location),
                ReplyView::Value(0),
                ReplyView::Value(length),
                ReplyView::Text(log),
            ],
        ) == (Transcript::<ProgramView, ShaderErrorView> {
            calls: link_calls(output, shaders, program, location) + seq![
                CallView::GetProgramLogLength { program },
                CallView::GetProgramInfoLog { program, length },
            ] + releases(program, shaders),
            result: Some(Err(ShaderErrorView::LinkFailed { log })),
        }),
{
    let replies = seq![
        ReplyView::Handle(program),
        ReplyView::Value(location),
        ReplyView::Value(0),
        ReplyView::Value(length),
        ReplyView::Text(log),
    ];
    let run = transcript(LinkingView::start(name, output, shaders), replies);
    reveal_with_fuel(transcript_from, 6);
    assert(run.calls =~= link_calls(output, shaders, program, location) + seq![
        CallView::GetProgramLogLength { program },
        CallView::GetProgramInfoLog { program, length },
    ] + releases(program, shaders));
}

/// Whatever the host answers, a link yields a program exactly when there was
/// a shader to link and the driver allocated an object and reported that it
/// linked. The program then wraps that object, bears the name asked for and
/// owns the shaders that were handed in, in their order: never none.
pub proof fn link_succeeds_exactly_when_accepted(
    name: Seq<char>,
    output: Seq<char>,
    shaders: Seq<ShaderView>,
    replies: Seq<ReplyView>,
)
    ensures
        transcript(LinkingView::start(name, output, shaders), replies).result matches Some(Ok(_))
            <==> shaders.len() > 0 && linked(replies),
        shaders.len() > 0 && linked(replies) ==> transcript(
            LinkingView::start(name, output, shaders),
            replies,
        ).result == Some(
            Ok::<ProgramView, ShaderErrorView>(
                ProgramView { name, id: replies[0]->Handle_0, shaders },
            ),
        ),
{
    reveal_with_fuel(transcript_from, 6);
}

/// Whatever the host answers, a link leaves nothing behind but the program
/// that it yields. One that succeeds releases nothing. One that fails ends
/// by releasing the program object, where one was allocated, and then every
/// shader that was handed in, and releases nothing before that.
pub proof fn link_releases_what_it_held(
    name: Seq<char>,
    output: Seq<char>,
    shaders: Seq<ShaderView>,
    replies: Seq<ReplyView>,
)
    requires
        shaders.len() > 0,
    ensures
        ({
            let run = transcript(LinkingView::start(name, output, shaders), replies);
            let owed = if replies.len() > 0 && replies[0] is Handle {
                releases(replies[0]->Handle_0, shaders)
            } else {
                shader_releases(shaders)
            };
            match run.result {
                Some(Ok(_)) => releases_nothing(run.calls),
                Some(Err(_)) => {
                    &&& run.calls.len() >= owed.len()
                    &&& run.calls.skip(run.calls.len() - owed.len()) == owed
                    &&& releases_nothing(run.calls.take(run.calls.len() - owed.len()))
                },
                None => releases_nothing(run.calls),
            }
        }),
{
    let run = transcript(LinkingView::start(name, output, shaders), replies);
    let owed = if replies.len() > 0 && replies[0] is Handle {
        releases(replies[0]->Handle_0, shaders)
    } else {
        shader_releases(shaders)
    };
    reveal_with_fuel(transcript_from, 6);
    if run.result matches Some(Err(_)) {
        assert(run.calls.skip(run.calls.len() - owed.len()) =~= owed);
    }
}

/// A uniform that the program does not have is `None` to the lookup that
/// tolerates absence and an error to the one that does not. Neither makes up
/// a location.
pub proof fn absent_uniform_is_never_a_location(name: Seq<char>, program: Seq<char>)
    ensures
        resolved_uniform(-1i32) == None::<i32>,
        required_uniform(name, program, -1i32) == Err::<i32, ShaderErrorView>(
            ShaderErrorView::RequiredUniformMissing { name, program },
        ),
{
}

/// A uniform that the program has is found by both lookups, at the very
/// location that the driver answered.
pub proof fn present_uniform_is_found_where_it_is(
    name: Seq<char>,
    program: Seq<char>,
    location: i32,
)
    requires
        location != -1,
    ensures
        resolved_uniform(location) == Some(location),
        required_uniform(name, program, location) == Ok::<i32, ShaderErrorView>(location),
{
}

/// Looking a uniform up is a function of the driver's answer: the same answer
/// gives the same result, and different answers give different results.
pub proof fn same_answer_same_uniform(first: i32, second: i32)
    ensures
        first == second <==> resolved_uniform(first) == resolved_uniform(second),
{
}

/// In a link that succeeded with `position` at `location`, the array that the
/// link enabled and laid out is the attribute that a lookup of `position`
/// yields for the same answer of the driver: an attribute, not an error.
pub proof fn position_resolves_after_link(
    name: Seq<char>,
    output: Seq<char>,
    shaders: Seq<ShaderView>,
    program: u32,
    location: i32,
    status: i32,
)
    requires
        shaders.len() > 0,
        status != 0,
        location != -1,
    ensures
        ({
            let run = transcript(
                LinkingView::start(name, output, shaders),
                seq![
                    ReplyView::Handle(program),
                    ReplyView::Value(location),
                    ReplyView::Value(status),
                ],
            );
            &&& run.result matches Some(Ok(linked))
            &&& resolved_attrib(position_name(), linked.name, location) matches Ok(index)
            &&& run.calls.contains(CallView::EnableVertexAttribArray { index })
            &&& run.calls.contains(
                CallView::VertexAttribPointer { index, components: 3, stride: 0 },
            )
        }),
{
    accepted_link_yields_its_program(name, output, shaders, program, location, status);
    let calls = link_calls(output, shaders, program, location);
    let index = array_index(location);
    let base = shaders.len() as int + 3;
    assert(calls[base] == CallView::EnableVertexAttribArray { index });
    assert(calls[base + 1] == CallView::VertexAttribPointer { index, components: 3, stride: 0 });
}

impl ProgramView {
    /// The objects of the program: the program object and those of its
    /// shaders.
    pub open spec fn objects(self) -> Multiset<Object> {
        shader_objects(self.shaders).insert(Object::Program(self.id))
    }
}

impl LinkingView {
    /// The objects that a link holds at this stage: the shaders that it was
    /// given and the program object, from its allocation on.
    pub open spec fn holds(self) -> Multiset<Object> {
        match self.stage {
            LinkStageView::Creating => shader_objects(self.request.shaders),
            LinkStageView::Resolving { program } => shader_objects(self.request.shaders).insert(
                Object::Program(program),
            ),
            LinkStageView::Linking { program } => shader_objects(self.request.shaders).insert(
                Object::Program(program),
            ),
            LinkStageView::ReadingLog { program, .. } => shader_objects(
                self.request.shaders,
            ).insert(Object::Program(program)),
        }
    }
}

/// The objects that are accounted for where a link stands at `progress`,
/// before the calls of `progress` are performed: what those calls release,
/// and what the link holds, or its result owns, after them.
pub open spec fn link_account(progress: LinkProgress) -> Multiset<Object> {
    match progress {
        ProgressView::Ask(machine, calls) => machine.holds().add(released(calls)),
        ProgressView::Finished(Ok(program), calls) => released(calls).add(program.objects()),
        ProgressView::Finished(Err(_), calls) => released(calls),
    }
}

/// Whether a link that stands at `progress` waits for an object exactly when
/// it has asked for one, which is then a program.
pub open spec fn link_settled(progress: LinkProgress) -> bool {
    match progress {
        ProgressView::Ask(machine, calls) => {
            &&& machine.stage is Creating <==> asks_for_an_object(calls)
            &&& asks_for_an_object(calls) ==> calls.last() is CreateProgram
        },
        ProgressView::Finished(_, _) => true,
    }
}

/// The calls that release `shaders` release the objects of `shaders`.
pub proof fn shader_releases_release_the_shaders(shaders: Seq<ShaderView>)
    ensures
        released(shader_releases(shaders)) == shader_objects(shaders),
    decreases shaders.len(),
{
    if shaders.len() > 0 {
        shader_releases_release_the_shaders(shaders.drop_last());
        assert(shader_releases(shaders).drop_last() =~= shader_releases(shaders.drop_last()));
    }
}

/// The calls that release a program and its shaders release the objects of
/// both.
pub proof fn releases_release_the_program(program: u32, shaders: Seq<ShaderView>)
    ensures
        released(releases(program, shaders)) == shader_objects(shaders).insert(
            Object::Program(program),
        ),
{
    let first = seq![CallView::DeleteProgram { program }];
    released_together(first, shader_releases(shaders));
    shader_releases_release_the_shaders(shaders);
    released_after(Seq::empty(), CallView::DeleteProgram { program });
    assert(first =~= Seq::<CallView>::empty().push(CallView::DeleteProgram { program }));
    assert(released(releases(program, shaders)) =~= shader_objects(shaders).insert(
        Object::Program(program),
    ));
}

/// A step of a link neither makes nor loses an object: what it held, with
/// what the driver allocated in answer, is what is accounted for after the
/// step.
pub proof fn link_step_conserves(machine: LinkingView, calls: Seq<CallView>, reply: ReplyView)
    requires
        link_settled(ProgressView::Ask(machine, calls)),
    ensures
        link_settled(machine.step(reply)),
        machine.holds().add(allocated_by(calls, reply)) == link_account(machine.step(reply)),
{
    let next = machine.step(reply);
    let shaders = machine.request.shaders;
    let before = machine.holds().add(allocated_by(calls, reply));
    match next {
        ProgressView::Ask(_, more) => {
            nothing_released(more);
            assert(before =~= link_account(next));
        },
        ProgressView::Finished(Ok(_), more) => {
            nothing_released(more);
            assert(before =~= link_account(next));
        },
        ProgressView::Finished(Err(_), more) => {
            if machine.stage is Creating {
                shader_releases_release_the_shaders(shaders);
            } else {
                let program = match machine.stage {
                    LinkStageView::Resolving { program } => program,
                    LinkStageView::Linking { program } => program,
                    LinkStageView::ReadingLog { program, .. } => program,
                    LinkStageView::Creating => 0,
                };
                let owed = releases(program, shaders);
                let fetched = more.take(more.len() - owed.len());
                assert(more =~= fetched + owed);
                nothing_released(fetched);
                released_together(fetched, owed);
                releases_release_the_program(program, shaders);
            }
            assert(before =~= link_account(next));
        },
    }
}

proof fn link_conserves_from(progress: LinkProgress, replies: Seq<ReplyView>, from: int)
    requires
        link_settled(progress),
    ensures
        ({
            let run = transcript_from(progress, replies, from);
            let made = allocated_from(progress, replies, from);
            match run.result {
                Some(Ok(program)) => link_account(progress).add(made) == released(run.calls).add(
                    program.objects(),
                ),
                Some(Err(_)) => link_account(progress).add(made) == released(run.calls),
                None => true,
            }
        }),
    decreases replies.len() - from,
{
    let run = transcript_from(progress, replies, from);
    let made = allocated_from(progress, replies, from);
    match progress {
        ProgressView::Ask(machine, calls) => {
            if 0 <= from < replies.len() {
                let next = machine.step(replies[from]);
                let rest = transcript_from(next, replies, from + 1);
                let later = allocated_from(next, replies, from + 1);
                link_step_conserves(machine, calls, replies[from]);
                link_conserves_from(next, replies, from + 1);
                released_together(calls, rest.calls);
                assert(rest.result == run.result);
                assert(released(run.calls) == released(calls).add(released(rest.calls)));
                assert(link_account(progress).add(made) =~= released(calls).add(
                    link_account(next).add(later),
                ));
                match run.result {
                    Some(Ok(program)) => {
                        assert(released(calls).add(released(rest.calls).add(program.objects()))
                            =~= released(calls).add(released(rest.calls)).add(program.objects()));
                    },
                    _ => {},
                }
            }
        },
        ProgressView::Finished(_, _) => {
            assert(link_account(progress).add(made) =~= link_account(progress));
        },
    }
}

/// Whatever the host answers, a link that has ended has released every
/// object that it was given or that the driver allocated for it, each once,
/// but for the objects of the program that it yields.
pub proof fn link_conserves_objects(
    name: Seq<char>,
    output: Seq<char>,
    shaders: Seq<ShaderView>,
    replies: Seq<ReplyView>,
)
    ensures
        ({
            let run = transcript(LinkingView::start(name, output, shaders), replies);
            let made = allocated(LinkingView::start(name, output, shaders), replies);
            match run.result {
                Some(Ok(program)) => shader_objects(shaders).add(made) == released(run.calls).add(
                    program.objects(),
                ),
                Some(Err(_)) => shader_objects(shaders).add(made) == released(run.calls),
                None => true,
            }
        }),
{
    let start = LinkingView::start(name, output, shaders);
    match start {
        ProgressView::Ask(_, calls) => {
            nothing_released(calls);
        },
        ProgressView::Finished(_, calls) => {
            nothing_released(calls);
        },
    }
    assert(link_account(start) =~= shader_objects(shaders));
    link_conserves_from(start, replies, 0);
}

} // verus!
