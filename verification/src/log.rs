//! Fetching the info log that the driver keeps for a shader or a program.
//!
//! The driver is first asked how long the log is. A log of positive length is
//! then fetched at that length; otherwise the log is empty and nothing more is
//! asked.

use crate::driver::{
    no_calls, single, transcript, transcript_from, Call, CallView, Model, Object, Progress,
    ProgressView, Reply, ReplyView, Transcript,
};
use crate::error::{ShaderError, ShaderErrorView};
use vstd::prelude::*;

verus! {

/// How far the fetch has come.
#[derive(Clone, Copy, Debug, PartialEq, Eq)]
pub enum LogStage {
    /// The length was asked for.
    Measuring,
    /// The text was asked for.
    Fetching,
}

/// A fetch of an info log that is under way.
#[derive(Debug, PartialEq, Eq)]
pub struct LogFetch {
    owner: Object,
    stage: LogStage,
}

/// A `LogFetch` in specifications.
pub struct LogFetchView {
    pub owner: Object,
    pub stage: LogStage,
}

/// Where a fetch stands after a step, in specifications.
pub type LogProgress = ProgressView<LogFetchView, Seq<char>, ShaderErrorView>;

impl View for LogFetch {
    type V = LogFetchView;

    closed spec fn view(&self) -> LogFetchView {
        LogFetchView { owner: self.owner, stage: self.stage }
    }
}

impl Object {
    /// The call that asks for the length of the object's log.
    pub open spec fn length_query(self) -> CallView {
        match self {
            Object::Shader(shader) => CallView::GetShaderLogLength { shader },
            Object::Program(program) => CallView::GetProgramLogLength { program },
        }
    }

    /// The call that asks for `length` bytes of the object's log.
    pub open spec fn text_query(self, length: i32) -> CallView {
        match self {
            Object::Shader(shader) => CallView::GetShaderInfoLog { shader, length },
            Object::Program(program) => CallView::GetProgramInfoLog { program, length },
        }
    }
}

impl LogFetchView {
    /// The fetch begins by asking for the length of the log.
    pub open spec fn start(owner: Object) -> LogProgress {
        ProgressView::Ask(
            LogFetchView { owner, stage: LogStage::Measuring },
            seq![owner.length_query()],
        )
    }
}

impl Model for LogFetchView {
    type Output = Seq<char>;

    type Failure = ShaderErrorView;

    open spec fn step(self, reply: ReplyView) -> LogProgress {
        match (self.stage, reply) {
            (LogStage::Measuring, ReplyView::Value(length)) => {
                if length > 0 {
                    ProgressView::Ask(
                        LogFetchView { owner: self.owner, stage: LogStage::Fetching },
                        seq![self.owner.text_query(length)],
                    )
                } else {
                    ProgressView::Finished(Ok(Seq::empty()), Seq::empty())
                }
            },
            (LogStage::Fetching, ReplyView::Text(log)) => ProgressView::Finished(
                Ok(log),
                Seq::empty(),
            ),
            _ => ProgressView::Finished(Err(ShaderErrorView::UnexpectedReply), Seq::empty()),
        }
    }
}

impl LogFetch {
    /// Begins to fetch the info log of `owner`.
    pub fn start(owner: Object) -> (progress: Progress<LogFetch, String, ShaderError>)
        ensures
            progress@ == LogFetchView::start(owner),
    {
        let query = match owner {
            Object::Shader(shader) => Call::GetShaderLogLength { shader },
            Object::Program(program) => Call::GetProgramLogLength { program },
        };
        Progress::Ask(LogFetch { owner, stage: LogStage::Measuring }, single(query))
    }

    /// Takes the reply to the last call and says how the fetch goes on.
    pub fn step(self, reply: Reply) -> (progress: Progress<LogFetch, String, ShaderError>)
        ensures
            progress@ == self@.step(reply@),
    {
        match (self.stage, reply) {
            (LogStage::Measuring, Reply::Value(length)) => {
                if length > 0 {
                    let query = match self.owner {
                        Object::Shader(shader) => Call::GetShaderInfoLog { shader, length },
                        Object::Program(program) => Call::GetProgramInfoLog { program, length },
                    };
                    Progress::Ask(
                        LogFetch { owner: self.owner, stage: LogStage::Fetching },
                        single(query),
                    )
                } else {
                    Progress::Finished(Ok(String::new()), no_calls())
                }
            },
            (LogStage::Fetching, Reply::Text(log)) => Progress::Finished(Ok(log), no_calls()),
            _ => Progress::Finished(Err(ShaderError::UnexpectedReply), no_calls()),
        }
    }
}

/// A log of positive length is asked for at exactly that length, and the text
/// that the driver answers is the log, unchanged.
pub proof fn fetch_returns_the_text(owner: Object, length: i32, text: Seq<char>)
    requires
        length > 0,
    ensures
        transcript(
            LogFetchView::start(owner),
            seq![ReplyView::Value(length), ReplyView::Text(text)],
        ) == (Transcript::<Seq<char>, ShaderErrorView> {
            calls: seq![owner.length_query(), owner.text_query(length)],
            result: Some(Ok(text)),
        }),
{
    let replies = seq![ReplyView::Value(length), ReplyView::Text(text)];
    let run = transcript(LogFetchView::start(owner), replies);
    reveal_with_fuel(transcript_from, 3);
    assert(run.calls =~= seq![owner.length_query(), owner.text_query(length)]);
}

/// Where the driver reports no log, the log is empty and no text is asked for.
pub proof fn fetch_of_no_log_is_empty(owner: Object, length: i32)
    requires
        length <= 0,
    ensures
        transcript(LogFetchView::start(owner), seq![ReplyView::Value(length)]) == (Transcript::<
            Seq<char>,
            ShaderErrorView,
        > { calls: seq![owner.length_query()], result: Some(Ok(Seq::empty())) }),
{
    let replies = seq![ReplyView::Value(length)];
    let run = transcript(LogFetchView::start(owner), replies);
    reveal_with_fuel(transcript_from, 2);
    assert(run.calls =~= seq![owner.length_query()]);
}

} // verus!
