//! Keeping count of the driver's objects: what a run allocated, and what it
//! released.
//!
//! An object is allocated where a batch of calls ends with the call that
//! creates it and the host answers with a handle. It is released by the call
//! that deletes it. Both are counted as multisets, so that an object released
//! twice, or a handle given out twice, shows.

use crate::driver::{CallView, Model, Object, ProgressView, ReplyView};
use crate::shader::ShaderView;
use vstd::multiset::Multiset;
use vstd::prelude::*;

verus! {

/// The object that `call` releases, if it releases one.
pub open spec fn released_by(call: CallView) -> Multiset<Object> {
    match call {
        CallView::DeleteShader { shader } => Multiset::singleton(Object::Shader(shader)),
        CallView::DeleteProgram { program } => Multiset::singleton(Object::Program(program)),
        _ => Multiset::empty(),
    }
}

/// The objects that `calls` release, each as often as it is released.
pub open spec fn released(calls: Seq<CallView>) -> Multiset<Object>
    decreases calls.len(),
{
    if calls.len() == 0 {
        Multiset::empty()
    } else {
        released(calls.drop_last()).add(released_by(calls.last()))
    }
}

/// The object that the driver allocated when it answered the batch `calls`
/// with `reply`, if it allocated one.
pub open spec fn allocated_by(calls: Seq<CallView>, reply: ReplyView) -> Multiset<Object> {
    if calls.len() > 0 && reply is Handle {
        match calls.last() {
            CallView::CreateShader { .. } => Multiset::singleton(
                Object::Shader(reply->Handle_0),
            ),
            CallView::CreateProgram => Multiset::singleton(Object::Program(reply->Handle_0)),
            _ => Multiset::empty(),
        }
    } else {
        Multiset::empty()
    }
}

/// The objects that the driver allocated for the operation that stands at
/// `progress` and is then answered with `replies[from]`, `replies[from + 1]`
/// and so on.
pub open spec fn allocated_from<M: Model>(
    progress: ProgressView<M, M::Output, M::Failure>,
    replies: Seq<ReplyView>,
    from: int,
) -> Multiset<Object>
    decreases replies.len() - from,
{
    match progress {
        ProgressView::Finished(_, _) => Multiset::empty(),
        ProgressView::Ask(machine, calls) => {
            if 0 <= from < replies.len() {
                allocated_by(calls, replies[from]).add(
                    allocated_from(machine.step(replies[from]), replies, from + 1),
                )
            } else {
                Multiset::empty()
            }
        },
    }
}

/// The objects that the driver allocated for the operation that stands at
/// `progress` and is answered with `replies`, in order.
pub open spec fn allocated<M: Model>(
    progress: ProgressView<M, M::Output, M::Failure>,
    replies: Seq<ReplyView>,
) -> Multiset<Object> {
    allocated_from(progress, replies, 0)
}

/// The objects of `shaders`.
pub open spec fn shader_objects(shaders: Seq<ShaderView>) -> Multiset<Object>
    decreases shaders.len(),
{
    if shaders.len() == 0 {
        Multiset::empty()
    } else {
        shader_objects(shaders.drop_last()).insert(Object::Shader(shaders.last().id))
    }
}

/// Whether the batch `calls` ends with a call that allocates an object.
pub open spec fn asks_for_an_object(calls: Seq<CallView>) -> bool {
    calls.len() > 0 && (calls.last() is CreateShader || calls.last() is CreateProgram)
}

/// What two lists of calls release together is what each releases.
pub proof fn released_together(first: Seq<CallView>, second: Seq<CallView>)
    ensures
        released(first + second) == released(first).add(released(second)),
    decreases second.len(),
{
    if second.len() == 0 {
        assert(first + second =~= first);
        assert(released(first).add(released(second)) =~= released(first));
    } else {
        released_together(first, second.drop_last());
        assert((first + second).drop_last() =~= first + second.drop_last());
        assert(released(first + second) =~= released(first).add(released(second)));
    }
}

/// A list in which no call releases anything releases nothing.
pub proof fn nothing_released(calls: Seq<CallView>)
    requires
        forall|i: int| 0 <= i < calls.len() ==> released_by(#[trigger] calls[i]) == Multiset::<
            Object,
        >::empty(),
    ensures
        released(calls) == Multiset::<Object>::empty(),
    decreases calls.len(),
{
    if calls.len() > 0 {
        nothing_released(calls.drop_last());
        assert(released(calls) =~= Multiset::<Object>::empty());
    }
}

/// One more shader is one more object.
pub proof fn one_more_shader(shaders: Seq<ShaderView>, shader: ShaderView)
    ensures
        shader_objects(shaders.push(shader)) == shader_objects(shaders).insert(
            Object::Shader(shader.id),
        ),
{
    assert(shaders.push(shader).drop_last() =~= shaders);
}

/// A call more releases what it releases more.
pub proof fn released_after(calls: Seq<CallView>, call: CallView)
    ensures
        released(calls.push(call)) == released(calls).add(released_by(call)),
{
    assert(calls.push(call).drop_last() =~= calls);
}

} // verus!
