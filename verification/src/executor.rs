//! The effect pass of one view in one frame, as a state machine: from idle
//! through the pipeline query and the bind group to the submitted draw, or to
//! a skip that leaves the view as it was.

use vstd::prelude::*;
use crate::extract::RenderViewUniform;
use crate::layout::{BindGroup, FULLSCREEN_VERTICES};
use crate::pipeline::{PipelineCache, PipelineHandle, PipelineStatus};

verus! {

/// The two main textures of a view, as plain values.
pub struct ViewModel {
    /// The texture that holds the view's current image: a pass reads it.
    pub front: u64,
    /// The texture that is free: a pass writes it.
    pub back: u64,
}

impl ViewModel {
    /// The view after a pass has written its back texture.
    pub open spec fn flipped(self) -> ViewModel {
        ViewModel { front: self.back, back: self.front }
    }

    pub open spec fn wf(self) -> bool {
        self.front != self.back
    }
}

/// The render target of one camera: two textures that trade places with every
/// pass that is submitted.
pub struct ViewTarget {
    front: u64,
    back: u64,
}

/// Why a pass was skipped.
#[derive(Clone, Copy, Debug, PartialEq, Eq, Structural)]
pub enum SkipReason {
    /// The pipeline is still being compiled; the next frame asks again.
    NotReady,
    /// The pipeline failed to compile; the effect is off for the session.
    Disabled,
    /// The handle names no pipeline of the cache.
    NoPipeline,
    /// The bind group was built for textures that the view no longer holds in
    /// these places.
    StaleBindGroup,
}

/// The one draw of a pass.
#[derive(Clone, Copy, Debug, PartialEq, Eq, Structural)]
pub struct DrawCall {
    pub pipeline: PipelineHandle,
    pub bind_group: BindGroup,
    /// The texture view that the draw writes.
    pub destination: u64,
    pub vertices: u32,
    pub instances: u32,
}

/// Where the pass of one view stands.
#[derive(Clone, Copy, Debug, PartialEq, Eq, Structural)]
pub enum PassState {
    Idle,
    PipelineReady { pipeline: PipelineHandle },
    BindGroupBuilt { pipeline: PipelineHandle, bind_group: BindGroup, destination: u64 },
    Submitted { draw: DrawCall },
    Skipped { reason: SkipReason },
}

/// The state after the pipeline query.
pub open spec fn queried(status: Option<PipelineStatus>, pipeline: PipelineHandle) -> PassState {
    match status {
        Some(PipelineStatus::Ready) => PassState::PipelineReady { pipeline },
        Some(PipelineStatus::InFlight) => PassState::Skipped { reason: SkipReason::NotReady },
        Some(PipelineStatus::Failed) => PassState::Skipped { reason: SkipReason::Disabled },
        None => PassState::Skipped { reason: SkipReason::NoPipeline },
    }
}

/// The uniform that a pass binds: the view's own, or intensity zero.
pub open spec fn bound_uniform(uniform: Option<RenderViewUniform>) -> RenderViewUniform {
    match uniform {
        Some(u) => u,
        None => RenderViewUniform { intensity: 0 },
    }
}

/// The state after the bind group was built. Only a pass whose pipeline is
/// ready builds one; it reads the view's front texture and is to write its
/// back texture.
pub open spec fn bound(
    state: PassState,
    view: ViewModel,
    sampler: u64,
    uniform: Option<RenderViewUniform>,
) -> PassState {
    match state {
        PassState::PipelineReady { pipeline } => PassState::BindGroupBuilt {
            pipeline,
            bind_group: BindGroup { source: view.front, sampler, uniform: bound_uniform(uniform) },
            destination: view.back,
        },
        _ => state,
    }
}

/// Whether a state holds a bind group that was built from the view as it is.
pub open spec fn fresh_for(state: PassState, view: ViewModel) -> bool {
    match state {
        PassState::BindGroupBuilt { pipeline, bind_group, destination } => bind_group.source
            == view.front && destination == view.back,
        _ => false,
    }
}

/// The state after submission.
pub open spec fn submitted(state: PassState, view: ViewModel) -> PassState {
    match state {
        PassState::BindGroupBuilt { pipeline, bind_group, destination } => if fresh_for(
            state,
            view,
        ) {
            PassState::Submitted {
                draw: DrawCall {
                    pipeline,
                    bind_group,
                    destination,
                    vertices: FULLSCREEN_VERTICES,
                    instances: 1,
                },
            }
        } else {
            PassState::Skipped { reason: SkipReason::StaleBindGroup }
        },
        _ => state,
    }
}

/// The view after submission: flipped where the draw was submitted.
pub open spec fn view_after(state: PassState, view: ViewModel) -> ViewModel {
    if fresh_for(state, view) {
        view.flipped()
    } else {
        view
    }
}

/// The end state of the whole pass of one view.
pub open spec fn pass_result(
    status: Option<PipelineStatus>,
    pipeline: PipelineHandle,
    view: ViewModel,
    sampler: u64,
    uniform: Option<RenderViewUniform>,
) -> PassState {
    submitted(bound(queried(status, pipeline), view, sampler, uniform), view)
}

/// The view after the whole pass.
pub open spec fn pass_view(status: Option<PipelineStatus>, view: ViewModel) -> ViewModel {
    if status == Some(PipelineStatus::Ready) {
        view.flipped()
    } else {
        view
    }
}

impl PassState {
    /// Whether the pass drew nothing, so that the view shows its input.
    pub open spec fn is_skipped(self) -> bool {
        self is Skipped
    }

    /// Whether the pass is over for this frame.
    pub open spec fn is_terminal(self) -> bool {
        self is Skipped || self is Submitted
    }

    /// Whether the view shows its input after this pass: nothing was drawn, or
    /// the draw carries intensity zero, for which the shader is bound to copy
    /// what it reads.
    pub open spec fn passes_through(self) -> bool {
        match self {
            PassState::Submitted { draw } => draw.bind_group.uniform.intensity == 0,
            _ => true,
        }
    }

    /// Whether the view shows its input after this pass.
    pub fn is_pass_through(&self) -> (through: bool)
        ensures
            through == self.passes_through(),
    {
        match self {
            PassState::Submitted { draw } => draw.bind_group.uniform.intensity == 0,
            _ => true,
        }
    }
}

impl ViewTarget {
    pub closed spec fn view(&self) -> ViewModel {
        ViewModel { front: self.front, back: self.back }
    }

    #[verifier::type_invariant]
    spec fn inv(self) -> bool {
        self.front != self.back
    }

    /// A view over two textures, the first holding the current image. The two
    /// must differ.
    pub fn new(front: u64, back: u64) -> (target: Option<ViewTarget>)
        ensures
            front == back <==> target.is_none(),
            target matches Some(t) ==> t@ == (ViewModel { front, back }) && t@.wf(),
    {
        if front == back {
            None
        } else {
            Some(ViewTarget { front, back })
        }
    }

    /// The texture that holds the current image.
    pub fn source(&self) -> (texture: u64)
        ensures
            texture == self@.front,
    {
        self.front
    }

    /// The texture that the next pass writes.
    pub fn destination(&self) -> (texture: u64)
        ensures
            texture == self@.back,
            texture != self@.front,
    {
        proof {
            use_type_invariant(self);
        }
        self.back
    }

    fn flip(&mut self)
        ensures
            final(self)@ == old(self)@.flipped(),
    {
        proof {
            use_type_invariant(&*self);
        }
        *self = ViewTarget { front: self.back, back: self.front };
    }
}

/// First transition: asks the cache for the pipeline. A pipeline that is not
/// ready ends the pass for this frame.
pub fn query_pipeline(cache: &PipelineCache, pipeline: PipelineHandle) -> (state: PassState)
    ensures
        state == queried(cache@.status(pipeline), pipeline),
{
    match cache.status(pipeline) {
        Some(PipelineStatus::Ready) => PassState::PipelineReady { pipeline },
        Some(PipelineStatus::InFlight) => PassState::Skipped { reason: SkipReason::NotReady },
        Some(PipelineStatus::Failed) => PassState::Skipped { reason: SkipReason::Disabled },
        None => PassState::Skipped { reason: SkipReason::NoPipeline },
    }
}

/// Second transition: builds the bind group from the view as it is now. A
/// view without a uniform is bound to intensity zero. Any state but
/// `PipelineReady` is handed back as it is.
pub fn build_bind_group(
    state: PassState,
    view: &ViewTarget,
    sampler: u64,
    uniform: Option<RenderViewUniform>,
) -> (next: PassState)
    ensures
        next == bound(state, view@, sampler, uniform),
        state is PipelineReady ==> fresh_for(next, view@),
{
    match state {
        PassState::PipelineReady { pipeline } => {
            let bound_uniform = match uniform {
                Some(u) => u,
                None => RenderViewUniform::zero(),
            };
            PassState::BindGroupBuilt {
                pipeline,
                bind_group: BindGroup { source: view.source(), sampler, uniform: bound_uniform },
                destination: view.destination(),
            }
        },
        _ => state,
    }
}

/// Third transition: submits the draw and flips the view, so that the next
/// pass reads what this one wrote. A bind group that was not built from the
/// view as it is now is not submitted. Any state but `BindGroupBuilt` is
/// handed back as it is, and the view stays as it is.
pub fn submit(state: PassState, view: &mut ViewTarget) -> (next: PassState)
    ensures
        next == submitted(state, old(view)@),
        final(view)@ == view_after(state, old(view)@),
        fresh_for(state, old(view)@) ==> (next matches PassState::Submitted { draw } && {
            &&& draw.bind_group.source == old(view)@.front
            &&& draw.destination == old(view)@.back
            &&& draw.bind_group.source != draw.destination
            &&& final(view)@.front == draw.destination
        }),
        !fresh_for(state, old(view)@) ==> final(view)@ == old(view)@,
        final(view)@.wf(),
{
    proof {
        use_type_invariant(&*view);
    }
    match state {
        PassState::BindGroupBuilt { pipeline, bind_group, destination } => {
            if bind_group.source == view.source() && destination == view.destination() {
                view.flip();
                PassState::Submitted {
                    draw: DrawCall {
                        pipeline,
                        bind_group,
                        destination,
                        vertices: FULLSCREEN_VERTICES,
                        instances: 1,
                    },
                }
            } else {
                PassState::Skipped { reason: SkipReason::StaleBindGroup }
            }
        },
        _ => state,
    }
}

/// The whole pass of one view: query, bind, submit. With a ready pipeline the
/// draw reads the view's front texture and writes its back texture, and the
/// view is flipped; otherwise the pass is skipped and the view is untouched.
pub fn run_pass(
    cache: &PipelineCache,
    pipeline: PipelineHandle,
    view: &mut ViewTarget,
    sampler: u64,
    uniform: Option<RenderViewUniform>,
) -> (end: PassState)
    ensures
        end == pass_result(cache@.status(pipeline), pipeline, old(view)@, sampler, uniform),
        final(view)@ == pass_view(cache@.status(pipeline), old(view)@),
        end.is_terminal(),
        end is Submitted <==> cache@.status(pipeline) == Some(PipelineStatus::Ready),
        end.is_skipped() ==> final(view)@ == old(view)@,
{
    let ready = query_pipeline(cache, pipeline);
    let built = build_bind_group(ready, view, sampler, uniform);
    submit(built, view)
}

/// The uniform of a view in a frame's uniforms, if the view has one.
pub open spec fn uniform_of(uniforms: Seq<RenderViewUniform>, view: int) -> Option<
    RenderViewUniform,
> {
    if 0 <= view < uniforms.len() {
        Some(uniforms[view])
    } else {
        None
    }
}

/// The passes of one frame, one for each view in turn. View `i` is bound to
/// uniform `i`, or to intensity zero where the frame has fewer uniforms than
/// views. With no view nothing happens.
pub fn run_frame(
    cache: &PipelineCache,
    pipeline: PipelineHandle,
    views: &mut Vec<ViewTarget>,
    sampler: u64,
    uniforms: &Vec<RenderViewUniform>,
) -> (ends: Vec<PassState>)
    ensures
        ends@.len() == old(views)@.len(),
        final(views)@.len() == old(views)@.len(),
        forall|i: int|
            0 <= i < ends@.len() ==> #[trigger] ends@[i] == pass_result(
                cache@.status(pipeline),
                pipeline,
                old(views)@[i]@,
                sampler,
                uniform_of(uniforms@, i),
            ),
        forall|i: int|
            0 <= i < ends@.len() ==> (#[trigger] final(views)@[i])@ == pass_view(
                cache@.status(pipeline),
                old(views)@[i]@,
            ),
{
    let mut ends: Vec<PassState> = Vec::new();
    let mut i: usize = 0;
    while i < views.len()
        invariant
            i <= views@.len(),
            views@.len() == old(views)@.len(),
            ends@.len() == i,
            forall|j: int|
                0 <= j < i ==> #[trigger] ends@[j] == pass_result(
                    cache@.status(pipeline),
                    pipeline,
                    old(views)@[j]@,
                    sampler,
                    uniform_of(uniforms@, j),
                ),
            forall|j: int|
                0 <= j < i ==> (#[trigger] views@[j])@ == pass_view(
                    cache@.status(pipeline),
                    old(views)@[j]@,
                ),
            forall|j: int| i <= j < views@.len() ==> (#[trigger] views@[j])@ == old(views)@[j]@,
        decreases views@.len() - i,
    {
        let uniform = if i < uniforms.len() {
            Some(uniforms[i])
        } else {
            None
        };
        let end = run_pass(cache, pipeline, &mut views[i], sampler, uniform);
        ends.push(end);
        i = i + 1;
    }
    ends
}

/// A pass whose pipeline is not ready draws nothing and leaves the view as it
/// was: the frame shows its input.
pub proof fn unready_pass_is_pass_through(
    status: Option<PipelineStatus>,
    pipeline: PipelineHandle,
    view: ViewModel,
    sampler: u64,
    uniform: Option<RenderViewUniform>,
)
    requires
        status != Some(PipelineStatus::Ready),
    ensures
        pass_result(status, pipeline, view, sampler, uniform).is_skipped(),
        pass_view(status, view) == view,
{
}

/// A pass passes its input through if and only if its pipeline is not ready
/// or the intensity it is bound to is zero.
pub proof fn pass_through_law(
    status: Option<PipelineStatus>,
    pipeline: PipelineHandle,
    view: ViewModel,
    sampler: u64,
    uniform: Option<RenderViewUniform>,
)
    requires
        view.wf(),
    ensures
        pass_result(status, pipeline, view, sampler, uniform).passes_through() <==> (status
            != Some(PipelineStatus::Ready) || bound_uniform(uniform).intensity == 0),
{
}

/// A pass whose pipeline is ready submits one draw of three vertices that
/// reads the view's front texture and writes its back texture, which differ;
/// its bindings are the source, the sampler and the view's uniform, and a view
/// without a uniform is drawn with intensity zero.
pub proof fn ready_pass_draws_once(
    pipeline: PipelineHandle,
    view: ViewModel,
    sampler: u64,
    uniform: Option<RenderViewUniform>,
)
    requires
        view.wf(),
    ensures
        pass_result(Some(PipelineStatus::Ready), pipeline, view, sampler, uniform) == (
        PassState::Submitted {
            draw: DrawCall {
                pipeline,
                bind_group: BindGroup {
                    source: view.front,
                    sampler,
                    uniform: bound_uniform(uniform),
                },
                destination: view.back,
                vertices: 3,
                instances: 1,
            },
        }),
        uniform.is_none() ==> bound_uniform(uniform).intensity == 0,
        pass_view(Some(PipelineStatus::Ready), view) == view.flipped(),
{
}

/// Two passes in a row on one view trade the textures: the second reads what
/// the first wrote and writes what the first read, and the view ends as it
/// began.
pub proof fn chained_passes_trade_textures(
    pipeline: PipelineHandle,
    view: ViewModel,
    sampler: u64,
    first_uniform: Option<RenderViewUniform>,
    second_uniform: Option<RenderViewUniform>,
)
    requires
        view.wf(),
    ensures
        ({
            let ready = Some(PipelineStatus::Ready);
            let first = pass_result(ready, pipeline, view, sampler, first_uniform);
            let between = pass_view(ready, view);
            let second = pass_result(ready, pipeline, between, sampler, second_uniform);
            &&& first is Submitted
            &&& second is Submitted
            &&& second->draw.bind_group.source == first->draw.destination
            &&& second->draw.destination == first->draw.bind_group.source
            &&& pass_view(ready, between) == view
        }),
{
}

} // verus!
