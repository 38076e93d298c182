//! One frame from end to end: the simulation ticks of the frame, then the
//! extraction, then the pass of every view. The order is fixed by the code:
//! the passes see the parameter as the last tick of the frame left it.

use vstd::prelude::*;
use crate::driver::{SessionModel, TickInput};
use crate::executor::{pass_result, pass_view, run_frame, PassState, ViewTarget};
use crate::extract::{frame_uniforms, intensities, RenderViewUniform};
use crate::lifecycle::Simulation;
use crate::pipeline::{PipelineCache, PipelineHandle};

verus! {

/// The places of the effect pass and its two neighbours in the frame's order
/// of passes.
#[derive(Clone, Copy, Debug, PartialEq, Eq, Structural)]
pub enum PassLabel {
    Tonemapping,
    Effect,
    EndPostProcessing,
}

/// The ordering edges of the effect pass: it runs after tone mapping and
/// before the end of post-processing.
pub open spec fn ordering_edges() -> Seq<(PassLabel, PassLabel)> {
    seq![
        (PassLabel::Tonemapping, PassLabel::Effect),
        (PassLabel::Effect, PassLabel::EndPostProcessing),
    ]
}

/// The ordering edges to register for the effect pass, each as the pass that
/// runs first and the pass that runs after it.
pub fn effect_edges() -> (edges: Vec<(PassLabel, PassLabel)>)
    ensures
        edges@ == ordering_edges(),
{
    let mut edges: Vec<(PassLabel, PassLabel)> = Vec::new();
    edges.push((PassLabel::Tonemapping, PassLabel::Effect));
    edges.push((PassLabel::Effect, PassLabel::EndPostProcessing));
    proof {
        assert(edges@ =~= ordering_edges());
    }
    edges
}

/// The session of a simulation after the ticks of a script: run if there is
/// one.
pub open spec fn ran(session: Option<SessionModel>, script: Seq<TickInput>) -> Option<
    SessionModel,
> {
    match session {
        Some(s) => Some(s.run(script)),
        None => None,
    }
}

/// The uniform that every view of a frame is bound to: one with the session's
/// intensity, or none where there is no session.
pub open spec fn frame_uniform(session: Option<SessionModel>) -> Option<RenderViewUniform> {
    match session {
        Some(s) => Some(RenderViewUniform { intensity: s.intensity as u64 }),
        None => None,
    }
}

/// Extraction and passes of one frame, with no tick before them.
pub fn render_frame(
    simulation: &Simulation,
    cache: &PipelineCache,
    pipeline: PipelineHandle,
    views: &mut Vec<ViewTarget>,
    sampler: u64,
) -> (ends: Vec<PassState>)
    ensures
        ends@.len() == old(views)@.len(),
        final(views)@.len() == old(views)@.len(),
        forall|i: int|
            0 <= i < ends@.len() ==> #[trigger] ends@[i] == pass_result(
                cache@.status(pipeline),
                pipeline,
                old(views)@[i]@,
                sampler,
                frame_uniform(simulation@),
            ),
        forall|i: int|
            0 <= i < ends@.len() ==> (#[trigger] final(views)@[i])@ == pass_view(
                cache@.status(pipeline),
                old(views)@[i]@,
            ),
{
    let uniforms = simulation.extract(views.len());
    proof {
        let staged = frame_uniforms(simulation@, views@.len() as nat);
        assert forall|i: int| 0 <= i < views@.len() implies crate::executor::uniform_of(
            uniforms@,
            i,
        ) == frame_uniform(simulation@) by {
            assert(intensities(uniforms@).len() == staged.len());
            match simulation@ {
                Some(s) => {
                    assert(intensities(uniforms@)[i] == staged[i]);
                    assert(uniforms@[i].intensity as nat == s.intensity);
                },
                None => {},
            }
        }
    }
    run_frame(cache, pipeline, views, sampler, &uniforms)
}

/// A whole frame: every tick of the frame, first to last, then extraction and
/// passes. The passes are bound to the intensity that the last tick left.
pub fn advance_frame(
    simulation: &mut Simulation,
    ticks: &Vec<TickInput>,
    cache: &PipelineCache,
    pipeline: PipelineHandle,
    views: &mut Vec<ViewTarget>,
    sampler: u64,
) -> (ends: Vec<PassState>)
    ensures
        final(simulation)@ == ran(old(simulation)@, ticks@),
        ends@.len() == old(views)@.len(),
        final(views)@.len() == old(views)@.len(),
        forall|i: int|
            0 <= i < ends@.len() ==> #[trigger] ends@[i] == pass_result(
                cache@.status(pipeline),
                pipeline,
                old(views)@[i]@,
                sampler,
                frame_uniform(ran(old(simulation)@, ticks@)),
            ),
        forall|i: int|
            0 <= i < ends@.len() ==> (#[trigger] final(views)@[i])@ == pass_view(
                cache@.status(pipeline),
                old(views)@[i]@,
            ),
{
    let mut i: usize = 0;
    proof {
        assert(ticks@.skip(0) =~= ticks@);
    }
    while i < ticks.len()
        invariant
            i <= ticks@.len(),
            ran(simulation@, ticks@.skip(i as int)) == ran(old(simulation)@, ticks@),
        decreases ticks@.len() - i,
    {
        proof {
            let rest = ticks@.skip(i as int);
            assert(rest.first() == ticks@[i as int]);
            assert(rest.drop_first() =~= ticks@.skip(i + 1));
        }
        simulation.tick(ticks[i]);
        i = i + 1;
    }
    proof {
        assert(ticks@.skip(i as int).len() == 0);
    }
    render_frame(simulation, cache, pipeline, views, sampler)
}

} // verus!
