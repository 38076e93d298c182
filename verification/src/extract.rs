//! The step between the two domains: once per frame the effect parameter is
//! copied, by value, into one uniform for each active view.

use vstd::prelude::*;
use crate::driver::{Session, SessionModel, TickInput};
use crate::parameter::EffectParameter;

verus! {

/// What the shader is handed for one view: the intensity, in units, as its
/// only field.
#[derive(Clone, Copy, Debug, PartialEq, Eq, Structural)]
pub struct RenderViewUniform {
    pub intensity: u64,
}

/// The uniforms of one frame: none where there is no parameter, else one for
/// each view, all with the parameter's intensity.
pub open spec fn staged(intensity: Option<nat>, views: nat) -> Seq<nat> {
    match intensity {
        Some(units) => Seq::new(views, |i: int| units),
        None => Seq::empty(),
    }
}

/// The intensity that the pass of a view works with: that of the view's
/// uniform, and zero for a view that has none.
pub open spec fn view_intensity(uniforms: Seq<nat>, view: nat) -> nat {
    if view < uniforms.len() {
        uniforms[view as int]
    } else {
        0
    }
}

/// The intensities that a frame's uniforms hold, view by view.
pub open spec fn intensities(uniforms: Seq<RenderViewUniform>) -> Seq<nat> {
    Seq::new(uniforms.len(), |i: int| uniforms[i].intensity as nat)
}

impl RenderViewUniform {
    /// The uniform of a view for which nothing was extracted.
    pub fn zero() -> (uniform: RenderViewUniform)
        ensures
            uniform.intensity == 0,
    {
        RenderViewUniform { intensity: 0 }
    }
}

/// Copies the parameter into a uniform.
pub fn extract(parameter: EffectParameter) -> (uniform: RenderViewUniform)
    ensures
        uniform.intensity == parameter@,
{
    RenderViewUniform { intensity: parameter.intensity() }
}

/// Extracts the parameter for every active view. Without a parameter nothing
/// is extracted.
pub fn extract_views(parameter: Option<EffectParameter>, views: usize) -> (uniforms: Vec<
    RenderViewUniform,
>)
    ensures
        intensities(uniforms@) == staged(
            match parameter {
                Some(p) => Some(p@),
                None => None,
            },
            views as nat,
        ),
        parameter.is_some() ==> uniforms@.len() == views,
        parameter.is_none() ==> uniforms@.len() == 0,
{
    let mut uniforms: Vec<RenderViewUniform> = Vec::new();
    match parameter {
        Some(p) => {
            let mut i: usize = 0;
            while i < views
                invariant
                    i <= views,
                    uniforms@.len() == i,
                    forall|j: int| 0 <= j < i ==> (#[trigger] uniforms@[j]).intensity == p@,
                decreases views - i,
            {
                uniforms.push(extract(p));
                i = i + 1;
            }
            proof {
                assert(intensities(uniforms@) =~= staged(Some(p@), views as nat));
            }
        },
        None => {
            proof {
                assert(intensities(uniforms@) =~= staged(None, views as nat));
            }
        },
    }
    uniforms
}

/// The uniform that the pass of a view is to use: the view's own, or one of
/// intensity zero where the view has none.
pub fn uniform_for_view(uniforms: &Vec<RenderViewUniform>, view: usize) -> (uniform:
    RenderViewUniform)
    ensures
        uniform.intensity == view_intensity(intensities(uniforms@), view as nat),
        view < uniforms@.len() ==> uniform == uniforms@[view as int],
{
    if view < uniforms.len() {
        uniforms[view]
    } else {
        RenderViewUniform::zero()
    }
}

/// Extracts a session's parameter for every active view. Before a session
/// exists there is nothing to extract.
pub fn extract_session(session: Option<&Session>, views: usize) -> (uniforms: Vec<
    RenderViewUniform,
>)
    ensures
        intensities(uniforms@) == frame_uniforms(
            match session {
                Some(s) => Some(s@),
                None => None,
            },
            views as nat,
        ),
{
    match session {
        Some(s) => extract_views(Some(s.parameter()), views),
        None => extract_views(None, views),
    }
}

/// What extraction yields for a session, or for none.
pub open spec fn frame_uniforms(session: Option<SessionModel>, views: nat) -> Seq<nat> {
    match session {
        Some(s) => staged(Some(s.intensity), views),
        None => staged(None, views),
    }
}

/// Extraction repeated with no tick in between yields the same uniforms: what
/// it yields depends on the parameter and the number of views alone, and a
/// session that ran no tick is the session it was.
pub proof fn extraction_is_repeatable(session: SessionModel, views: nat)
    ensures
        session.run(Seq::<TickInput>::empty()) == session,
        frame_uniforms(Some(session.run(Seq::<TickInput>::empty())), views) == frame_uniforms(
            Some(session),
            views,
        ),
{
}

/// Every view of a frame is handed the same intensity, that of the one shared
/// parameter.
pub proof fn views_share_one_intensity(session: SessionModel, views: nat, a: nat, b: nat)
    requires
        a < views,
        b < views,
    ensures
        view_intensity(frame_uniforms(Some(session), views), a) == session.intensity,
        view_intensity(frame_uniforms(Some(session), views), b) == session.intensity,
{
}

/// Where each tick of a script raises the counter once, the intensity that a
/// view observes after the extraction of frame `frame` is the one computed from
/// exactly the first `frame` ticks.
pub proof fn extraction_observes_completed_ticks(
    session: SessionModel,
    script: Seq<TickInput>,
    frame: nat,
    views: nat,
    view: nat,
)
    requires
        session.wf(),
        session.increments_once_per_tick(script),
        frame <= script.len(),
        view < views,
    ensures
        view_intensity(
            frame_uniforms(Some(session.run(script.take(frame as int))), views),
            view,
        ) == crate::parameter::intensity_of(
            crate::driver::bumped_by(session.count, frame),
            session.scale,
            session.max,
        ),
{
    crate::driver::ticks_before_frame_decide_intensity(session, script, frame);
}

} // verus!
