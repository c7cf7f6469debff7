//! The post-process pass: what the pipeline binds, and what a frame does with
//! the resources it finds.

use vstd::prelude::*;

verus! {

/// What one slot of the bind group holds. The fragment stage is the only
/// stage that sees any of them.
#[derive(Clone, Copy, Debug, PartialEq, Eq, Structural)]
pub enum Binding {
    /// The frame as drawn so far: a two-dimensional, filterable float texture.
    SourceTexture,
    /// The filtering sampler that reads it.
    Sampler,
    /// The transition's own record, as a uniform buffer.
    Settings,
    /// The host's per-frame globals, as a uniform buffer.
    Globals,
}

/// The layout that the pipeline is built against, made once at startup.
#[derive(Debug)]
pub struct TransitionPipeline {
    layout: Vec<Binding>,
}

impl View for TransitionPipeline {
    type V = Seq<Binding>;

    closed spec fn view(&self) -> Seq<Binding> {
        self.layout@
    }
}

impl TransitionPipeline {
    #[verifier::type_invariant]
    spec fn inv(self) -> bool {
        self.layout@ == Self::slots()
    }

    /// The four slots in binding order.
    pub open spec fn slots() -> Seq<Binding> {
        seq![Binding::SourceTexture, Binding::Sampler, Binding::Settings, Binding::Globals]
    }

    pub fn new() -> (pipeline: TransitionPipeline)
        ensures
            pipeline@ == Self::slots(),
    {
        let mut layout: Vec<Binding> = Vec::new();
        layout.push(Binding::SourceTexture);
        layout.push(Binding::Sampler);
        layout.push(Binding::Settings);
        layout.push(Binding::Globals);
        assert(layout@ == Self::slots());
        TransitionPipeline { layout }
    }

    /// The slots in binding order: slot `i` is bound at index `i`.
    pub fn layout(&self) -> (slots: &Vec<Binding>)
        ensures
            slots@ == self@,
            self@ == Self::slots(),
    {
        proof {
            use_type_invariant(self);
        }
        &self.layout
    }
}

/// The resource that a frame found missing.
#[derive(Clone, Copy, Debug, PartialEq, Eq, Structural)]
pub enum ResourceNotReady {
    /// The pipeline has not finished compiling.
    Pipeline,
    /// The transition's record has no buffer bound yet.
    Uniform,
    /// The host's globals have no buffer bound yet.
    Globals,
}

/// The draw of one frame: a single triangle that covers the screen, from no
/// vertex buffer.
#[derive(Debug)]
pub struct Draw<P, U, G> {
    pub pipeline: P,
    /// Goes into the slot of [`Binding::Settings`].
    pub settings: U,
    /// Goes into the slot of [`Binding::Globals`].
    pub globals: G,
    pub vertices: u32,
    pub instances: u32,
}

/// What the render step does this frame.
#[derive(Debug)]
pub enum RenderStep<P, U, G> {
    /// A resource is missing. Nothing is drawn, and the next frame tries again.
    Skip(ResourceNotReady),
    Draw(Draw<P, U, G>),
}

/// The render step of the transition.
#[derive(Clone, Copy, Debug, Default)]
pub struct TransitionNode;

impl TransitionNode {
    /// Decides what this frame draws from what the host could provide: the
    /// compiled pipeline and the bindings of the two uniform buffers. A
    /// missing resource skips the frame and names the first one missing;
    /// with all three the frame draws three vertices in one instance.
    pub fn run<P, U, G>(
        &self,
        pipeline: Option<P>,
        settings: Option<U>,
        globals: Option<G>,
    ) -> (step: RenderStep<P, U, G>)
        ensures
            pipeline is None ==> step == RenderStep::<P, U, G>::Skip(ResourceNotReady::Pipeline),
            pipeline is Some && settings is None ==> step == RenderStep::<P, U, G>::Skip(
                ResourceNotReady::Uniform,
            ),
            pipeline is Some && settings is Some && globals is None ==> step == RenderStep::<
                P,
                U,
                G,
            >::Skip(ResourceNotReady::Globals),
            pipeline is Some && settings is Some && globals is Some ==> step == RenderStep::Draw(
                Draw {
                    pipeline: pipeline->Some_0,
                    settings: settings->Some_0,
                    globals: globals->Some_0,
                    vertices: 3,
                    instances: 1,
                },
            ),
    {
        let Some(pipeline) = pipeline else {
            return RenderStep::Skip(ResourceNotReady::Pipeline);
        };
        let Some(settings) = settings else {
            return RenderStep::Skip(ResourceNotReady::Uniform);
        };
        let Some(globals) = globals else {
            return RenderStep::Skip(ResourceNotReady::Globals);
        };
        RenderStep::Draw(Draw { pipeline, settings, globals, vertices: 3, instances: 1 })
    }
}

} // verus!
