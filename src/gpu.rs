use vstd::prelude::*;

use crate::error::PipelineError;

verus! {

/// Where the GPU resources are in their life.
#[derive(Debug, Clone, Copy, PartialEq, Eq, Structural)]
pub enum GpuPhase {
    Uninitialized,
    ContextCreated,
    ResourcesReady,
    Destroyed,
}

/// One resource to hand back to the GPU driver.
#[derive(Debug, Clone, Copy, PartialEq, Eq, Structural)]
pub enum Release {
    Texture(u32),
    Program(u32),
    Context,
}

/// The phase and the resources held: whether a context exists, and the
/// handles of the one texture and the one program.
pub struct GpuView {
    pub phase: GpuPhase,
    pub context: bool,
    pub texture: Option<u32>,
    pub program: Option<u32>,
}

impl GpuView {
    pub open spec fn initial() -> GpuView {
        GpuView { phase: GpuPhase::Uninitialized, context: false, texture: None, program: None }
    }

    /// Resources are held only once a context exists, and nothing is held
    /// once destroyed.
    pub open spec fn wf(self) -> bool {
        &&& (self.texture is Some || self.program is Some) ==> self.context
        &&& self.phase == GpuPhase::Uninitialized ==> !self.context
        &&& self.phase == GpuPhase::ContextCreated ==> self.context
        &&& self.phase == GpuPhase::ResourcesReady ==> self.context && self.texture is Some
            && self.program is Some
        &&& self.phase == GpuPhase::Destroyed ==> !self.context && self.texture is None
            && self.program is None
    }

    pub open spec fn ready(self) -> bool {
        self.phase == GpuPhase::ResourcesReady
    }

    /// What teardown hands back, in order: texture, program, context, each
    /// only where held.
    pub open spec fn releases(self) -> Seq<Release> {
        (if let Some(t) = self.texture {
            seq![Release::Texture(t)]
        } else {
            seq![]
        }) + (if let Some(p) = self.program {
            seq![Release::Program(p)]
        } else {
            seq![]
        }) + (if self.context {
            seq![Release::Context]
        } else {
            seq![]
        })
    }

    /// The state after teardown: destroyed, holding nothing.
    pub open spec fn torn_down(self) -> GpuView {
        GpuView { phase: GpuPhase::Destroyed, context: false, texture: None, program: None }
    }
}

/// Tearing down twice hands nothing back the second time, so every resource
/// is released at most once, and the resources stay unusable.
pub proof fn lemma_teardown_releases_once(g: GpuView)
    ensures
        g.torn_down().releases() =~= seq![],
        g.torn_down().torn_down() == g.torn_down(),
        !g.torn_down().ready(),
        g.torn_down().wf(),
{
}

/// Whether a shader stage may be attached: fails with `ShaderCompileError`,
/// carrying the compiler's log, where it did not compile.
pub fn check_stage(compiled: bool, log: String) -> (r: Result<(), PipelineError>)
    ensures
        compiled ==> r is Ok,
        !compiled ==> r == Err::<(), PipelineError>(PipelineError::ShaderCompileError(log)),
{
    if compiled {
        Ok(())
    } else {
        Err(PipelineError::ShaderCompileError(log))
    }
}

/// Owner of the GPU context, the texture and the program.
pub struct GpuResources {
    phase: GpuPhase,
    context: bool,
    texture: Option<u32>,
    program: Option<u32>,
}

impl View for GpuResources {
    type V = GpuView;

    closed spec fn view(&self) -> GpuView {
        GpuView {
            phase: self.phase,
            context: self.context,
            texture: self.texture,
            program: self.program,
        }
    }
}

impl GpuResources {
    pub fn new() -> (r: GpuResources)
        ensures
            r@ == GpuView::initial(),
            r@.wf(),
    {
        GpuResources { phase: GpuPhase::Uninitialized, context: false, texture: None, program: None }
    }

    pub fn phase(&self) -> (r: GpuPhase)
        ensures
            r == self@.phase,
    {
        self.phase
    }

    /// Handle of the texture, if made and not released.
    pub fn texture(&self) -> (r: Option<u32>)
        ensures
            r == self@.texture,
    {
        self.texture
    }

    /// Handle of the program, if made and not released.
    pub fn program(&self) -> (r: Option<u32>)
        ensures
            r == self@.program,
    {
        self.program
    }

    pub fn is_ready(&self) -> (r: bool)
        ensures
            r == self@.ready(),
    {
        matches!(self.phase, GpuPhase::ResourcesReady)
    }

    /// Records that the context exists.
    pub fn context_created(&mut self)
        requires
            old(self)@.phase == GpuPhase::Uninitialized,
            old(self)@.wf(),
        ensures
            final(self)@ == (GpuView { phase: GpuPhase::ContextCreated, context: true, ..old(self)@ }),
            final(self)@.wf(),
    {
        self.phase = GpuPhase::ContextCreated;
        self.context = true;
    }

    /// Records the handle of the texture.
    pub fn texture_created(&mut self, texture: u32)
        requires
            old(self)@.phase == GpuPhase::ContextCreated,
            old(self)@.texture is None,
            old(self)@.wf(),
        ensures
            final(self)@ == (GpuView { texture: Some(texture), ..old(self)@ }),
            final(self)@.wf(),
    {
        self.texture = Some(texture);
    }

    /// Records the handle of the program.
    pub fn program_created(&mut self, program: u32)
        requires
            old(self)@.phase == GpuPhase::ContextCreated,
            old(self)@.program is None,
            old(self)@.wf(),
        ensures
            final(self)@ == (GpuView { program: Some(program), ..old(self)@ }),
            final(self)@.wf(),
    {
        self.program = Some(program);
    }

    /// Records the outcome of linking the program: the resources are ready
    /// where it linked; else fails with `ShaderLinkError`, carrying the
    /// linker's log, and the resources stay held for teardown.
    pub fn program_linked(&mut self, linked: bool, log: String) -> (r: Result<(), PipelineError>)
        requires
            old(self)@.phase == GpuPhase::ContextCreated,
            old(self)@.texture is Some,
            old(self)@.program is Some,
            old(self)@.wf(),
        ensures
            linked ==> r is Ok && final(self)@ == (GpuView {
                phase: GpuPhase::ResourcesReady,
                ..old(self)@
            }),
            !linked ==> r == Err::<(), PipelineError>(PipelineError::ShaderLinkError(log))
                && final(self)@ == old(self)@,
            final(self)@.wf(),
    {
        if linked {
            self.phase = GpuPhase::ResourcesReady;
            Ok(())
        } else {
            Err(PipelineError::ShaderLinkError(log))
        }
    }

    /// Hands back everything held, texture first, then program, then context,
    /// and leaves the resources destroyed. From any phase; a second call hands
    /// back nothing.
    pub fn teardown(&mut self) -> (r: Vec<Release>)
        requires
            old(self)@.wf(),
        ensures
            r@ == old(self)@.releases(),
            final(self)@ == old(self)@.torn_down(),
            final(self)@.wf(),
    {
        let mut r: Vec<Release> = Vec::new();
        if let Some(t) = self.texture {
            r.push(Release::Texture(t));
        }
        if let Some(p) = self.program {
            r.push(Release::Program(p));
        }
        if self.context {
            r.push(Release::Context);
        }
        self.phase = GpuPhase::Destroyed;
        self.context = false;
        self.texture = None;
        self.program = None;
        proof {
            assert(r@ =~= old(self)@.releases());
        }
        r
    }
}

} // verus!
