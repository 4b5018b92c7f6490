//! The queue of pipeline descriptions awaiting compilation, and the handles by
//! which their pipelines are found again.

use crate::pipeline::{RenderPipelineDescriptor, RenderPipelineDescriptorView};
use vstd::prelude::*;

verus! {

/// The handle of a pipeline in a [`PipelineCache`]: the place of its description
/// in the order in which descriptions were queued.
#[derive(Clone, Copy, Debug, PartialEq, Eq, Hash, Structural)]
pub struct CachedRenderPipelineId(pub usize);

/// How far the compilation of a queued pipeline has come.
#[derive(Clone, Copy, Debug, PartialEq, Eq, Structural)]
pub enum CachedPipelineState {
    /// Compilation has not finished.
    Queued,
    /// The pipeline is compiled and can be used.
    Ready,
    /// Compilation failed; the pipeline will never be ready.
    Failed,
}

/// The mathematical content of one entry of a [`PipelineCache`].
pub struct CachedPipelineView {
    pub descriptor: RenderPipelineDescriptorView,
    pub state: CachedPipelineState,
}

/// One entry of a [`PipelineCache`]: a description and the state of its
/// compilation.
#[derive(Clone, Debug, PartialEq, Eq)]
pub struct CachedPipeline {
    pub descriptor: RenderPipelineDescriptor,
    pub state: CachedPipelineState,
}

impl View for CachedPipeline {
    type V = CachedPipelineView;

    open spec fn view(&self) -> CachedPipelineView {
        CachedPipelineView { descriptor: self.descriptor@, state: self.state }
    }
}

/// All pipelines that were ever queued, in the order of queueing. Entries are
/// only ever added; a handle, once given out, stays valid.
#[derive(Clone, Debug, PartialEq, Eq)]
pub struct PipelineCache {
    pipelines: Vec<CachedPipeline>,
}

impl View for PipelineCache {
    type V = Seq<CachedPipelineView>;

    closed spec fn view(&self) -> Seq<CachedPipelineView> {
        self.pipelines@.map_values(|pipeline: CachedPipeline| pipeline@)
    }
}

impl PipelineCache {

    /// A cache to which nothing has been queued.
    pub fn new() -> (cache: PipelineCache)
        ensures
            cache@ == Seq::<CachedPipelineView>::empty(),
    {
        let cache = PipelineCache { pipelines: Vec::new() };
        proof {
            assert(cache@ =~= Seq::<CachedPipelineView>::empty());
        }
        cache
    }

    /// The number of pipelines queued so far.
    pub fn len(&self) -> (len: usize)
        ensures
            len == self@.len(),
    {
        self.pipelines.len()
    }

    /// Queues a description for compilation and returns the handle of its
    /// pipeline at once. The handle is new: it is the number of pipelines
    /// queued before.
    pub fn queue_render_pipeline(&mut self, descriptor: RenderPipelineDescriptor) -> (id:
        CachedRenderPipelineId)
        ensures
            id.0 == old(self)@.len(),
            old(self)@.len() < usize::MAX,
            final(self)@ == old(self)@.push(
                CachedPipelineView { descriptor: descriptor@, state: CachedPipelineState::Queued },
            ),
    {
        let id = CachedRenderPipelineId(self.pipelines.len());
        self.pipelines.push(CachedPipeline { descriptor, state: CachedPipelineState::Queued });
        let _ = self.pipelines.len();
        proof {
            assert(self@ =~= old(self)@.push(
                CachedPipelineView { descriptor: descriptor@, state: CachedPipelineState::Queued },
            ));
        }
        id
    }

    /// How far the compilation of the pipeline has come, or `None` for a
    /// handle that this cache never gave out.
    pub fn get_render_pipeline_state(&self, id: CachedRenderPipelineId) -> (state: Option<
        CachedPipelineState,
    >)
        ensures
            state == (if id.0 < self@.len() {
                Some(self@[id.0 as int].state)
            } else {
                None
            }),
    {
        if id.0 < self.pipelines.len() {
            Some(self.pipelines[id.0].state)
        } else {
            None
        }
    }

    /// The description that was queued under the handle, whatever the state
    /// of its compilation, or `None` for a handle that this cache never gave
    /// out.
    pub fn get_render_pipeline_descriptor(&self, id: CachedRenderPipelineId) -> (descriptor: Option<
        &RenderPipelineDescriptor,
    >)
        ensures
            descriptor is Some <==> id.0 < self@.len(),
            descriptor matches Some(found) ==> found@ == self@[id.0 as int].descriptor,
    {
        if id.0 < self.pipelines.len() {
            Some(&self.pipelines[id.0].descriptor)
        } else {
            None
        }
    }

    /// The description of the pipeline, if the pipeline is ready. A pipeline
    /// whose compilation is pending or has failed is not ready, and neither is
    /// one that this cache never gave a handle for: the caller skips what it
    /// meant to draw with it.
    pub fn get_render_pipeline(&self, id: CachedRenderPipelineId) -> (pipeline: Option<
        &RenderPipelineDescriptor,
    >)
        ensures
            pipeline is Some <==> id.0 < self@.len() && self@[id.0 as int].state
                == CachedPipelineState::Ready,
            pipeline matches Some(descriptor) ==> descriptor@ == self@[id.0 as int].descriptor,
    {
        if id.0 < self.pipelines.len() {
            match self.pipelines[id.0].state {
                CachedPipelineState::Ready => Some(&self.pipelines[id.0].descriptor),
                _ => None,
            }
        } else {
            None
        }
    }

    /// Records how the compilation of a pipeline ended. A handle that this
    /// cache never gave out changes nothing.
    pub fn set_render_pipeline_state(&mut self, id: CachedRenderPipelineId, state: CachedPipelineState)
        ensures
            final(self)@ == (if id.0 < old(self)@.len() {
                old(self)@.update(
                    id.0 as int,
                    CachedPipelineView { descriptor: old(self)@[id.0 as int].descriptor, state },
                )
            } else {
                old(self)@
            }),
    {
        if id.0 < self.pipelines.len() {
            self.pipelines[id.0].state = state;
            proof {
                assert(self@ =~= old(self)@.update(
                    id.0 as int,
                    CachedPipelineView { descriptor: old(self)@[id.0 as int].descriptor, state },
                ));
            }
        }
    }
}

} // verus!
