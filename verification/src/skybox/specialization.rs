//! The variants of the skybox pipeline that are in use: each key is
//! specialized once, and the handle it got then is the handle it gets ever
//! after.

use crate::core_3d::CORE_3D_DEPTH_FORMAT;
use crate::entity::Entity;
use crate::pipeline_cache::{
    CachedPipelineState, CachedPipelineView, CachedRenderPipelineId, PipelineCache,
};
use crate::skybox::{lemma_descriptor_determines_key, SkyboxPipeline, SkyboxPipelineKey};
use crate::view::{ExtractedView, Msaa};
use vstd::prelude::*;

verus! {

/// The handle of the skybox pipeline variant that a view draws with.
#[derive(Clone, Copy, Debug, PartialEq, Eq, Hash, Structural)]
pub struct SkyboxPipelineId(pub CachedRenderPipelineId);

/// The handle recorded for the key in the first entry that has the key.
spec fn recorded_handle(
    entries: Seq<(SkyboxPipelineKey, CachedRenderPipelineId)>,
    key: SkyboxPipelineKey,
) -> Option<CachedRenderPipelineId>
    decreases entries.len(),
{
    if entries.len() == 0 {
        None
    } else if entries[0].0 == key {
        Some(entries[0].1)
    } else {
        recorded_handle(entries.subrange(1, entries.len() as int), key)
    }
}

/// Adding an entry at the end gives its key the handle, unless the key had
/// one, and changes nothing for any other key.
proof fn lemma_recorded_handle_push(
    entries: Seq<(SkyboxPipelineKey, CachedRenderPipelineId)>,
    entry: (SkyboxPipelineKey, CachedRenderPipelineId),
    key: SkyboxPipelineKey,
)
    ensures
        recorded_handle(entries.push(entry), key) == (if recorded_handle(entries, key) is Some {
            recorded_handle(entries, key)
        } else if entry.0 == key {
            Some(entry.1)
        } else {
            None
        }),
    decreases entries.len(),
{
    let pushed = entries.push(entry);
    if entries.len() == 0 {
        assert(pushed.subrange(1, pushed.len() as int) =~= entries);
    } else {
        assert(pushed[0] == entries[0]);
        assert(pushed.subrange(1, pushed.len() as int) =~= entries.subrange(
            1,
            entries.len() as int,
        ).push(entry));
        if entries[0].0 != key {
            lemma_recorded_handle_push(entries.subrange(1, entries.len() as int), entry, key);
        }
    }
}

/// The handles given out so far, each under the key it was given for.
#[derive(Clone, Debug, PartialEq, Eq)]
pub struct SpecializedRenderPipelines {
    cache: Vec<(SkyboxPipelineKey, CachedRenderPipelineId)>,
}

impl View for SpecializedRenderPipelines {
    type V = Map<SkyboxPipelineKey, CachedRenderPipelineId>;

    closed spec fn view(&self) -> Map<SkyboxPipelineKey, CachedRenderPipelineId> {
        Map::new(
            |key: SkyboxPipelineKey| recorded_handle(self.cache@, key) is Some,
            |key: SkyboxPipelineKey| recorded_handle(self.cache@, key)->0,
        )
    }
}

/// The state that specialization works on: the handles given out and the
/// queue of the pipeline cache that gave them.
pub struct Specializations {
    pub handles: Map<SkyboxPipelineKey, CachedRenderPipelineId>,
    pub queue: Seq<CachedPipelineView>,
}

/// The state that the two hold together.
pub open spec fn specializations(
    pipelines: SpecializedRenderPipelines,
    cache: PipelineCache,
) -> Specializations {
    Specializations { handles: pipelines@, queue: cache@ }
}

/// One call of `specialize`: a key that has a handle gets it again and
/// nothing changes; a new key has its description queued and gets the handle
/// of that new entry.
pub open spec fn specialize_step(
    pipeline: SkyboxPipeline,
    state: Specializations,
    key: SkyboxPipelineKey,
) -> (Specializations, CachedRenderPipelineId) {
    if state.handles.contains_key(key) {
        (state, state.handles[key])
    } else {
        let id = CachedRenderPipelineId(state.queue.len() as usize);
        (
            Specializations {
                handles: state.handles.insert(key, id),
                queue: state.queue.push(
                    CachedPipelineView {
                        descriptor: pipeline.spec_specialize(key),
                        state: CachedPipelineState::Queued,
                    },
                ),
            },
            id,
        )
    }
}

/// Calls of `specialize` for each key of the sequence in turn: the state
/// they leave and the handle that each call returned.
pub open spec fn specialize_all(
    pipeline: SkyboxPipeline,
    state: Specializations,
    keys: Seq<SkyboxPipelineKey>,
) -> (Specializations, Seq<CachedRenderPipelineId>)
    decreases keys.len(),
{
    if keys.len() == 0 {
        (state, Seq::empty())
    } else {
        let (before, ids) = specialize_all(pipeline, state, keys.drop_last());
        let (after, id) = specialize_step(pipeline, before, keys.last());
        (after, ids.push(id))
    }
}

/// Whether the handles that were given out are usable: each names an entry
/// of the queue, and no two keys share one.
pub open spec fn well_formed(state: Specializations) -> bool {
    &&& state.queue.len() <= usize::MAX
    &&& forall|key: SkyboxPipelineKey| #[trigger]
        state.handles.contains_key(key) ==> state.handles[key].0 < state.queue.len()
    &&& forall|key1: SkyboxPipelineKey, key2: SkyboxPipelineKey|
        #[trigger] state.handles.contains_key(key1) && #[trigger] state.handles.contains_key(key2)
            && key1 != key2 ==> state.handles[key1] != state.handles[key2]
}

/// Whether every handle that was given out names an entry of the queue, and
/// that entry holds the description of the handle's key.
pub open spec fn consistent(pipeline: SkyboxPipeline, state: Specializations) -> bool {
    &&& state.queue.len() <= usize::MAX
    &&& forall|key: SkyboxPipelineKey| #[trigger]
        state.handles.contains_key(key) ==> {
            &&& state.handles[key].0 < state.queue.len()
            &&& state.queue[state.handles[key].0 as int].descriptor == pipeline.spec_specialize(
                key,
            )
        }
}

impl SpecializedRenderPipelines {
    /// No handle has been given out.
    pub fn new() -> (pipelines: SpecializedRenderPipelines)
        ensures
            pipelines@ == Map::<SkyboxPipelineKey, CachedRenderPipelineId>::empty(),
    {
        let pipelines = SpecializedRenderPipelines { cache: Vec::new() };
        proof {
            assert(pipelines@ =~= Map::<SkyboxPipelineKey, CachedRenderPipelineId>::empty());
        }
        pipelines
    }

    /// The handle that the key was given, if it was given one.
    pub fn get(&self, key: SkyboxPipelineKey) -> (id: Option<CachedRenderPipelineId>)
        ensures
            id == (if self@.contains_key(key) {
                Some(self@[key])
            } else {
                None
            }),
    {
        let n = self.cache.len();
        let mut i: usize = 0;
        proof {
            assert(self.cache@.subrange(0, n as int) =~= self.cache@);
        }
        while i < n
            invariant
                n == self.cache@.len(),
                i <= n,
                recorded_handle(self.cache@, key) == recorded_handle(
                    self.cache@.subrange(i as int, n as int),
                    key,
                ),
            decreases n - i,
        {
            let ghost rest = self.cache@.subrange(i as int, n as int);
            proof {
                assert(rest[0] == self.cache@[i as int]);
                assert(rest.subrange(1, rest.len() as int) =~= self.cache@.subrange(
                    i + 1,
                    n as int,
                ));
            }
            if self.cache[i].0 == key {
                return Some(self.cache[i].1);
            }
            i = i + 1;
        }
        None
    }

    /// The handle of the variant that the key selects.
    ///
    /// The first call for a key describes the variant, queues the description
    /// for compilation and returns the new handle without waiting. Every
    /// later call for an equal key returns that same handle and queues
    /// nothing.
    pub fn specialize(
        &mut self,
        cache: &mut PipelineCache,
        specialize_pipeline: &SkyboxPipeline,
        key: SkyboxPipelineKey,
    ) -> (id: CachedRenderPipelineId)
        ensures
            (specializations(*final(self), *final(cache)), id) == specialize_step(
                *specialize_pipeline,
                specializations(*old(self), *old(cache)),
                key,
            ),
            well_formed(specializations(*old(self), *old(cache))) ==> well_formed(
                specializations(*final(self), *final(cache)),
            ),
            consistent(*specialize_pipeline, specializations(*old(self), *old(cache)))
                ==> consistent(*specialize_pipeline, specializations(*final(self), *final(cache))),
    {
        match self.get(key) {
            Some(id) => id,
            None => {
                let descriptor = specialize_pipeline.specialize(key);
                let id = cache.queue_render_pipeline(descriptor);
                self.cache.push((key, id));
                proof {
                    assert forall|k: SkyboxPipelineKey|
                        recorded_handle(self.cache@, k) == (if recorded_handle(
                            old(self).cache@,
                            k,
                        ) is Some {
                            recorded_handle(old(self).cache@, k)
                        } else if key == k {
                            Some(id)
                        } else {
                            None
                        }) by {
                        lemma_recorded_handle_push(old(self).cache@, (key, id), k);
                    }
                    assert(self@ =~= old(self)@.insert(key, id));
                    lemma_specialize_step(
                        *specialize_pipeline,
                        specializations(*old(self), *old(cache)),
                        key,
                    );
                }
                id
            },
        }
    }
}

/// The key of the skybox pipeline variant for a view: the view's HDR flag,
/// the sample count of the renderer, and the depth format of the 3D core
/// pipeline.
pub open spec fn spec_skybox_key(view: ExtractedView, msaa: Msaa) -> SkyboxPipelineKey {
    SkyboxPipelineKey {
        hdr: view.hdr,
        samples: msaa.spec_samples(),
        depth_format: CORE_3D_DEPTH_FORMAT,
    }
}

/// The keys of the views, in the order of the views.
pub open spec fn skybox_keys(views: Seq<(Entity, ExtractedView)>, msaa: Msaa) -> Seq<
    SkyboxPipelineKey,
> {
    Seq::new(views.len(), |i: int| spec_skybox_key(views[i].1, msaa))
}

/// Each view with the handle that its key was given.
pub open spec fn pipeline_commands(
    views: Seq<(Entity, ExtractedView)>,
    ids: Seq<CachedRenderPipelineId>,
) -> Seq<(Entity, SkyboxPipelineId)> {
    Seq::new(views.len(), |i: int| (views[i].0, SkyboxPipelineId(ids[i])))
}

/// Gives every view with a skybox the handle of its pipeline variant.
///
/// The views are taken in their order. Each is specialized as by
/// [`SpecializedRenderPipelines::specialize`], so views with equal keys share
/// a handle and one compilation. The result names, for each view, the handle
/// to attach to it.
pub fn prepare_skybox_pipelines(
    pipeline_cache: &mut PipelineCache,
    pipelines: &mut SpecializedRenderPipelines,
    pipeline: &SkyboxPipeline,
    msaa: &Msaa,
    views: &Vec<(Entity, ExtractedView)>,
) -> (commands: Vec<(Entity, SkyboxPipelineId)>)
    ensures
        specializations(*final(pipelines), *final(pipeline_cache)) == specialize_all(
            *pipeline,
            specializations(*old(pipelines), *old(pipeline_cache)),
            skybox_keys(views@, *msaa),
        ).0,
        commands@ == pipeline_commands(
            views@,
            specialize_all(
                *pipeline,
                specializations(*old(pipelines), *old(pipeline_cache)),
                skybox_keys(views@, *msaa),
            ).1,
        ),
        well_formed(specializations(*old(pipelines), *old(pipeline_cache))) ==> well_formed(
            specializations(*final(pipelines), *final(pipeline_cache)),
        ),
        consistent(*pipeline, specializations(*old(pipelines), *old(pipeline_cache)))
            ==> consistent(*pipeline, specializations(*final(pipelines), *final(pipeline_cache))),
{
    let ghost start = specializations(*pipelines, *pipeline_cache);
    let ghost keys = skybox_keys(views@, *msaa);
    let n = views.len();
    let mut commands: Vec<(Entity, SkyboxPipelineId)> = Vec::new();
    let mut i: usize = 0;
    while i < n
        invariant
            n == views@.len(),
            i <= n,
            keys == skybox_keys(views@, *msaa),
            specializations(*pipelines, *pipeline_cache) == specialize_all(
                *pipeline,
                start,
                keys.subrange(0, i as int),
            ).0,
            commands@ == pipeline_commands(
                views@.subrange(0, i as int),
                specialize_all(*pipeline, start, keys.subrange(0, i as int)).1,
            ),
            well_formed(start) ==> well_formed(specializations(*pipelines, *pipeline_cache)),
            consistent(*pipeline, start) ==> consistent(
                *pipeline,
                specializations(*pipelines, *pipeline_cache),
            ),
        decreases n - i,
    {
        let entity = views[i].0;
        let key = SkyboxPipelineKey {
            hdr: views[i].1.hdr,
            samples: msaa.samples(),
            depth_format: CORE_3D_DEPTH_FORMAT,
        };
        let ghost ids_before = specialize_all(*pipeline, start, keys.subrange(0, i as int)).1;
        proof {
            assert(keys.subrange(0, i + 1).drop_last() =~= keys.subrange(0, i as int));
            assert(keys.subrange(0, i + 1).last() == key);
            lemma_specialize_all(*pipeline, start, keys.subrange(0, i as int));
        }
        let pipeline_id = pipelines.specialize(pipeline_cache, pipeline, key);
        commands.push((entity, SkyboxPipelineId(pipeline_id)));
        proof {
            assert(commands@ =~= pipeline_commands(
                views@.subrange(0, i + 1),
                ids_before.push(pipeline_id),
            ));
        }
        i = i + 1;
    }
    proof {
        assert(keys.subrange(0, n as int) =~= keys);
        assert(views@.subrange(0, n as int) =~= views@);
    }
    commands
}

/// A call of `specialize` records the handle it returns under the key, keeps
/// every handle given out before, only ever adds to the queue, and keeps the
/// state well formed and consistent.
pub proof fn lemma_specialize_step(
    pipeline: SkyboxPipeline,
    state: Specializations,
    key: SkyboxPipelineKey,
)
    ensures
        specialize_step(pipeline, state, key).0.handles.contains_key(key),
        specialize_step(pipeline, state, key).0.handles[key] == specialize_step(
            pipeline,
            state,
            key,
        ).1,
        forall|k: SkyboxPipelineKey| #[trigger]
            state.handles.contains_key(k) ==> specialize_step(
                pipeline,
                state,
                key,
            ).0.handles.contains_key(k) && specialize_step(pipeline, state, key).0.handles[k]
                == state.handles[k],
        state.queue.is_prefix_of(specialize_step(pipeline, state, key).0.queue),
        well_formed(state) && state.queue.len() < usize::MAX ==> well_formed(
            specialize_step(pipeline, state, key).0,
        ),
        consistent(pipeline, state) && state.queue.len() < usize::MAX ==> consistent(
            pipeline,
            specialize_step(pipeline, state, key).0,
        ),
{
}

/// Calls of `specialize` for a sequence of keys record each returned handle
/// under its key, keep every handle given out before, only ever add to the
/// queue, at most one entry for each call, and keep the state well formed and
/// consistent.
pub proof fn lemma_specialize_all(
    pipeline: SkyboxPipeline,
    state: Specializations,
    keys: Seq<SkyboxPipelineKey>,
)
    ensures
        specialize_all(pipeline, state, keys).1.len() == keys.len(),
        forall|i: int|
            0 <= i < keys.len() ==> specialize_all(pipeline, state, keys).0.handles.contains_key(
                #[trigger] keys[i],
            ) && specialize_all(pipeline, state, keys).0.handles[keys[i]] == specialize_all(
                pipeline,
                state,
                keys,
            ).1[i],
        forall|k: SkyboxPipelineKey| #[trigger]
            state.handles.contains_key(k) ==> specialize_all(
                pipeline,
                state,
                keys,
            ).0.handles.contains_key(k) && specialize_all(pipeline, state, keys).0.handles[k]
                == state.handles[k],
        state.queue.is_prefix_of(specialize_all(pipeline, state, keys).0.queue),
        specialize_all(pipeline, state, keys).0.queue.len() <= state.queue.len() + keys.len(),
        well_formed(state) && state.queue.len() + keys.len() <= usize::MAX ==> well_formed(
            specialize_all(pipeline, state, keys).0,
        ),
        consistent(pipeline, state) && state.queue.len() + keys.len() <= usize::MAX ==> consistent(
            pipeline,
            specialize_all(pipeline, state, keys).0,
        ),
    decreases keys.len(),
{
    if keys.len() > 0 {
        let (before, ids) = specialize_all(pipeline, state, keys.drop_last());
        let (after, id) = specialize_step(pipeline, before, keys.last());
        lemma_specialize_all(pipeline, state, keys.drop_last());
        lemma_specialize_step(pipeline, before, keys.last());
        assert forall|i: int| 0 <= i < keys.len() implies after.handles.contains_key(
            #[trigger] keys[i],
        ) && after.handles[keys[i]] == ids.push(id)[i] by {
            if i < keys.len() - 1 {
                assert(keys[i] == keys.drop_last()[i]);
                assert(before.handles.contains_key(keys.drop_last()[i]));
            }
        }
    }
}

/// Two calls of `specialize` with equal keys return the same handle, however
/// many calls lie between them and whatever the state before the first.
pub proof fn lemma_equal_keys_equal_handles(
    pipeline: SkyboxPipeline,
    state: Specializations,
    keys: Seq<SkyboxPipelineKey>,
    i: int,
    j: int,
)
    requires
        0 <= i < keys.len(),
        0 <= j < keys.len(),
        keys[i] == keys[j],
    ensures
        specialize_all(pipeline, state, keys).1[i] == specialize_all(pipeline, state, keys).1[j],
{
    lemma_specialize_all(pipeline, state, keys);
}

/// A call of `specialize` for a key that has a handle is a hit: it changes
/// nothing and queues nothing. So of two calls in a row with the same key the
/// second finds the state as the first left it.
pub proof fn lemma_repeated_key_queues_nothing(
    pipeline: SkyboxPipeline,
    state: Specializations,
    key: SkyboxPipelineKey,
)
    ensures
        state.handles.contains_key(key) ==> specialize_step(pipeline, state, key) == (
            state,
            state.handles[key],
        ),
        specialize_step(pipeline, specialize_step(pipeline, state, key).0, key)
            == specialize_step(pipeline, state, key),
{
}

/// Two calls of `specialize` with keys that differ, in the HDR flag, the
/// sample count or the depth format, return handles that differ, however many
/// calls lie between them, provided the state was well formed before the
/// first and the queue has room for the calls.
pub proof fn lemma_distinct_keys_distinct_handles(
    pipeline: SkyboxPipeline,
    state: Specializations,
    keys: Seq<SkyboxPipelineKey>,
    i: int,
    j: int,
)
    requires
        well_formed(state),
        state.queue.len() + keys.len() <= usize::MAX,
        0 <= i < keys.len(),
        0 <= j < keys.len(),
        keys[i] != keys[j],
    ensures
        specialize_all(pipeline, state, keys).1[i] != specialize_all(pipeline, state, keys).1[j],
{
    lemma_specialize_all(pipeline, state, keys);
    let (after, ids) = specialize_all(pipeline, state, keys);
    assert(after.handles.contains_key(keys[i]));
    assert(after.handles.contains_key(keys[j]));
}

/// In a consistent state the handles are well formed: two keys that shared
/// a handle would have the same description, and then they are one key.
pub proof fn lemma_consistent_is_well_formed(pipeline: SkyboxPipeline, state: Specializations)
    requires
        consistent(pipeline, state),
    ensures
        well_formed(state),
{
    assert forall|key1: SkyboxPipelineKey, key2: SkyboxPipelineKey|
        #[trigger] state.handles.contains_key(key1) && #[trigger] state.handles.contains_key(key2)
            && key1 != key2 implies state.handles[key1] != state.handles[key2] by {
        if state.handles[key1] == state.handles[key2] {
            lemma_descriptor_determines_key(pipeline, key1, key2);
        }
    }
}

/// A state in which no handle has been given out is consistent, and so well
/// formed, with any queue that a pipeline cache can hold.
pub proof fn lemma_empty_is_consistent(pipeline: SkyboxPipeline, queue: Seq<CachedPipelineView>)
    requires
        queue.len() <= usize::MAX,
    ensures
        consistent(
            pipeline,
            Specializations {
                handles: Map::<SkyboxPipelineKey, CachedRenderPipelineId>::empty(),
                queue,
            },
        ),
{
}

} // verus!
