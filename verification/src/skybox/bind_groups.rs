//! The bind group of the skybox of each view.
//!
//! A bind group is assembled only when everything it refers to is on the GPU:
//! the cubemap of the skybox and the uniforms of the views. While either is
//! missing the view simply gets no bind group in this frame, and whatever
//! would draw with it is skipped; the next frame tries again.

use crate::bind_group::{
    BindGroup, BindGroupEntries, BindGroupView, BindingResource, BufferBinding, GpuImage,
    RenderAssets, ViewUniforms,
};
use crate::entity::Entity;
use crate::render_resource::ImageHandle;
use crate::skybox::{Skybox, SkyboxPipeline};
use vstd::prelude::*;

verus! {

/// The bind group that a view draws its skybox with.
#[derive(Clone, Debug, PartialEq, Eq)]
pub struct SkyboxBindGroup(pub BindGroup);

/// The resources of a skybox bind group in the order of their bindings: the
/// texture view of the cubemap, its sampler, and the uniforms of the view.
pub open spec fn skybox_resources(image: GpuImage, view_uniforms: BufferBinding) -> Seq<
    BindingResource,
> {
    seq![
        BindingResource::TextureView(image.texture_view),
        BindingResource::Sampler(image.sampler),
        BindingResource::Buffer(view_uniforms),
    ]
}

/// The bind group for a skybox, where both the image and the uniforms are
/// ready: the layout of the pipeline, and exactly the image's texture view at
/// binding 0, its sampler at binding 1 and the uniforms at binding 2.
pub open spec fn spec_skybox_bind_group(
    pipeline: SkyboxPipeline,
    image: Option<GpuImage>,
    view_uniforms: Option<BufferBinding>,
) -> Option<BindGroupView> {
    if image is Some && view_uniforms is Some {
        Some(
            BindGroupView {
                label: "skybox_bind_group"@,
                layout: pipeline.bind_group_layout,
                entries: BindGroupEntries::spec_sequential(
                    skybox_resources(image->0, view_uniforms->0),
                ),
            },
        )
    } else {
        None
    }
}

impl SkyboxBindGroup {
    /// Assembles the bind group of a skybox from the uploaded image and the
    /// binding of the view uniforms.
    ///
    /// Returns `None`, and this is no error, exactly when the image or the
    /// uniforms are not ready.
    pub fn assemble(
        pipeline: &SkyboxPipeline,
        image: Option<GpuImage>,
        view_uniforms: Option<BufferBinding>,
    ) -> (bind_group: Option<SkyboxBindGroup>)
        ensures
            bind_group is Some <==> image is Some && view_uniforms is Some,
            match bind_group {
                Some(group) => Some(group.0@) == spec_skybox_bind_group(
                    *pipeline,
                    image,
                    view_uniforms,
                ),
                None => spec_skybox_bind_group(*pipeline, image, view_uniforms) is None,
            },
    {
        if let (Some(skybox), Some(view_uniforms)) = (image, view_uniforms) {
            let mut resources = Vec::new();
            resources.push(BindingResource::TextureView(skybox.texture_view));
            resources.push(BindingResource::Sampler(skybox.sampler));
            resources.push(BindingResource::Buffer(view_uniforms));
            proof {
                assert(resources@ =~= skybox_resources(skybox, view_uniforms));
            }
            let entries = BindGroupEntries::sequential(&resources);
            Some(
                SkyboxBindGroup(
                    BindGroup {
                        label: "skybox_bind_group".to_string(),
                        layout: pipeline.bind_group_layout,
                        entries: entries.entries,
                    },
                ),
            )
        } else {
            None
        }
    }
}

/// The bind groups of a sequence of views, in the order of the views: one for
/// each view whose image is uploaded, if the uniforms are ready, and none for
/// the others.
pub open spec fn bind_group_commands(
    pipeline: SkyboxPipeline,
    view_uniforms: Option<BufferBinding>,
    images: Seq<(ImageHandle, GpuImage)>,
    views: Seq<(Entity, Skybox)>,
) -> Seq<(Entity, BindGroupView)>
    decreases views.len(),
{
    if views.len() == 0 {
        Seq::empty()
    } else {
        let before = bind_group_commands(pipeline, view_uniforms, images, views.drop_last());
        match spec_skybox_bind_group(
            pipeline,
            crate::bind_group::find_image(images, views.last().1.0),
            view_uniforms,
        ) {
            Some(bind_group) => before.push((views.last().0, bind_group)),
            None => before,
        }
    }
}

/// The mathematical content of a list of bind groups to attach.
pub open spec fn commands_view(commands: Seq<(Entity, SkyboxBindGroup)>) -> Seq<
    (Entity, BindGroupView),
> {
    commands.map_values(|command: (Entity, SkyboxBindGroup)| (command.0, command.1.0@))
}

/// Assembles the bind group of every view whose skybox can be drawn in this
/// frame.
///
/// The views are taken in their order. A view whose image is not uploaded
/// gets nothing, and no view gets anything while the view uniforms are not
/// uploaded. The result names, for each of the other views, the bind group to
/// attach to it.
pub fn prepare_skybox_bind_groups(
    pipeline: &SkyboxPipeline,
    view_uniforms: &ViewUniforms,
    images: &RenderAssets,
    views: &Vec<(Entity, Skybox)>,
) -> (commands: Vec<(Entity, SkyboxBindGroup)>)
    ensures
        commands_view(commands@) == bind_group_commands(
            *pipeline,
            view_uniforms.uniforms.spec_binding(),
            images.images@,
            views@,
        ),
{
    let n = views.len();
    let mut commands: Vec<(Entity, SkyboxBindGroup)> = Vec::new();
    let mut i: usize = 0;
    proof {
        assert(commands_view(commands@) =~= Seq::<(Entity, BindGroupView)>::empty());
    }
    while i < n
        invariant
            n == views@.len(),
            i <= n,
            commands_view(commands@) == bind_group_commands(
                *pipeline,
                view_uniforms.uniforms.spec_binding(),
                images.images@,
                views@.subrange(0, i as int),
            ),
        decreases n - i,
    {
        let entity = views[i].0;
        let skybox = views[i].1;
        proof {
            assert(views@.subrange(0, i + 1).drop_last() =~= views@.subrange(0, i as int));
            assert(views@.subrange(0, i + 1).last() == views@[i as int]);
        }
        let ghost before = commands@;
        match SkyboxBindGroup::assemble(
            pipeline,
            images.get(skybox.0),
            view_uniforms.uniforms.binding(),
        ) {
            Some(bind_group) => {
                commands.push((entity, bind_group));
                proof {
                    assert(commands_view(commands@) =~= commands_view(before).push(
                        (entity, bind_group.0@),
                    ));
                }
            },
            None => {},
        }
        i = i + 1;
    }
    proof {
        assert(views@.subrange(0, n as int) =~= views@);
    }
    commands
}

/// While the view uniforms are not ready no view gets a bind group, and a
/// view whose image is not uploaded never gets one: every bind group in the
/// result belongs to a view of the sequence whose image is uploaded, and
/// refers to that image and to the uniforms.
pub proof fn lemma_bind_groups_only_when_ready(
    pipeline: SkyboxPipeline,
    view_uniforms: Option<BufferBinding>,
    images: Seq<(ImageHandle, GpuImage)>,
    views: Seq<(Entity, Skybox)>,
)
    ensures
        view_uniforms is None ==> bind_group_commands(pipeline, view_uniforms, images, views).len()
            == 0,
        bind_group_commands(pipeline, view_uniforms, images, views).len() <= views.len(),
        forall|k: int|
            0 <= k < bind_group_commands(pipeline, view_uniforms, images, views).len()
                ==> exists|i: int|
                0 <= i < views.len() && (#[trigger] bind_group_commands(
                    pipeline,
                    view_uniforms,
                    images,
                    views,
                )[k]).0 == (#[trigger] views[i]).0 && Some(
                    bind_group_commands(pipeline, view_uniforms, images, views)[k].1,
                ) == spec_skybox_bind_group(
                    pipeline,
                    crate::bind_group::find_image(images, views[i].1.0),
                    view_uniforms,
                ),
    decreases views.len(),
{
    if views.len() > 0 {
        lemma_bind_groups_only_when_ready(pipeline, view_uniforms, images, views.drop_last());
        let before = bind_group_commands(pipeline, view_uniforms, images, views.drop_last());
        let all = bind_group_commands(pipeline, view_uniforms, images, views);
        assert forall|k: int| 0 <= k < all.len() implies exists|i: int|
            0 <= i < views.len() && (#[trigger] all[k]).0 == (#[trigger] views[i]).0 && Some(
                all[k].1,
            ) == spec_skybox_bind_group(
                pipeline,
                crate::bind_group::find_image(images, views[i].1.0),
                view_uniforms,
            ) by {
            if k < before.len() {
                let i = choose|i: int|
                    0 <= i < views.drop_last().len() && (#[trigger] before[k]).0
                        == (#[trigger] views.drop_last()[i]).0 && Some(before[k].1)
                        == spec_skybox_bind_group(
                        pipeline,
                        crate::bind_group::find_image(images, views.drop_last()[i].1.0),
                        view_uniforms,
                    );
                assert(views[i] == views.drop_last()[i]);
            } else {
                assert(all[k].0 == views[views.len() - 1].0);
            }
        }
    }
}

/// A view whose image is uploaded gets a bind group whenever the uniforms are
/// ready: its entity is among the results.
pub proof fn lemma_ready_view_gets_bind_group(
    pipeline: SkyboxPipeline,
    view_uniforms: Option<BufferBinding>,
    images: Seq<(ImageHandle, GpuImage)>,
    views: Seq<(Entity, Skybox)>,
    i: int,
)
    requires
        0 <= i < views.len(),
        view_uniforms is Some,
        crate::bind_group::find_image(images, views[i].1.0) is Some,
    ensures
        exists|k: int|
            0 <= k < bind_group_commands(pipeline, view_uniforms, images, views).len()
                && #[trigger] bind_group_commands(pipeline, view_uniforms, images, views)[k] == (
                views[i].0,
                spec_skybox_bind_group(
                    pipeline,
                    crate::bind_group::find_image(images, views[i].1.0),
                    view_uniforms,
                )->0,
            ),
    decreases views.len(),
{
    let before = bind_group_commands(pipeline, view_uniforms, images, views.drop_last());
    let all = bind_group_commands(pipeline, view_uniforms, images, views);
    if i < views.len() - 1 {
        lemma_ready_view_gets_bind_group(pipeline, view_uniforms, images, views.drop_last(), i);
        let k = choose|k: int|
            0 <= k < before.len() && #[trigger] before[k] == (
                views.drop_last()[i].0,
                spec_skybox_bind_group(
                    pipeline,
                    crate::bind_group::find_image(images, views.drop_last()[i].1.0),
                    view_uniforms,
                )->0,
            );
        assert(all[k] == before[k]);
    } else {
        assert(all[before.len() as int] == (
            views[i].0,
            spec_skybox_bind_group(
                pipeline,
                crate::bind_group::find_image(images, views[i].1.0),
                view_uniforms,
            )->0,
        ));
    }
}

} // verus!
