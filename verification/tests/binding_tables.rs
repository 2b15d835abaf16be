use photonforge::resources::{
    make_accum, side, AccumImage, BindGroupEntry, BindGroupId, BindGroupLayoutEntry, BindingType,
    FrameResources, ImageFormat, Kernel, Resource, ShaderStages, Slot,
};

const ALL: [BindGroupId; 4] =
    [BindGroupId::ComputeA, BindGroupId::ComputeB, BindGroupId::BlitA, BindGroupId::BlitB];

#[test]
fn other_slot() {
    assert_eq!(Slot::A.other(), Slot::B);
    assert_eq!(Slot::B.other(), Slot::A);
    assert_eq!(Slot::A.other().other(), Slot::A);
}

#[test]
fn side_is_never_empty() {
    assert_eq!(side(0), 1);
    assert_eq!(side(1), 1);
    assert_eq!(side(2), 2);
    assert_eq!(side(u32::MAX), u32::MAX);
}

#[test]
fn accumulation_image_description() {
    let want = AccumImage {
        width: 640,
        height: 480,
        depth_or_array_layers: 1,
        mip_level_count: 1,
        sample_count: 1,
        format: ImageFormat::Rgba16Float,
        storage_binding: true,
        texture_binding: true,
        copy_src: true,
        copy_dst: true,
    };
    assert_eq!(make_accum(640, 480), want);
    assert_eq!(make_accum(0, 0), AccumImage { width: 1, height: 1, ..want });
    assert_eq!(make_accum(0, 7), AccumImage { width: 1, height: 7, ..want });
}

#[test]
fn both_images_of_a_pair_are_alike() {
    let frames = FrameResources::create(800, 600);
    assert_eq!(frames.image(Slot::A), frames.image(Slot::B));
    assert_eq!(frames.image(Slot::A), make_accum(800, 600));
    let tiny = FrameResources::create(0, 0);
    assert_eq!(tiny.image(Slot::B).width, 1);
    assert_eq!(tiny.image(Slot::B).height, 1);
}

#[test]
fn layout_of_the_compute_program() {
    let compute = ShaderStages { vertex: false, fragment: false, compute: true };
    assert_eq!(
        Kernel::Accumulate.layout(),
        vec![
            BindGroupLayoutEntry { binding: 0, visibility: compute, ty: BindingType::UniformBuffer },
            BindGroupLayoutEntry { binding: 1, visibility: compute, ty: BindingType::StorageRead },
            BindGroupLayoutEntry { binding: 2, visibility: compute, ty: BindingType::StorageWrite },
        ]
    );
}

#[test]
fn layout_of_the_render_program() {
    let both = ShaderStages { vertex: true, fragment: true, compute: false };
    let fragment = ShaderStages { vertex: false, fragment: true, compute: false };
    assert_eq!(
        Kernel::Present.layout(),
        vec![
            BindGroupLayoutEntry { binding: 0, visibility: both, ty: BindingType::UniformBuffer },
            BindGroupLayoutEntry { binding: 3, visibility: fragment, ty: BindingType::SampledTexture },
            BindGroupLayoutEntry { binding: 4, visibility: fragment, ty: BindingType::FilteringSampler },
        ]
    );
}

#[test]
fn the_four_binding_sets() {
    assert_eq!(
        BindGroupId::ComputeA.entries(),
        vec![
            BindGroupEntry { binding: 0, resource: Resource::CameraBuffer },
            BindGroupEntry { binding: 1, resource: Resource::StorageView(Slot::A) },
            BindGroupEntry { binding: 2, resource: Resource::StorageView(Slot::B) },
        ]
    );
    assert_eq!(
        BindGroupId::ComputeB.entries(),
        vec![
            BindGroupEntry { binding: 0, resource: Resource::CameraBuffer },
            BindGroupEntry { binding: 1, resource: Resource::StorageView(Slot::B) },
            BindGroupEntry { binding: 2, resource: Resource::StorageView(Slot::A) },
        ]
    );
    assert_eq!(
        BindGroupId::BlitA.entries(),
        vec![
            BindGroupEntry { binding: 0, resource: Resource::CameraBuffer },
            BindGroupEntry { binding: 3, resource: Resource::SampleView(Slot::A) },
            BindGroupEntry { binding: 4, resource: Resource::LinearSampler },
        ]
    );
    assert_eq!(
        BindGroupId::BlitB.entries(),
        vec![
            BindGroupEntry { binding: 0, resource: Resource::CameraBuffer },
            BindGroupEntry { binding: 3, resource: Resource::SampleView(Slot::B) },
            BindGroupEntry { binding: 4, resource: Resource::LinearSampler },
        ]
    );
}

#[test]
fn binding_set_of_a_slot() {
    assert_eq!(BindGroupId::compute(Slot::A), BindGroupId::ComputeA);
    assert_eq!(BindGroupId::compute(Slot::B), BindGroupId::ComputeB);
    assert_eq!(BindGroupId::blit(Slot::A), BindGroupId::BlitA);
    assert_eq!(BindGroupId::blit(Slot::B), BindGroupId::BlitB);
    for id in ALL {
        match id.kernel() {
            Kernel::Accumulate => assert_eq!(BindGroupId::compute(id.input()), id),
            Kernel::Present => assert_eq!(BindGroupId::blit(id.input()), id),
        }
    }
}

#[test]
fn every_binding_set_follows_its_layout() {
    for id in ALL {
        let entries = id.entries();
        let layout = id.kernel().layout();
        assert_eq!(entries.len(), layout.len());
        for (entry, line) in entries.iter().zip(layout.iter()) {
            assert_eq!(entry.binding, line.binding);
            let fits = match entry.resource {
                Resource::CameraBuffer => line.ty == BindingType::UniformBuffer,
                Resource::StorageView(_) => {
                    line.ty == BindingType::StorageRead || line.ty == BindingType::StorageWrite
                }
                Resource::SampleView(_) => line.ty == BindingType::SampledTexture,
                Resource::LinearSampler => line.ty == BindingType::FilteringSampler,
            };
            assert!(fits, "{id:?} binding {}", entry.binding);
        }
    }
}

#[test]
fn compute_never_reads_what_it_writes() {
    for source in [Slot::A, Slot::B] {
        let entries = BindGroupId::compute(source).entries();
        assert_eq!(entries[1].resource, Resource::StorageView(source));
        assert_eq!(entries[2].resource, Resource::StorageView(source.other()));
        assert_ne!(entries[1].resource, entries[2].resource);
    }
}
