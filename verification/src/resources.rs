//! The two accumulation images and the binding tables over them.
//!
//! Every value here describes a GPU object; none is one. The caller builds
//! the objects from the descriptions, field for field.

use vstd::prelude::*;

verus! {

/// One of the two accumulation images.
#[derive(Clone, Copy, Debug, PartialEq, Eq, Structural)]
pub enum Slot {
    A,
    B,
}

impl Slot {
    /// The other image of the pair.
    pub open spec fn spec_other(self) -> Slot {
        match self {
            Slot::A => Slot::B,
            Slot::B => Slot::A,
        }
    }

    /// The other image of the pair.
    pub fn other(self) -> (slot: Slot)
        ensures
            slot == self.spec_other(),
            slot != self,
    {
        match self {
            Slot::A => Slot::B,
            Slot::B => Slot::A,
        }
    }
}

/// The format of an image.
#[derive(Clone, Copy, Debug, PartialEq, Eq, Structural)]
pub enum ImageFormat {
    /// Four channels of sixteen-bit floating point.
    Rgba16Float,
}

/// An accumulation image: a two-dimensional image that holds the radiance
/// gathered so far.
#[derive(Clone, Copy, Debug, PartialEq, Eq, Structural)]
pub struct AccumImage {
    pub width: u32,
    pub height: u32,
    pub depth_or_array_layers: u32,
    pub mip_level_count: u32,
    pub sample_count: u32,
    pub format: ImageFormat,
    /// A compute program may read and write it.
    pub storage_binding: bool,
    /// A render program may sample it.
    pub texture_binding: bool,
    pub copy_src: bool,
    pub copy_dst: bool,
}

/// The larger of `extent` and 1: no image has an empty side.
pub open spec fn spec_side(extent: u32) -> u32 {
    if extent == 0 {
        1
    } else {
        extent
    }
}

/// The side of an image that covers `extent` pixels.
pub fn side(extent: u32) -> (s: u32)
    ensures
        s == spec_side(extent),
        s >= 1,
{
    if extent == 0 {
        1
    } else {
        extent
    }
}

/// The accumulation image for a surface of the given size: one layer, one
/// mip level, one sample per pixel, four half-precision channels; a compute
/// program may read and write it, a render program may sample it, and it may
/// be copied from and to.
pub open spec fn spec_accum(width: u32, height: u32) -> AccumImage {
    AccumImage {
        width: spec_side(width),
        height: spec_side(height),
        depth_or_array_layers: 1,
        mip_level_count: 1,
        sample_count: 1,
        format: ImageFormat::Rgba16Float,
        storage_binding: true,
        texture_binding: true,
        copy_src: true,
        copy_dst: true,
    }
}

/// Describes the accumulation image for a surface of the given size.
pub fn make_accum(width: u32, height: u32) -> (image: AccumImage)
    ensures
        image == spec_accum(width, height),
{
    AccumImage {
        width: side(width),
        height: side(height),
        depth_or_array_layers: 1,
        mip_level_count: 1,
        sample_count: 1,
        format: ImageFormat::Rgba16Float,
        storage_binding: true,
        texture_binding: true,
        copy_src: true,
        copy_dst: true,
    }
}

/// The pair of accumulation images. Both are made together and are alike;
/// only the orientation of the frame tells them apart.
#[derive(Clone, Copy, Debug)]
pub struct FrameResources {
    a: AccumImage,
    b: AccumImage,
}

impl View for FrameResources {
    type V = AccumImage;

    /// What either image of the pair is.
    closed spec fn view(&self) -> AccumImage {
        self.a
    }
}

impl FrameResources {
    #[verifier::type_invariant]
    spec fn alike(self) -> bool {
        &&& self.a == self.b
        &&& self.a.width >= 1
        &&& self.a.height >= 1
    }

    /// The pair for a surface of the given size.
    pub fn create(width: u32, height: u32) -> (frames: FrameResources)
        ensures
            frames@ == spec_accum(width, height),
    {
        FrameResources { a: make_accum(width, height), b: make_accum(width, height) }
    }

    /// The image in a given slot. Both slots hold the same description, and
    /// no side of it is empty.
    pub fn image(&self, slot: Slot) -> (image: AccumImage)
        ensures
            image == self@,
            image.width >= 1,
            image.height >= 1,
    {
        proof {
            use_type_invariant(self);
        }
        match slot {
            Slot::A => self.a,
            Slot::B => self.b,
        }
    }
}

/// What a binding refers to.
#[derive(Clone, Copy, Debug, PartialEq, Eq, Structural)]
pub enum Resource {
    /// The buffer that holds the camera record.
    CameraBuffer,
    /// An accumulation image, as a compute program reads or writes it.
    StorageView(Slot),
    /// An accumulation image, as a render program samples it.
    SampleView(Slot),
    /// The sampler, which filters linearly.
    LinearSampler,
}

/// One line of a binding set: a binding number and what stands there.
#[derive(Clone, Copy, Debug, PartialEq, Eq, Structural)]
pub struct BindGroupEntry {
    pub binding: u32,
    pub resource: Resource,
}

/// What kind of resource a program expects at a binding.
#[derive(Clone, Copy, Debug, PartialEq, Eq, Structural)]
pub enum BindingType {
    UniformBuffer,
    /// A storage image that is only read.
    StorageRead,
    /// A storage image that is only written.
    StorageWrite,
    /// An image to sample, with filtering.
    SampledTexture,
    /// A sampler that filters.
    FilteringSampler,
}

/// The stages of the programs that see a binding.
#[derive(Clone, Copy, Debug, PartialEq, Eq, Structural)]
pub struct ShaderStages {
    pub vertex: bool,
    pub fragment: bool,
    pub compute: bool,
}

/// One line of a layout: a binding number, who sees it and what is expected
/// there.
#[derive(Clone, Copy, Debug, PartialEq, Eq, Structural)]
pub struct BindGroupLayoutEntry {
    pub binding: u32,
    pub visibility: ShaderStages,
    pub ty: BindingType,
}

/// The two GPU programs.
#[derive(Clone, Copy, Debug, PartialEq, Eq, Structural)]
pub enum Kernel {
    /// The compute program that adds one sample to the accumulation.
    Accumulate,
    /// The render program that copies the accumulation to the surface.
    Present,
}

/// The four binding sets: for each program, one for each image that it may
/// take its input from.
#[derive(Clone, Copy, Debug, PartialEq, Eq, Structural)]
pub enum BindGroupId {
    /// The compute program reads A and writes B.
    ComputeA,
    /// The compute program reads B and writes A.
    ComputeB,
    /// The render program samples A.
    BlitA,
    /// The render program samples B.
    BlitB,
}

impl Kernel {
    /// The layout of the program's one bind group.
    pub open spec fn spec_layout(self) -> Seq<BindGroupLayoutEntry> {
        match self {
            Kernel::Accumulate => seq![
                BindGroupLayoutEntry {
                    binding: 0,
                    visibility: ShaderStages { vertex: false, fragment: false, compute: true },
                    ty: BindingType::UniformBuffer,
                },
                BindGroupLayoutEntry {
                    binding: 1,
                    visibility: ShaderStages { vertex: false, fragment: false, compute: true },
                    ty: BindingType::StorageRead,
                },
                BindGroupLayoutEntry {
                    binding: 2,
                    visibility: ShaderStages { vertex: false, fragment: false, compute: true },
                    ty: BindingType::StorageWrite,
                },
            ],
            Kernel::Present => seq![
                BindGroupLayoutEntry {
                    binding: 0,
                    visibility: ShaderStages { vertex: true, fragment: true, compute: false },
                    ty: BindingType::UniformBuffer,
                },
                BindGroupLayoutEntry {
                    binding: 3,
                    visibility: ShaderStages { vertex: false, fragment: true, compute: false },
                    ty: BindingType::SampledTexture,
                },
                BindGroupLayoutEntry {
                    binding: 4,
                    visibility: ShaderStages { vertex: false, fragment: true, compute: false },
                    ty: BindingType::FilteringSampler,
                },
            ],
        }
    }

    /// The layout of the program's one bind group.
    pub fn layout(self) -> (entries: Vec<BindGroupLayoutEntry>)
        ensures
            entries@ == self.spec_layout(),
    {
        let entries = match self {
            Kernel::Accumulate => vec![
                BindGroupLayoutEntry {
                    binding: 0,
                    visibility: ShaderStages { vertex: false, fragment: false, compute: true },
                    ty: BindingType::UniformBuffer,
                },
                BindGroupLayoutEntry {
                    binding: 1,
                    visibility: ShaderStages { vertex: false, fragment: false, compute: true },
                    ty: BindingType::StorageRead,
                },
                BindGroupLayoutEntry {
                    binding: 2,
                    visibility: ShaderStages { vertex: false, fragment: false, compute: true },
                    ty: BindingType::StorageWrite,
                },
            ],
            Kernel::Present => vec![
                BindGroupLayoutEntry {
                    binding: 0,
                    visibility: ShaderStages { vertex: true, fragment: true, compute: false },
                    ty: BindingType::UniformBuffer,
                },
                BindGroupLayoutEntry {
                    binding: 3,
                    visibility: ShaderStages { vertex: false, fragment: true, compute: false },
                    ty: BindingType::SampledTexture,
                },
                BindGroupLayoutEntry {
                    binding: 4,
                    visibility: ShaderStages { vertex: false, fragment: true, compute: false },
                    ty: BindingType::FilteringSampler,
                },
            ],
        };
        assert(entries@ =~= self.spec_layout());
        entries
    }
}

impl BindGroupId {
    /// The binding set of the compute program that reads `source`.
    pub open spec fn spec_compute(source: Slot) -> BindGroupId {
        match source {
            Slot::A => BindGroupId::ComputeA,
            Slot::B => BindGroupId::ComputeB,
        }
    }

    /// The binding set of the render program that samples `sampled`.
    pub open spec fn spec_blit(sampled: Slot) -> BindGroupId {
        match sampled {
            Slot::A => BindGroupId::BlitA,
            Slot::B => BindGroupId::BlitB,
        }
    }

    /// The program that the binding set belongs to.
    pub open spec fn spec_kernel(self) -> Kernel {
        match self {
            BindGroupId::ComputeA | BindGroupId::ComputeB => Kernel::Accumulate,
            BindGroupId::BlitA | BindGroupId::BlitB => Kernel::Present,
        }
    }

    /// The image that the program takes its input from under this set.
    pub open spec fn spec_input(self) -> Slot {
        match self {
            BindGroupId::ComputeA | BindGroupId::BlitA => Slot::A,
            BindGroupId::ComputeB | BindGroupId::BlitB => Slot::B,
        }
    }

    /// The lines of the binding set.
    pub open spec fn spec_entries(self) -> Seq<BindGroupEntry> {
        match self.spec_kernel() {
            Kernel::Accumulate => seq![
                BindGroupEntry { binding: 0, resource: Resource::CameraBuffer },
                BindGroupEntry { binding: 1, resource: Resource::StorageView(self.spec_input()) },
                BindGroupEntry {
                    binding: 2,
                    resource: Resource::StorageView(self.spec_input().spec_other()),
                },
            ],
            Kernel::Present => seq![
                BindGroupEntry { binding: 0, resource: Resource::CameraBuffer },
                BindGroupEntry { binding: 3, resource: Resource::SampleView(self.spec_input()) },
                BindGroupEntry { binding: 4, resource: Resource::LinearSampler },
            ],
        }
    }

    /// The binding set of the compute program that reads `source`.
    pub fn compute(source: Slot) -> (id: BindGroupId)
        ensures
            id == BindGroupId::spec_compute(source),
    {
        match source {
            Slot::A => BindGroupId::ComputeA,
            Slot::B => BindGroupId::ComputeB,
        }
    }

    /// The binding set of the render program that samples `sampled`.
    pub fn blit(sampled: Slot) -> (id: BindGroupId)
        ensures
            id == BindGroupId::spec_blit(sampled),
    {
        match sampled {
            Slot::A => BindGroupId::BlitA,
            Slot::B => BindGroupId::BlitB,
        }
    }

    /// The program that the binding set belongs to.
    pub fn kernel(self) -> (kernel: Kernel)
        ensures
            kernel == self.spec_kernel(),
    {
        match self {
            BindGroupId::ComputeA | BindGroupId::ComputeB => Kernel::Accumulate,
            BindGroupId::BlitA | BindGroupId::BlitB => Kernel::Present,
        }
    }

    /// The image that the program takes its input from under this set.
    pub fn input(self) -> (slot: Slot)
        ensures
            slot == self.spec_input(),
    {
        match self {
            BindGroupId::ComputeA | BindGroupId::BlitA => Slot::A,
            BindGroupId::ComputeB | BindGroupId::BlitB => Slot::B,
        }
    }

    /// The lines of the binding set, in the order of the program's layout.
    pub fn entries(self) -> (entries: Vec<BindGroupEntry>)
        ensures
            entries@ == self.spec_entries(),
    {
        let input = self.input();
        let entries = match self.kernel() {
            Kernel::Accumulate => vec![
                BindGroupEntry { binding: 0, resource: Resource::CameraBuffer },
                BindGroupEntry { binding: 1, resource: Resource::StorageView(input) },
                BindGroupEntry { binding: 2, resource: Resource::StorageView(input.other()) },
            ],
            Kernel::Present => vec![
                BindGroupEntry { binding: 0, resource: Resource::CameraBuffer },
                BindGroupEntry { binding: 3, resource: Resource::SampleView(input) },
                BindGroupEntry { binding: 4, resource: Resource::LinearSampler },
            ],
        };
        assert(entries@ =~= self.spec_entries());
        entries
    }
}

/// Whether a resource is of the kind that a layout line expects.
pub open spec fn fits(resource: Resource, ty: BindingType) -> bool {
    match resource {
        Resource::CameraBuffer => ty == BindingType::UniformBuffer,
        Resource::StorageView(_) => ty == BindingType::StorageRead || ty
            == BindingType::StorageWrite,
        Resource::SampleView(_) => ty == BindingType::SampledTexture,
        Resource::LinearSampler => ty == BindingType::FilteringSampler,
    }
}

/// Every binding set follows the layout of its program line by line: the
/// same binding numbers, and at each a resource of the expected kind.
pub proof fn lemma_entries_follow_layout(id: BindGroupId, i: int)
    requires
        0 <= i < 3,
    ensures
        id.spec_entries().len() == 3,
        id.spec_kernel().spec_layout().len() == 3,
        id.spec_entries()[i].binding == id.spec_kernel().spec_layout()[i].binding,
        fits(id.spec_entries()[i].resource, id.spec_kernel().spec_layout()[i].ty),
{
}

/// The compute program never reads and writes the same image: under either
/// of its binding sets the image read is the set's input and the image
/// written is the other one.
pub proof fn lemma_compute_reads_and_writes_apart(source: Slot)
    ensures
        BindGroupId::spec_compute(source).spec_kernel() == Kernel::Accumulate,
        BindGroupId::spec_compute(source).spec_entries()[1].resource == Resource::StorageView(
            source,
        ),
        BindGroupId::spec_compute(source).spec_entries()[2].resource == Resource::StorageView(
            source.spec_other(),
        ),
        source.spec_other() != source,
{
}

/// The render program samples the image that its binding set names.
pub proof fn lemma_blit_samples_its_input(sampled: Slot)
    ensures
        BindGroupId::spec_blit(sampled).spec_kernel() == Kernel::Present,
        BindGroupId::spec_blit(sampled).spec_entries()[1].resource == Resource::SampleView(
            sampled,
        ),
{
}

} // verus!
