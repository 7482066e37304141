//! The quad's material: its shader, its texture, and the vertex layout its
//! pipeline is specialised to.
//!
//! The material reads two attributes of a mesh, the position and the first UV
//! set, at fixed shader locations. Specialising a pipeline asks the mesh's
//! layout for exactly these and makes the answer the pipeline's only vertex
//! buffer; a mesh that lacks one of them is refused with the engine's error.

use vstd::prelude::*;
use bevy::render::mesh::Mesh;
use bevy::render::mesh::MeshVertexBufferLayoutRef;
use bevy::render::mesh::MissingVertexAttributeError;
use bevy::render::render_resource::RenderPipelineDescriptor;
use bevy::render::render_resource::ShaderRef;
use bevy::render::render_resource::VertexBufferLayout;

verus! {

/// The shader source of the material, for both stages.
pub const SHADER_ASSET_PATH: &'static str = "shaders/custom_gltf_2d.wgsl";

/// A still image for the material to sample in place of the mix.
pub const UV_TEXTURE_PATH: &'static str = "textures/image.png";

/// Edge length of the quad on screen: a unit square scaled by this factor.
pub const QUAD_EXTENT: u32 = 512;

/// A vertex attribute of a mesh that the material can read.
#[derive(Clone, Copy, Debug, PartialEq, Eq, Structural)]
pub enum MeshAttribute {
    /// The engine's `Mesh::ATTRIBUTE_POSITION`.
    Position,
    /// The engine's `Mesh::ATTRIBUTE_UV_0`.
    Uv0,
}

/// A mesh attribute and the shader location it is bound to.
#[derive(Clone, Copy, Debug, PartialEq, Eq, Structural)]
pub struct AttributeSlot {
    pub attribute: MeshAttribute,
    pub shader_location: u32,
}

/// The material of the quad: the texture it samples. `H` is the engine's
/// texture handle.
#[derive(Clone, Debug)]
pub struct CustomMaterial<H> {
    uv_texture: H,
}

impl<H> View for CustomMaterial<H> {
    type V = H;

    closed spec fn view(&self) -> H {
        self.uv_texture
    }
}

impl<H> CustomMaterial<H> {
    /// The material that samples `uv_texture`.
    pub fn new(uv_texture: H) -> (material: Self)
        ensures
            material@ == uv_texture,
    {
        CustomMaterial { uv_texture }
    }

    /// The texture the material samples.
    pub fn uv_texture(&self) -> (handle: &H)
        ensures
            *handle == self@,
    {
        &self.uv_texture
    }

    /// Gives the texture back.
    pub fn into_uv_texture(self) -> (handle: H)
        ensures
            handle == self@,
    {
        self.uv_texture
    }
}

/// The engine's shared layout of a mesh's vertex buffer, opaque here.
#[verifier::external_type_specification]
#[verifier::external_body]
pub struct ExMeshVertexBufferLayoutRef(MeshVertexBufferLayoutRef);

/// The engine's layout of one vertex buffer of a pipeline, opaque here.
#[verifier::external_type_specification]
#[verifier::external_body]
pub struct ExVertexBufferLayout(VertexBufferLayout);

/// The engine's error for a mesh that lacks a requested attribute, opaque
/// here.
#[verifier::external_type_specification]
#[verifier::external_body]
pub struct ExMissingVertexAttributeError(MissingVertexAttributeError);

/// The engine's description of a render pipeline, opaque here.
#[verifier::external_type_specification]
#[verifier::external_body]
pub struct ExRenderPipelineDescriptor(RenderPipelineDescriptor);

/// The engine's reference to a shader asset, opaque here.
#[verifier::external_type_specification]
#[verifier::external_body]
pub struct ExShaderRef(ShaderRef);

/// The reference to the shader asset at `path`, as the engine makes it from
/// the path's text.
pub uninterp spec fn shader_at(path: Seq<char>) -> ShaderRef;

/// Which of the attributes of [`MeshAttribute`] a mesh's layout holds: those
/// whose engine attribute is among the ids of the layout.
pub uninterp spec fn layout_attributes(layout: MeshVertexBufferLayoutRef) -> Set<MeshAttribute>;

/// How many attribute ids a mesh's layout lists.
pub uninterp spec fn id_count(layout: MeshVertexBufferLayoutRef) -> nat;

/// How many attributes the vertex buffer of a mesh's layout describes.
pub uninterp spec fn buffer_attribute_count(layout: MeshVertexBufferLayoutRef) -> nat;

/// The error a mesh's layout answers a request for `slots` with, where it
/// lacks one of them.
pub uninterp spec fn selection_error(
    layout: MeshVertexBufferLayoutRef,
    slots: Seq<AttributeSlot>,
) -> MissingVertexAttributeError;

/// A pipeline descriptor with its vertex buffers replaced by `buffers` and
/// everything else kept.
pub uninterp spec fn with_vertex_buffers(
    descriptor: RenderPipelineDescriptor,
    buffers: Seq<VertexBufferLayout>,
) -> RenderPipelineDescriptor;

/// The vertex buffer layout that a mesh's layout gives for `slots`, where it
/// holds them all.
pub uninterp spec fn selected_layout(
    layout: MeshVertexBufferLayoutRef,
    slots: Seq<AttributeSlot>,
) -> VertexBufferLayout;

/// The shader locations of a vertex buffer layout's attributes, in order.
pub uninterp spec fn attribute_locations(buffer: VertexBufferLayout) -> Seq<u32>;

/// The vertex buffers of a pipeline descriptor, in order.
pub uninterp spec fn vertex_buffers(descriptor: RenderPipelineDescriptor) -> Seq<
    VertexBufferLayout,
>;

/// Whether a mesh's layout describes an attribute for every id it lists. The
/// engine builds such layouts from meshes; one put together by hand may list
/// more ids than its buffer has attributes.
pub open spec fn well_formed(layout: MeshVertexBufferLayoutRef) -> bool {
    id_count(layout) <= buffer_attribute_count(layout)
}

/// Whether the engine can read `path` as a bare asset path: a text without
/// the marks that set off a source or a label.
pub open spec fn plain_path(path: Seq<char>) -> bool {
    forall|i: int| 0 <= i < path.len() ==> path[i] != '#' && path[i] != ':'
}

/// The shader locations of `slots`, in order.
pub open spec fn slot_locations(slots: Seq<AttributeSlot>) -> Seq<u32> {
    Seq::new(slots.len(), |i: int| slots[i].shader_location)
}

/// What the material binds: the position at location 0, the first UV set at
/// location 1.
pub open spec fn material_slots() -> Seq<AttributeSlot> {
    seq![
        AttributeSlot { attribute: MeshAttribute::Position, shader_location: 0 },
        AttributeSlot { attribute: MeshAttribute::Uv0, shader_location: 1 },
    ]
}

/// Calls `MeshVertexBufferLayout::attribute_ids` and takes the length.
///
/// Not proved: the result is the number of ids the layout lists.
#[verifier::external_body]
fn listed_ids(layout: &MeshVertexBufferLayoutRef) -> (count: usize)
    ensures
        count == id_count(*layout),
{
    layout.0.attribute_ids().len()
}

/// Calls `MeshVertexBufferLayout::layout` and takes the length of the
/// attributes.
///
/// Not proved: the result is the number of attributes the layout's vertex
/// buffer describes.
#[verifier::external_body]
fn described_attributes(layout: &MeshVertexBufferLayoutRef) -> (count: usize)
    ensures
        count == buffer_attribute_count(*layout),
{
    layout.0.layout().attributes.len()
}

/// Calls `MeshVertexBufferLayout::get_layout` with one descriptor per slot,
/// made by `MeshVertexAttribute::at_shader_location` from the engine's
/// attribute of that name.
///
/// Not proved, taken from the engine's source: the call succeeds exactly if
/// the mesh holds the attribute of every slot; the layout it then returns
/// depends on the mesh's layout and the slots alone, and has one attribute
/// per slot, in the slots' order, each at its slot's shader location. The
/// error it fails with depends on the mesh's layout and the slots alone too.
/// The call indexes the buffer's attributes by the place of an id in the id
/// list, and panics where the list is the longer; the precondition leaves
/// such layouts out.
#[verifier::external_body]
fn select_layout(layout: &MeshVertexBufferLayoutRef, slots: &Vec<AttributeSlot>) -> (selected:
    Result<VertexBufferLayout, MissingVertexAttributeError>)
    requires
        well_formed(*layout),
    ensures
        selected is Err ==> selected->Err_0 == selection_error(*layout, slots@),
        selected is Ok <==> forall|i: int|
            0 <= i < slots@.len() ==> layout_attributes(*layout).contains(
                #[trigger] slots@[i].attribute,
            ),
        selected is Ok ==> selected->Ok_0 == selected_layout(*layout, slots@),
        selected is Ok ==> attribute_locations(selected->Ok_0) == slot_locations(slots@),
{
    let mut descriptors = Vec::with_capacity(slots.len());
    for slot in slots.iter() {
        let attribute = match slot.attribute {
            MeshAttribute::Position => Mesh::ATTRIBUTE_POSITION,
            MeshAttribute::Uv0 => Mesh::ATTRIBUTE_UV_0,
        };
        descriptors.push(attribute.at_shader_location(slot.shader_location));
    }
    layout.0.get_layout(&descriptors)
}

/// Stores `buffer` as the one vertex buffer of `descriptor`, in the field
/// `vertex.buffers` of `RenderPipelineDescriptor`.
///
/// Not proved: afterwards the descriptor's vertex buffers are `buffer` alone,
/// and the descriptor is the one before with nothing but its vertex buffers
/// replaced, so that replacing them by `buffer` once more changes nothing.
#[verifier::external_body]
fn set_vertex_buffer(descriptor: &mut RenderPipelineDescriptor, buffer: VertexBufferLayout)
    ensures
        vertex_buffers(*final(descriptor)) == seq![buffer],
        *final(descriptor) == with_vertex_buffers(*old(descriptor), seq![buffer]),
        with_vertex_buffers(*final(descriptor), seq![buffer]) == *final(descriptor),
{
    descriptor.vertex.buffers = vec![buffer];
}

/// Calls `ShaderRef::from` on a path.
///
/// Not proved: the reference depends on the path alone. The engine's source
/// shows it to be the variant `Path` with the asset path parsed from the text.
/// The call panics on a text it cannot parse, which takes a `#` or a `:` in
/// it; the precondition leaves such texts out.
#[verifier::external_body]
fn shader_ref(path: &'static str) -> (shader: ShaderRef)
    requires
        plain_path(path@),
    ensures
        shader == shader_at(path@),
{
    ShaderRef::from(path)
}

/// The path of the material's shader is a bare asset path.
pub proof fn law_shader_path_is_plain()
    ensures
        plain_path(SHADER_ASSET_PATH@),
{
    reveal_strlit("shaders/custom_gltf_2d.wgsl");
}

/// The shader of the vertex stage.
pub fn vertex_shader() -> (shader: ShaderRef)
    ensures
        shader == shader_at(SHADER_ASSET_PATH@),
{
    proof {
        law_shader_path_is_plain();
    }
    shader_ref(SHADER_ASSET_PATH)
}

/// The shader of the fragment stage: the same file.
pub fn fragment_shader() -> (shader: ShaderRef)
    ensures
        shader == shader_at(SHADER_ASSET_PATH@),
{
    proof {
        law_shader_path_is_plain();
    }
    shader_ref(SHADER_ASSET_PATH)
}

/// The attributes the material binds, with their shader locations.
pub fn vertex_attribute_slots() -> (slots: Vec<AttributeSlot>)
    ensures
        slots@ == material_slots(),
{
    let mut slots: Vec<AttributeSlot> = Vec::new();
    slots.push(AttributeSlot { attribute: MeshAttribute::Position, shader_location: 0 });
    slots.push(AttributeSlot { attribute: MeshAttribute::Uv0, shader_location: 1 });
    assert(slots@ =~= material_slots());
    slots
}

/// Whether a mesh's layout describes an attribute for every id it lists.
pub fn is_well_formed(layout: &MeshVertexBufferLayoutRef) -> (ok: bool)
    ensures
        ok == well_formed(*layout),
{
    listed_ids(layout) <= described_attributes(layout)
}

/// Specialises a pipeline to the material. With a mesh that holds the
/// position and the first UV set, the pipeline's vertex buffers become the one
/// layout the mesh gives for them, position at location 0 and UV at location
/// 1, and nothing else of the descriptor changes. With any other mesh the
/// engine's error for that request comes back as it is and the descriptor is
/// left as it was.
pub fn specialize(descriptor: &mut RenderPipelineDescriptor, layout: &MeshVertexBufferLayoutRef) -> (done:
    Result<(), MissingVertexAttributeError>)
    requires
        well_formed(*layout),
    ensures
        done is Ok <==> layout_attributes(*layout).contains(MeshAttribute::Position)
            && layout_attributes(*layout).contains(MeshAttribute::Uv0),
        done is Ok ==> vertex_buffers(*final(descriptor)) == seq![
            selected_layout(*layout, material_slots()),
        ],
        done is Ok ==> *final(descriptor) == with_vertex_buffers(
            *old(descriptor),
            seq![selected_layout(*layout, material_slots())],
        ),
        done is Ok ==> with_vertex_buffers(
            *final(descriptor),
            seq![selected_layout(*layout, material_slots())],
        ) == *final(descriptor),
        done is Ok ==> attribute_locations(selected_layout(*layout, material_slots())) == seq![
            0u32,
            1u32,
        ],
        done is Err ==> done->Err_0 == selection_error(*layout, material_slots()),
        done is Err ==> *final(descriptor) == *old(descriptor),
{
    let slots = vertex_attribute_slots();
    proof {
        assert(slots@[0].attribute == MeshAttribute::Position);
        assert(slots@[1].attribute == MeshAttribute::Uv0);
        assert(slot_locations(slots@) =~= seq![0u32, 1u32]);
    }
    match select_layout(layout, &slots) {
        Ok(vertex_layout) => {
            set_vertex_buffer(descriptor, vertex_layout);
            Ok(())
        },
        Err(missing) => Err(missing),
    }
}

/// Specialises a pipeline to the material for any mesh layout: one that is
/// not well formed is refused with `None` and the descriptor left as it was,
/// any other is handed to [`specialize`].
pub fn try_specialize(
    descriptor: &mut RenderPipelineDescriptor,
    layout: &MeshVertexBufferLayoutRef,
) -> (tried: Option<Result<(), MissingVertexAttributeError>>)
    ensures
        tried is Some <==> well_formed(*layout),
        tried is None ==> *final(descriptor) == *old(descriptor),
        tried is Some ==> (tried->0 is Ok <==> layout_attributes(*layout).contains(
            MeshAttribute::Position,
        ) && layout_attributes(*layout).contains(MeshAttribute::Uv0)),
        tried is Some && tried->0 is Ok ==> vertex_buffers(*final(descriptor)) == seq![
            selected_layout(*layout, material_slots()),
        ] && *final(descriptor) == with_vertex_buffers(
            *old(descriptor),
            seq![selected_layout(*layout, material_slots())],
        ) && with_vertex_buffers(
            *final(descriptor),
            seq![selected_layout(*layout, material_slots())],
        ) == *final(descriptor) && attribute_locations(
            selected_layout(*layout, material_slots()),
        ) == seq![0u32, 1u32],
        tried is Some && tried->0 is Err ==> tried->0->Err_0 == selection_error(
            *layout,
            material_slots(),
        ) && *final(descriptor) == *old(descriptor),
{
    if is_well_formed(layout) {
        Some(specialize(descriptor, layout))
    } else {
        None
    }
}

} // verus!
