use vstd::prelude::*;

verus! {

/// The formats of the vertex attributes the canvas uses.
#[derive(Clone, Copy, Debug, PartialEq, Eq, Structural)]
pub enum AttributeFormat {
    Float32,
    Float32x2,
    Float32x4,
}

/// Bytes taken by one attribute of format `f`.
pub open spec fn format_size(f: AttributeFormat) -> nat {
    match f {
        AttributeFormat::Float32 => 4,
        AttributeFormat::Float32x2 => 8,
        AttributeFormat::Float32x4 => 16,
    }
}

/// How the buffer advances.
#[derive(Clone, Copy, Debug, PartialEq, Eq, Structural)]
pub enum StepMode {
    Vertex,
    Instance,
}

/// One attribute: where it lies in an element, which shader input it
/// feeds, and its format.
#[derive(Clone, Copy, Debug, PartialEq, Eq, Structural)]
pub struct Attribute {
    pub offset: u64,
    pub shader_location: u32,
    pub format: AttributeFormat,
}

/// The layout of a vertex buffer.
pub struct BufferLayout {
    pub array_stride: u64,
    pub step_mode: StepMode,
    pub attributes: Vec<Attribute>,
}

/// Bytes of one segment instance: two end points, a colour, a width and
/// three words of padding, each component a 32-bit float.
pub const SEGMENT_INSTANCE_SIZE: u64 = 48;

/// The attributes of a segment instance: end point A, end point B, colour
/// and width, at shader locations 0 to 3.
pub open spec fn segment_attributes() -> Seq<Attribute> {
    seq![
        Attribute { offset: 0, shader_location: 0, format: AttributeFormat::Float32x2 },
        Attribute { offset: 8, shader_location: 1, format: AttributeFormat::Float32x2 },
        Attribute { offset: 16, shader_location: 2, format: AttributeFormat::Float32x4 },
        Attribute { offset: 32, shader_location: 3, format: AttributeFormat::Float32 },
    ]
}

/// The instance buffer layout of line segments.
pub fn segment_instance_layout() -> (l: BufferLayout)
    ensures
        l.array_stride == SEGMENT_INSTANCE_SIZE,
        l.step_mode == StepMode::Instance,
        l.attributes@ == segment_attributes(),
{
    let attributes = vec![
        Attribute { offset: 0, shader_location: 0, format: AttributeFormat::Float32x2 },
        Attribute { offset: 8, shader_location: 1, format: AttributeFormat::Float32x2 },
        Attribute { offset: 16, shader_location: 2, format: AttributeFormat::Float32x4 },
        Attribute { offset: 32, shader_location: 3, format: AttributeFormat::Float32 },
    ];
    assert(attributes@ =~= segment_attributes());
    BufferLayout { array_stride: SEGMENT_INSTANCE_SIZE, step_mode: StepMode::Instance, attributes }
}

/// The segment attributes lie one after another without overlap inside an
/// instance, and feed consecutive shader locations.
pub proof fn lemma_segment_attributes_fit()
    ensures
        forall|i: int|
            0 <= i < segment_attributes().len() ==> {
                &&& (#[trigger] segment_attributes()[i]).offset + format_size(segment_attributes()[i].format)
                    <= SEGMENT_INSTANCE_SIZE
                &&& segment_attributes()[i].shader_location == i
            },
        forall|i: int|
            0 <= i < segment_attributes().len() - 1 ==> (#[trigger] segment_attributes()[i]).offset
                + format_size(segment_attributes()[i].format) == segment_attributes()[i + 1].offset,
{
}

} // verus!
