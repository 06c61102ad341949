//! Parameter typing of the GPU capability tier tables.

use crate::text::str_eq;
use vstd::prelude::*;

verus! {

/// How a captured JSON value is typed in the emitted table. `FromJson` means
/// the capture's own shape is faithful; the others name params whose GL type
/// JSON cannot represent (`JSON.stringify` writes `1.0` as `1`).
#[derive(Debug, Clone, Copy, PartialEq, Eq, Structural)]
pub enum GlType {
    FromJson,
    Float,
    FloatPair,
    FloatQuad,
    IntPair,
    IntQuad,
    IntList,
}

/// The GL type the WebGL 1.0 and 2.0 specifications declare for the params
/// JSON cannot round-trip; every other param takes the capture's own shape.
pub open spec fn gl_type_spec(name: Seq<char>) -> GlType {
    if name == "ALIASED_LINE_WIDTH_RANGE"@ || name == "ALIASED_POINT_SIZE_RANGE"@ || name
        == "DEPTH_RANGE"@ {
        GlType::FloatPair
    } else if name == "BLEND_COLOR"@ || name == "COLOR_CLEAR_VALUE"@ {
        GlType::FloatQuad
    } else if name == "DEPTH_CLEAR_VALUE"@ || name == "LINE_WIDTH"@ || name
        == "POLYGON_OFFSET_FACTOR"@ || name == "POLYGON_OFFSET_UNITS"@ || name
        == "SAMPLE_COVERAGE_VALUE"@ || name == "MAX_TEXTURE_LOD_BIAS"@ || name
        == "MAX_TEXTURE_MAX_ANISOTROPY_EXT"@ {
        GlType::Float
    } else if name == "MAX_VIEWPORT_DIMS"@ {
        GlType::IntPair
    } else if name == "VIEWPORT"@ || name == "SCISSOR_BOX"@ {
        GlType::IntQuad
    } else if name == "COMPRESSED_TEXTURE_FORMATS"@ {
        GlType::IntList
    } else {
        GlType::FromJson
    }
}

/// Spec-declared GL type for params JSON cannot round-trip faithfully.
pub fn gl_type_for(name: &str) -> (r: GlType)
    ensures
        r == gl_type_spec(name@),
{
    if str_eq(name, "ALIASED_LINE_WIDTH_RANGE") || str_eq(name, "ALIASED_POINT_SIZE_RANGE")
        || str_eq(name, "DEPTH_RANGE") {
        GlType::FloatPair
    } else if str_eq(name, "BLEND_COLOR") || str_eq(name, "COLOR_CLEAR_VALUE") {
        GlType::FloatQuad
    } else if str_eq(name, "DEPTH_CLEAR_VALUE") || str_eq(name, "LINE_WIDTH") || str_eq(
        name,
        "POLYGON_OFFSET_FACTOR",
    ) || str_eq(name, "POLYGON_OFFSET_UNITS") || str_eq(name, "SAMPLE_COVERAGE_VALUE")
        || str_eq(name, "MAX_TEXTURE_LOD_BIAS") || str_eq(name, "MAX_TEXTURE_MAX_ANISOTROPY_EXT") {
        GlType::Float
    } else if str_eq(name, "MAX_VIEWPORT_DIMS") {
        GlType::IntPair
    } else if str_eq(name, "VIEWPORT") || str_eq(name, "SCISSOR_BOX") {
        GlType::IntQuad
    } else if str_eq(name, "COMPRESSED_TEXTURE_FORMATS") {
        GlType::IntList
    } else {
        GlType::FromJson
    }
}

/// The parameters the tier tables serve: static device capabilities,
/// implementation-fixed for the life of a context and unchangeable by any GL
/// call or context attribute.
pub open spec fn served_cap(name: Seq<char>) -> bool {
    ||| name == "ALIASED_LINE_WIDTH_RANGE"@
    ||| name == "ALIASED_POINT_SIZE_RANGE"@
    ||| name == "MAX_3D_TEXTURE_SIZE"@
    ||| name == "MAX_ARRAY_TEXTURE_LAYERS"@
    ||| name == "MAX_CLIENT_WAIT_TIMEOUT_WEBGL"@
    ||| name == "MAX_COLOR_ATTACHMENTS"@
    ||| name == "MAX_COMBINED_FRAGMENT_UNIFORM_COMPONENTS"@
    ||| name == "MAX_COMBINED_TEXTURE_IMAGE_UNITS"@
    ||| name == "MAX_COMBINED_UNIFORM_BLOCKS"@
    ||| name == "MAX_COMBINED_VERTEX_UNIFORM_COMPONENTS"@
    ||| name == "MAX_CUBE_MAP_TEXTURE_SIZE"@
    ||| name == "MAX_DRAW_BUFFERS"@
    ||| name == "MAX_ELEMENTS_INDICES"@
    ||| name == "MAX_ELEMENTS_VERTICES"@
    ||| name == "MAX_ELEMENT_INDEX"@
    ||| name == "MAX_FRAGMENT_INPUT_COMPONENTS"@
    ||| name == "MAX_FRAGMENT_UNIFORM_BLOCKS"@
    ||| name == "MAX_FRAGMENT_UNIFORM_COMPONENTS"@
    ||| name == "MAX_FRAGMENT_UNIFORM_VECTORS"@
    ||| name == "MAX_PROGRAM_TEXEL_OFFSET"@
    ||| name == "MAX_RENDERBUFFER_SIZE"@
    ||| name == "MAX_SAMPLES"@
    ||| name == "MAX_SERVER_WAIT_TIMEOUT"@
    ||| name == "MAX_TEXTURE_IMAGE_UNITS"@
    ||| name == "MAX_TEXTURE_LOD_BIAS"@
    ||| name == "MAX_TEXTURE_SIZE"@
    ||| name == "MAX_TRANSFORM_FEEDBACK_INTERLEAVED_COMPONENTS"@
    ||| name == "MAX_TRANSFORM_FEEDBACK_SEPARATE_ATTRIBS"@
    ||| name == "MAX_TRANSFORM_FEEDBACK_SEPARATE_COMPONENTS"@
    ||| name == "MAX_UNIFORM_BLOCK_SIZE"@
    ||| name == "MAX_UNIFORM_BUFFER_BINDINGS"@
    ||| name == "MAX_VARYING_COMPONENTS"@
    ||| name == "MAX_VARYING_VECTORS"@
    ||| name == "MAX_VERTEX_ATTRIBS"@
    ||| name == "MAX_VERTEX_OUTPUT_COMPONENTS"@
    ||| name == "MAX_VERTEX_TEXTURE_IMAGE_UNITS"@
    ||| name == "MAX_VERTEX_UNIFORM_BLOCKS"@
    ||| name == "MAX_VERTEX_UNIFORM_COMPONENTS"@
    ||| name == "MAX_VERTEX_UNIFORM_VECTORS"@
    ||| name == "MAX_VIEWPORT_DIMS"@
    ||| name == "MIN_PROGRAM_TEXEL_OFFSET"@
    ||| name == "SUBPIXEL_BITS"@
    ||| name == "UNIFORM_BUFFER_OFFSET_ALIGNMENT"@
    ||| name == "RENDERER"@
    ||| name == "SHADING_LANGUAGE_VERSION"@
    ||| name == "VENDOR"@
    ||| name == "VERSION"@
}

/// Whether a parameter is a static device capability the tables may serve.
pub fn is_served_cap(name: &str) -> (r: bool)
    ensures
        r == served_cap(name@),
{
    str_eq(name, "ALIASED_LINE_WIDTH_RANGE") || str_eq(name, "ALIASED_POINT_SIZE_RANGE") || str_eq(name, "MAX_3D_TEXTURE_SIZE") || str_eq(name, "MAX_ARRAY_TEXTURE_LAYERS") || str_eq(name, "MAX_CLIENT_WAIT_TIMEOUT_WEBGL") || str_eq(name, "MAX_COLOR_ATTACHMENTS") || str_eq(name, "MAX_COMBINED_FRAGMENT_UNIFORM_COMPONENTS") || str_eq(name, "MAX_COMBINED_TEXTURE_IMAGE_UNITS") || str_eq(name, "MAX_COMBINED_UNIFORM_BLOCKS") || str_eq(name, "MAX_COMBINED_VERTEX_UNIFORM_COMPONENTS") || str_eq(name, "MAX_CUBE_MAP_TEXTURE_SIZE") || str_eq(name, "MAX_DRAW_BUFFERS") || str_eq(name, "MAX_ELEMENTS_INDICES") || str_eq(name, "MAX_ELEMENTS_VERTICES") || str_eq(name, "MAX_ELEMENT_INDEX") || str_eq(name, "MAX_FRAGMENT_INPUT_COMPONENTS") || str_eq(name, "MAX_FRAGMENT_UNIFORM_BLOCKS") || str_eq(name, "MAX_FRAGMENT_UNIFORM_COMPONENTS") || str_eq(name, "MAX_FRAGMENT_UNIFORM_VECTORS") || str_eq(name, "MAX_PROGRAM_TEXEL_OFFSET") || str_eq(name, "MAX_RENDERBUFFER_SIZE") || str_eq(name, "MAX_SAMPLES") || str_eq(name, "MAX_SERVER_WAIT_TIMEOUT") || str_eq(name, "MAX_TEXTURE_IMAGE_UNITS") || str_eq(name, "MAX_TEXTURE_LOD_BIAS") || str_eq(name, "MAX_TEXTURE_SIZE") || str_eq(name, "MAX_TRANSFORM_FEEDBACK_INTERLEAVED_COMPONENTS") || str_eq(name, "MAX_TRANSFORM_FEEDBACK_SEPARATE_ATTRIBS") || str_eq(name, "MAX_TRANSFORM_FEEDBACK_SEPARATE_COMPONENTS") || str_eq(name, "MAX_UNIFORM_BLOCK_SIZE") || str_eq(name, "MAX_UNIFORM_BUFFER_BINDINGS") || str_eq(name, "MAX_VARYING_COMPONENTS") || str_eq(name, "MAX_VARYING_VECTORS") || str_eq(name, "MAX_VERTEX_ATTRIBS") || str_eq(name, "MAX_VERTEX_OUTPUT_COMPONENTS") || str_eq(name, "MAX_VERTEX_TEXTURE_IMAGE_UNITS") || str_eq(name, "MAX_VERTEX_UNIFORM_BLOCKS") || str_eq(name, "MAX_VERTEX_UNIFORM_COMPONENTS") || str_eq(name, "MAX_VERTEX_UNIFORM_VECTORS") || str_eq(name, "MAX_VIEWPORT_DIMS") || str_eq(name, "MIN_PROGRAM_TEXEL_OFFSET") || str_eq(name, "SUBPIXEL_BITS") || str_eq(name, "UNIFORM_BUFFER_OFFSET_ALIGNMENT") || str_eq(name, "RENDERER") || str_eq(name, "SHADING_LANGUAGE_VERSION") || str_eq(name, "VENDOR") || str_eq(name, "VERSION")
}

} // verus!
