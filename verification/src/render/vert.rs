use vstd::prelude::*;

verus! {

/// A fraction whose two parts are kept apart, so that no rounding happens
/// before the value reaches the graphics device.
#[derive(Clone, Copy, Debug, PartialEq, Eq, Structural)]
pub struct Ratio {
    pub numer: u64,
    pub denom: u32,
}

/// One corner of a sprite quad, in exact integer form.
///
/// `position` is the corner on screen, in pixels, followed by its depth.
/// `uv` is the corner inside the atlas: along each axis the texel coordinate
/// over the atlas size.
#[derive(Clone, Copy, Debug)]
pub struct VertexSprite {
    pub position: [i64; 3],
    pub uv: [Ratio; 2],
}

/// One attribute of a vertex as the vertex shader reads it: a run of
/// `components` 32-bit floats that starts `offset` bytes into the vertex.
#[derive(Clone, Copy, Debug, PartialEq, Eq, Structural)]
pub struct VertexAttribute {
    pub shader_location: u32,
    pub components: u32,
    pub offset: u64,
}

/// How the sprite vertices lie in a vertex buffer.
#[derive(Clone, Copy, Debug, PartialEq, Eq, Structural)]
pub struct VertexLayout {
    /// Distance in bytes from one vertex to the next.
    pub array_stride: u64,
    pub position: VertexAttribute,
    pub uv: VertexAttribute,
}

impl VertexAttribute {
    /// The first byte after the attribute.
    pub open spec fn end(&self) -> int {
        self.offset + 4 * self.components
    }
}

impl VertexLayout {
    /// The attributes lie inside one vertex, do not overlap, and are fed to
    /// different shader locations.
    pub open spec fn wf(&self) -> bool {
        &&& self.position.end() <= self.uv.offset
        &&& self.uv.end() <= self.array_stride
        &&& self.position.shader_location != self.uv.shader_location
    }
}

impl VertexSprite {
    /// The layout of a sprite vertex in a vertex buffer: three floats of
    /// position (the third is the depth, always zero) at shader location 0,
    /// followed by two floats of texture coordinates at shader location 1.
    pub fn desc() -> (layout: VertexLayout)
        ensures
            layout.array_stride == 20,
            layout.position == (VertexAttribute { shader_location: 0, components: 3, offset: 0 }),
            layout.uv == (VertexAttribute { shader_location: 1, components: 2, offset: 12 }),
            layout.wf(),
    {
        VertexLayout {
            array_stride: 20,
            position: VertexAttribute { shader_location: 0, components: 3, offset: 0 },
            uv: VertexAttribute { shader_location: 1, components: 2, offset: 12 },
        }
    }
}

} // verus!
