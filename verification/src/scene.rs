//! What the scene's instances tell the rendering backend besides their
//! transforms.

use vstd::prelude::*;

verus! {

/// The shading an instance is drawn with.
#[derive(Clone, Copy, Debug, PartialEq, Eq, Structural)]
pub enum Shader {
    Texture,
    NonMaterial,
    Pulse,
    Ripple,
    ColorTween,
    SimpleTransparency,
    Aerogel,
}

impl Shader {
    /// The number the backend knows the shader by.
    pub open spec fn spec_code(self) -> u32 {
        match self {
            Shader::Texture => 0,
            Shader::NonMaterial => 1,
            Shader::Pulse => 2,
            Shader::Ripple => 3,
            Shader::ColorTween => 4,
            Shader::SimpleTransparency => 5,
            Shader::Aerogel => 6,
        }
    }

    pub fn code(self) -> (c: u32)
        ensures
            c == self.spec_code(),
    {
        match self {
            Shader::Texture => 0,
            Shader::NonMaterial => 1,
            Shader::Pulse => 2,
            Shader::Ripple => 3,
            Shader::ColorTween => 4,
            Shader::SimpleTransparency => 5,
            Shader::Aerogel => 6,
        }
    }
}

/// The corners of the cube's twelve triangles as indices into its 24
/// vertices, four to a face, each triangle counter-clockwise seen from
/// outside.
pub open spec fn spec_cube_indices() -> Seq<u32> {
    seq![
        0u32, 1, 2, 1, 3, 2, 4, 6, 5, 5, 6, 7, 8, 9, 10, 10, 9, 11, 12, 14, 13, 13, 14, 15, 16, 17,
        18, 18, 17, 19, 20, 22, 21, 21, 22, 23,
    ]
}

/// The cube's index list; `inverted` gives it back to front, which turns
/// every triangle to face inward.
pub fn cube_indices(inverted: bool) -> (indices: Vec<u32>)
    ensures
        indices@ == (if inverted {
            spec_cube_indices().reverse()
        } else {
            spec_cube_indices()
        }),
{
    let forward: Vec<u32> = vec![
        0, 1, 2, 1, 3, 2, 4, 6, 5, 5, 6, 7, 8, 9, 10, 10, 9, 11, 12, 14, 13, 13, 14, 15, 16, 17,
        18, 18, 17, 19, 20, 22, 21, 21, 22, 23,
    ];
    assert(forward@ =~= spec_cube_indices());
    if inverted {
        let mut backward: Vec<u32> = Vec::new();
        let mut i: usize = forward.len();
        while i > 0
            invariant
                i <= forward.len(),
                backward@.len() == forward.len() - i,
                forall|k: int|
                    0 <= k < backward@.len() ==> backward@[k] == forward@[forward.len() - 1 - k],
            decreases i,
        {
            i -= 1;
            backward.push(forward[i]);
        }
        assert(backward@ =~= forward@.reverse());
        backward
    } else {
        forward
    }
}

/// Either way round the list holds three corners for each of twelve
/// triangles, and every entry names one of the 24 vertices.
pub proof fn law_cube_indices_name_vertices(i: int)
    requires
        0 <= i < 36,
    ensures
        spec_cube_indices().len() == 36,
        spec_cube_indices().reverse().len() == 36,
        spec_cube_indices()[i] < 24,
        spec_cube_indices().reverse()[i] < 24,
        spec_cube_indices().reverse()[i] == spec_cube_indices()[35 - i],
{
}

/// No two shaders share a number, and every number is below seven.
pub proof fn law_shader_codes_are_distinct(a: Shader, b: Shader)
    ensures
        a.spec_code() == b.spec_code() ==> a == b,
        a.spec_code() < 7,
{
}

} // verus!
