use vstd::prelude::*;

use crate::gl_commands::{DrawMode, FragUniformsSource, GlCommand};

verus! {

/// The shader variants of the universal pipeline.
#[derive(Clone, Copy, Debug, PartialEq, Eq, Structural)]
pub enum ShaderType {
    FillGradient,
    FillImage,
    Simple,
    Image,
}

/// The number the fragment shader reads for a shader type (its position in
/// the declaration).
pub fn shader_type_code(t: ShaderType) -> (r: i32)
    ensures
        r == match t {
            ShaderType::FillGradient => 0i32,
            ShaderType::FillImage => 1i32,
            ShaderType::Simple => 2i32,
            ShaderType::Image => 3i32,
        },
{
    match t {
        ShaderType::FillGradient => 0,
        ShaderType::FillImage => 1,
        ShaderType::Simple => 2,
        ShaderType::Image => 3,
    }
}

/// The program, buffers and uniform locations of the pipeline that draws
/// paths (fills, strokes, gradients and image patterns).
pub struct UniversalPipeline {
    pub program: u32,
    pub vbo: u32,
    pub vao: u32,
    pub transform_location: i32,
    pub flipped_y_location: i32,
    pub frag_uniform_buf: u32,
}

impl UniversalPipeline {
    /// A pipeline over a linked program, before buffers are assigned.
    pub fn from_program(
        program: u32,
        transform_location: i32,
        flipped_y_location: i32,
        frag_uniform_buf: u32,
    ) -> (r: Self)
        ensures
            r == (UniversalPipeline {
                program,
                vbo: 0,
                vao: 0,
                transform_location,
                flipped_y_location,
                frag_uniform_buf,
            }),
    {
        UniversalPipeline { program, vbo: 0, vao: 0, transform_location, flipped_y_location, frag_uniform_buf }
    }

    /// Uses the vertex buffer and vertex array of a context.
    pub fn set_buffers(&mut self, buffers_vbo_vba: (u32, u32))
        ensures
            *final(self) == (UniversalPipeline {
                vbo: buffers_vbo_vba.0,
                vao: buffers_vbo_vba.1,
                ..*old(self)
            }),
    {
        self.vbo = buffers_vbo_vba.0;
        self.vao = buffers_vbo_vba.1;
    }

    /// Makes the pipeline's program current.
    pub fn apply(&mut self, commands: &mut Vec<GlCommand>)
        ensures
            *final(self) == *old(self),
            final(commands)@ == old(commands)@.push(GlCommand::UseProgram { program_id: old(self).program }),
    {
        commands.push(GlCommand::UseProgram { program_id: self.program });
    }

    /// Uploads the transform to the program's `transform` uniform.
    pub fn set_transform(&mut self, commands: &mut Vec<GlCommand>)
        ensures
            *final(self) == *old(self),
            final(commands)@ == old(commands)@.push(
                GlCommand::SetTransform { location: old(self).transform_location },
            ),
    {
        commands.push(GlCommand::SetTransform { location: self.transform_location });
    }

    /// Sets the program's `flipped_y` uniform to 1 or 0.
    pub fn set_flipped_y(&mut self, flipped_y: bool, commands: &mut Vec<GlCommand>)
        ensures
            *final(self) == *old(self),
            final(commands)@ == old(commands)@.push(
                GlCommand::SetFlippedY {
                    location: old(self).flipped_y_location,
                    value: if flipped_y { 1i32 } else { 0i32 },
                },
            ),
    {
        commands.push(
            GlCommand::SetFlippedY {
                location: self.flipped_y_location,
                value: if flipped_y { 1 } else { 0 },
            },
        );
    }

    /// Uploads fragment uniforms to the pipeline's uniform buffer and binds
    /// it to the `frag` block.
    pub fn apply_frag_uniforms(&mut self, source: FragUniformsSource, commands: &mut Vec<GlCommand>)
        ensures
            *final(self) == *old(self),
            final(commands)@ == old(commands)@.push(
                GlCommand::ApplyFragUniforms { buffer: old(self).frag_uniform_buf, source },
            ),
    {
        commands.push(GlCommand::ApplyFragUniforms { buffer: self.frag_uniform_buf, source });
    }

    /// Draws `count` vertices with the pipeline's buffers.
    pub fn draw(&mut self, count: usize, mode: DrawMode, commands: &mut Vec<GlCommand>)
        ensures
            *final(self) == *old(self),
            final(commands)@ == old(commands)@.push(
                GlCommand::DrawArrays { vbo: old(self).vbo, vao: old(self).vao, mode, count },
            ),
    {
        commands.push(GlCommand::DrawArrays { vbo: self.vbo, vao: self.vao, mode, count });
    }
}

/// The program, buffers and transform location of the pipeline that draws
/// solid colored triangles and lines.
pub struct ColoredPipeline {
    pub program: u32,
    pub vbo: u32,
    pub vao: u32,
    pub transform_location: i32,
}

impl ColoredPipeline {
    /// A pipeline over a linked program, before buffers are assigned.
    pub fn from_program(program: u32, transform_location: i32) -> (r: Self)
        ensures
            r == (ColoredPipeline { program, vbo: 0, vao: 0, transform_location }),
    {
        ColoredPipeline { program, vbo: 0, vao: 0, transform_location }
    }

    /// Uses the vertex buffer and vertex array of a context.
    pub fn set_buffers(&mut self, buffers_vbo_vba: (u32, u32))
        ensures
            *final(self) == (ColoredPipeline {
                vbo: buffers_vbo_vba.0,
                vao: buffers_vbo_vba.1,
                ..*old(self)
            }),
    {
        self.vbo = buffers_vbo_vba.0;
        self.vao = buffers_vbo_vba.1;
    }

    /// Makes the pipeline's program current.
    pub fn apply(&mut self, commands: &mut Vec<GlCommand>)
        ensures
            *final(self) == *old(self),
            final(commands)@ == old(commands)@.push(GlCommand::UseProgram { program_id: old(self).program }),
    {
        commands.push(GlCommand::UseProgram { program_id: self.program });
    }

    /// Uploads the transform to the program's `transform` uniform.
    pub fn set_transform(&mut self, commands: &mut Vec<GlCommand>)
        ensures
            *final(self) == *old(self),
            final(commands)@ == old(commands)@.push(
                GlCommand::SetTransform { location: old(self).transform_location },
            ),
    {
        commands.push(GlCommand::SetTransform { location: self.transform_location });
    }

    /// Draws `count` vertices as triangles.
    pub fn draw(&mut self, count: usize, commands: &mut Vec<GlCommand>)
        ensures
            *final(self) == *old(self),
            final(commands)@ == old(commands)@.push(
                GlCommand::DrawArrays { vbo: old(self).vbo, vao: old(self).vao, mode: DrawMode::Triangles, count },
            ),
    {
        commands.push(GlCommand::DrawArrays { vbo: self.vbo, vao: self.vao, mode: DrawMode::Triangles, count });
    }

    /// Draws `count` vertices as lines.
    pub fn draw_lines(&mut self, count: usize, commands: &mut Vec<GlCommand>)
        ensures
            *final(self) == *old(self),
            final(commands)@ == old(commands)@.push(
                GlCommand::DrawArrays { vbo: old(self).vbo, vao: old(self).vao, mode: DrawMode::Lines, count },
            ),
    {
        commands.push(GlCommand::DrawArrays { vbo: self.vbo, vao: self.vao, mode: DrawMode::Lines, count });
    }
}

/// The program, buffers and uniform locations of a pipeline that draws
/// textured triangles (RGBA textures for `TexturedPipeline`, single channel
/// textures for `TexturedY8Pipeline`).
pub struct TexturedPipeline {
    pub program: u32,
    pub vbo: u32,
    pub vao: u32,
    pub transform_location: i32,
    pub flipped_y_location: i32,
}

/// The pipeline that draws single channel (Y8) textured triangles, such as
/// glyph bitmaps.
pub struct TexturedY8Pipeline {
    pub program: u32,
    pub vbo: u32,
    pub vao: u32,
    pub transform_location: i32,
    pub flipped_y_location: i32,
}

impl TexturedPipeline {
    /// A pipeline over a linked program, before buffers are assigned.
    pub fn from_program(program: u32, transform_location: i32, flipped_y_location: i32) -> (r: Self)
        ensures
            r == (TexturedPipeline { program, vbo: 0, vao: 0, transform_location, flipped_y_location }),
    {
        TexturedPipeline { program, vbo: 0, vao: 0, transform_location, flipped_y_location }
    }

    /// Uses the vertex buffer and vertex array of a context.
    pub fn set_buffers(&mut self, buffers_vbo_vba: (u32, u32))
        ensures
            *final(self) == (TexturedPipeline {
                vbo: buffers_vbo_vba.0,
                vao: buffers_vbo_vba.1,
                ..*old(self)
            }),
    {
        self.vbo = buffers_vbo_vba.0;
        self.vao = buffers_vbo_vba.1;
    }

    /// Makes the pipeline's program current.
    pub fn apply(&mut self, commands: &mut Vec<GlCommand>)
        ensures
            *final(self) == *old(self),
            final(commands)@ == old(commands)@.push(GlCommand::UseProgram { program_id: old(self).program }),
    {
        commands.push(GlCommand::UseProgram { program_id: self.program });
    }

    /// Uploads the transform to the program's `transform` uniform.
    pub fn set_transform(&mut self, commands: &mut Vec<GlCommand>)
        ensures
            *final(self) == *old(self),
            final(commands)@ == old(commands)@.push(
                GlCommand::SetTransform { location: old(self).transform_location },
            ),
    {
        commands.push(GlCommand::SetTransform { location: self.transform_location });
    }

    /// Tells the shader whether the texture is stored upside down.
    pub fn set_flipped_y(&mut self, flipped_y: bool, commands: &mut Vec<GlCommand>)
        ensures
            *final(self) == *old(self),
            final(commands)@ == old(commands)@.push(
                GlCommand::SetFlippedY {
                    location: old(self).flipped_y_location,
                    value: if flipped_y { 1i32 } else { 0i32 },
                },
            ),
    {
        commands.push(
            GlCommand::SetFlippedY { location: self.flipped_y_location, value: if flipped_y { 1 } else { 0 } },
        );
    }

    /// Draws `count` vertices as triangles.
    pub fn draw(&mut self, count: usize, commands: &mut Vec<GlCommand>)
        ensures
            *final(self) == *old(self),
            final(commands)@ == old(commands)@.push(
                GlCommand::DrawArrays { vbo: old(self).vbo, vao: old(self).vao, mode: DrawMode::Triangles, count },
            ),
    {
        commands.push(GlCommand::DrawArrays { vbo: self.vbo, vao: self.vao, mode: DrawMode::Triangles, count });
    }
}

impl TexturedY8Pipeline {
    /// A pipeline over a linked program, before buffers are assigned.
    pub fn from_program(program: u32, transform_location: i32, flipped_y_location: i32) -> (r: Self)
        ensures
            r == (TexturedY8Pipeline { program, vbo: 0, vao: 0, transform_location, flipped_y_location }),
    {
        TexturedY8Pipeline { program, vbo: 0, vao: 0, transform_location, flipped_y_location }
    }

    /// Uses the vertex buffer and vertex array of a context.
    pub fn set_buffers(&mut self, buffers_vbo_vba: (u32, u32))
        ensures
            *final(self) == (TexturedY8Pipeline {
                vbo: buffers_vbo_vba.0,
                vao: buffers_vbo_vba.1,
                ..*old(self)
            }),
    {
        self.vbo = buffers_vbo_vba.0;
        self.vao = buffers_vbo_vba.1;
    }

    /// Makes the pipeline's program current.
    pub fn apply(&mut self, commands: &mut Vec<GlCommand>)
        ensures
            *final(self) == *old(self),
            final(commands)@ == old(commands)@.push(GlCommand::UseProgram { program_id: old(self).program }),
    {
        commands.push(GlCommand::UseProgram { program_id: self.program });
    }

    /// Uploads the transform to the program's `transform` uniform.
    pub fn set_transform(&mut self, commands: &mut Vec<GlCommand>)
        ensures
            *final(self) == *old(self),
            final(commands)@ == old(commands)@.push(
                GlCommand::SetTransform { location: old(self).transform_location },
            ),
    {
        commands.push(GlCommand::SetTransform { location: self.transform_location });
    }

    /// Tells the shader whether the texture is stored upside down.
    pub fn set_flipped_y(&mut self, flipped_y: bool, commands: &mut Vec<GlCommand>)
        ensures
            *final(self) == *old(self),
            final(commands)@ == old(commands)@.push(
                GlCommand::SetFlippedY {
                    location: old(self).flipped_y_location,
                    value: if flipped_y { 1i32 } else { 0i32 },
                },
            ),
    {
        commands.push(
            GlCommand::SetFlippedY { location: self.flipped_y_location, value: if flipped_y { 1 } else { 0 } },
        );
    }

    /// Draws `count` vertices as triangles.
    pub fn draw(&mut self, count: usize, commands: &mut Vec<GlCommand>)
        ensures
            *final(self) == *old(self),
            final(commands)@ == old(commands)@.push(
                GlCommand::DrawArrays { vbo: old(self).vbo, vao: old(self).vao, mode: DrawMode::Triangles, count },
            ),
    {
        commands.push(GlCommand::DrawArrays { vbo: self.vbo, vao: self.vao, mode: DrawMode::Triangles, count });
    }
}

} // verus!
