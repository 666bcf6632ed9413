//! The render state, the commands that submissions are recorded as, and the
//! handles of what can be drawn.
//!
//! Nothing here touches a graphics device. Every clear and every draw is
//! appended to the context's list of commands, together with the render state
//! that was current when it was made; the embedding program takes the list
//! with [`present`] and replays it on the device.

use vstd::prelude::*;
use crate::context::TetraContext;
use crate::error::TetraError;
use crate::graphics::nine_slice::{NineSlice, Patch};
use crate::graphics::params::DrawParams;
use crate::graphics::stencil::StencilState;
use crate::math::{Rectangle, Vec2};

pub mod animation;
pub mod nine_slice;
pub mod params;
pub mod stencil;

verus! {

/// A colour with 8 bits per channel.
#[derive(Clone, Copy, Debug, PartialEq, Eq, Structural)]
pub struct Color {
    pub r: u8,
    pub g: u8,
    pub b: u8,
    pub a: u8,
}

impl Color {
    /// An opaque colour.
    pub fn rgb(r: u8, g: u8, b: u8) -> (color: Color)
        ensures
            color == (Color { r, g, b, a: 255 }),
    {
        Color { r, g, b, a: 255 }
    }

    pub fn rgba(r: u8, g: u8, b: u8, a: u8) -> (color: Color)
        ensures
            color == (Color { r, g, b, a }),
    {
        Color { r, g, b, a }
    }

    pub fn white() -> (color: Color)
        ensures
            color == (Color { r: 255, g: 255, b: 255, a: 255 }),
    {
        Color { r: 255, g: 255, b: 255, a: 255 }
    }

    pub fn black() -> (color: Color)
        ensures
            color == (Color { r: 0, g: 0, b: 0, a: 255 }),
    {
        Color { r: 0, g: 0, b: 0, a: 255 }
    }
}

/// Which channels a draw may write.
#[derive(Clone, Copy, Debug, PartialEq, Eq, Structural)]
pub struct ColorMask {
    pub red: bool,
    pub green: bool,
    pub blue: bool,
    pub alpha: bool,
}

impl ColorMask {
    pub open spec fn spec_select(self, stored: Color, fragment: Color) -> Color {
        Color {
            r: if self.red {
                fragment.r
            } else {
                stored.r
            },
            g: if self.green {
                fragment.g
            } else {
                stored.g
            },
            b: if self.blue {
                fragment.b
            } else {
                stored.b
            },
            a: if self.alpha {
                fragment.a
            } else {
                stored.a
            },
        }
    }

    /// The colour of a pixel that held `stored` and has `fragment` written
    /// to it: the channels that the mask lets through are replaced.
    #[verifier::when_used_as_spec(spec_select)]
    pub fn select(self, stored: Color, fragment: Color) -> (color: Color)
        ensures
            color == self.spec_select(stored, fragment),
    {
        Color {
            r: if self.red {
                fragment.r
            } else {
                stored.r
            },
            g: if self.green {
                fragment.g
            } else {
                stored.g
            },
            b: if self.blue {
                fragment.b
            } else {
                stored.b
            },
            a: if self.alpha {
                fragment.a
            } else {
                stored.a
            },
        }
    }
}

/// A texture that the device holds.
#[derive(Clone, Copy, Debug, PartialEq, Eq, Structural)]
pub struct Texture {
    pub id: u32,
    pub width: i32,
    pub height: i32,
}

/// A shader program that the device holds.
#[derive(Clone, Copy, Debug, PartialEq, Eq, Structural)]
pub struct Shader {
    pub id: u32,
}

/// Why there is no shader.
#[derive(Clone, Debug, PartialEq, Eq)]
pub enum ShaderFailure {
    /// The file could not be read.
    Unreadable(String),
    /// The source is no valid program.
    Rejected(String),
}

/// Whether `r` is what the shader constructors make of `compiled`: the
/// shader; `AssetLoadError` with the path where the file could not be read;
/// `ShaderCompileError` where its source was rejected.
pub open spec fn shader_outcome(
    path: Seq<char>,
    compiled: Result<Shader, ShaderFailure>,
    r: Result<Shader, TetraError>,
) -> bool {
    match compiled {
        Ok(shader) => r == Ok::<Shader, TetraError>(shader),
        Err(ShaderFailure::Unreadable(reason)) => r matches Err(
            TetraError::AssetLoadError { path: p, reason: why },
        ) && p@ == path && why == reason,
        Err(ShaderFailure::Rejected(reason)) => r == Err::<Shader, TetraError>(
            TetraError::ShaderCompileError(reason),
        ),
    }
}

/// Geometry that the device holds.
#[derive(Clone, Copy, Debug, PartialEq, Eq, Structural)]
pub struct Mesh {
    pub id: u32,
}

/// An off-screen render target. What is drawn to it ends up in `texture`,
/// which can be drawn like any other texture.
#[derive(Clone, Copy, Debug, PartialEq, Eq, Structural)]
pub struct Canvas {
    pub id: u32,
    pub texture: Texture,
}

/// A font that the device holds.
#[derive(Clone, Copy, Debug, PartialEq, Eq, Structural)]
pub struct Font {
    pub id: u32,
}

/// A piece of text and the font to draw it with.
#[derive(Clone, Debug, PartialEq, Eq)]
pub struct Text {
    pub content: String,
    pub font: Font,
}

/// Where draws go.
#[derive(Clone, Copy, Debug, PartialEq, Eq, Structural)]
pub enum RenderTarget {
    /// The window's own framebuffer.
    Screen,
    /// The canvas with this id.
    Canvas(u32),
}

/// Which shader program draws run.
#[derive(Clone, Copy, Debug, PartialEq, Eq, Structural)]
pub enum ActiveShader {
    /// The built-in program.
    Default,
    /// The shader with this id.
    Custom(u32),
}

/// The render state: one value on each of its four axes at any time.
#[derive(Clone, Copy, Debug, PartialEq, Eq, Structural)]
pub struct GraphicsState {
    pub target: RenderTarget,
    pub shader: ActiveShader,
    pub stencil: StencilState,
    pub color_mask: ColorMask,
}

/// One pixel of a render target.
#[derive(Clone, Copy, Debug, PartialEq, Eq, Structural)]
pub struct Pixel {
    pub color: Color,
    pub stencil: u8,
}

impl GraphicsState {
    /// The state of a fresh context: drawing to the screen with the built-in
    /// shader, no stencil, all channels written.
    pub open spec fn spec_initial() -> GraphicsState {
        GraphicsState {
            target: RenderTarget::Screen,
            shader: ActiveShader::Default,
            stencil: StencilState::Disabled,
            color_mask: ColorMask { red: true, green: true, blue: true, alpha: true },
        }
    }

    pub fn initial() -> (state: GraphicsState)
        ensures
            state == GraphicsState::spec_initial(),
    {
        GraphicsState {
            target: RenderTarget::Screen,
            shader: ActiveShader::Default,
            stencil: StencilState::Disabled,
            color_mask: ColorMask { red: true, green: true, blue: true, alpha: true },
        }
    }

    /// The state after `set_canvas`.
    pub open spec fn canvas_set(self, canvas: Canvas) -> GraphicsState {
        GraphicsState { target: RenderTarget::Canvas(canvas.id), ..self }
    }

    /// The state after `reset_canvas`.
    pub open spec fn canvas_reset(self) -> GraphicsState {
        GraphicsState { target: RenderTarget::Screen, ..self }
    }

    /// The state after `set_shader`.
    pub open spec fn shader_set(self, shader: Shader) -> GraphicsState {
        GraphicsState { shader: ActiveShader::Custom(shader.id), ..self }
    }

    /// The state after `reset_shader`.
    pub open spec fn shader_reset(self) -> GraphicsState {
        GraphicsState { shader: ActiveShader::Default, ..self }
    }

    pub open spec fn spec_shade(self, pixel: Pixel, fragment: Color) -> Pixel {
        if self.stencil.spec_passes(pixel.stencil) {
            Pixel {
                color: self.color_mask.spec_select(pixel.color, fragment),
                stencil: self.stencil.spec_stored_after(pixel.stencil),
            }
        } else {
            pixel
        }
    }

    /// What becomes of a pixel that a draw made in this state covers with
    /// `fragment`. Where the stencil test fails the pixel stays as it is.
    /// Where it passes, the channels that the colour mask lets through are
    /// replaced, and the stencil byte is updated.
    #[verifier::when_used_as_spec(spec_shade)]
    pub fn shade(self, pixel: Pixel, fragment: Color) -> (shaded: Pixel)
        ensures
            shaded == self.spec_shade(pixel, fragment),
    {
        if self.stencil.passes(pixel.stencil) {
            Pixel {
                color: self.color_mask.select(pixel.color, fragment),
                stencil: self.stencil.stored_after(pixel.stencil),
            }
        } else {
            pixel
        }
    }
}

/// What a draw takes its pixels from.
#[derive(Clone, Debug, PartialEq, Eq)]
pub enum Source {
    /// The part `region` of a texture.
    Texture { texture: u32, region: Rectangle },
    /// A mesh.
    Mesh { mesh: u32 },
    /// A piece of text in a font.
    Text { font: u32, content: String },
    /// Parts of a texture, each stretched to a rectangle of its own.
    Patches { texture: u32, patches: Vec<Patch> },
}

/// A value that a shader program is given under a name.
#[derive(Clone, Debug, PartialEq, Eq)]
pub enum Uniform {
    Int(i32),
    Vec2(Vec2),
    Color(Color),
    /// One offset for each instance of an instanced draw.
    Offsets(Vec<Vec2>),
}

/// One draw as it was submitted.
#[derive(Clone, Debug, PartialEq, Eq)]
pub struct DrawCall {
    /// The render state at the time of the draw.
    pub state: GraphicsState,
    pub source: Source,
    pub params: DrawParams,
    /// How many copies are drawn: 1, but for an instanced draw.
    pub instances: usize,
}

/// One submission to the device.
#[derive(Clone, Debug, PartialEq, Eq)]
pub enum Command {
    /// Fill the colour buffer of `target`.
    Clear { target: RenderTarget, color: Color },
    /// Fill the stencil buffer of `target`.
    ClearStencil { target: RenderTarget, value: u8 },
    Draw(DrawCall),
    /// Give the shader `shader` the value `value` under the name `name`.
    SetUniform { shader: u32, name: String, value: Uniform },
}

/// The graphics side of a context.
#[derive(Debug)]
pub struct Graphics {
    /// The current render state.
    pub state: GraphicsState,
    /// Whether a stencil buffer was provided when the context was built.
    pub stencil_buffer: bool,
    /// The most instances that one instanced draw may ask for.
    pub instance_capacity: usize,
    /// What was submitted since the commands were last taken.
    pub commands: Vec<Command>,
}

impl Graphics {
    pub fn new(stencil_buffer: bool, instance_capacity: usize) -> (graphics: Graphics)
        ensures
            graphics.state == GraphicsState::spec_initial(),
            graphics.stencil_buffer == stencil_buffer,
            graphics.instance_capacity == instance_capacity,
            graphics.commands@ == Seq::<Command>::empty(),
    {
        Graphics {
            state: GraphicsState::initial(),
            stencil_buffer,
            instance_capacity,
            commands: Vec::new(),
        }
    }
}

impl TetraContext {
    /// The context with another render state and nothing else changed.
    pub open spec fn with_state(self, state: GraphicsState) -> TetraContext {
        TetraContext { graphics: Graphics { state, ..self.graphics }, ..self }
    }

    /// Whether `after` is this context with `command` recorded and nothing
    /// else changed.
    pub open spec fn records(self, after: TetraContext, command: Command) -> bool {
        &&& after.graphics.commands@ == self.graphics.commands@.push(command)
        &&& after == (TetraContext {
            graphics: Graphics { commands: after.graphics.commands, ..self.graphics },
            ..self
        })
    }

    /// The draw of `source` as this context would submit it.
    pub open spec fn draw_call(self, source: Source, params: DrawParams, instances: usize) -> DrawCall {
        DrawCall { state: self.graphics.state, source, params, instances }
    }
}

/// Fills the colour buffer of the current target with `color`.
pub fn clear(ctx: &mut TetraContext, color: Color)
    ensures
        old(ctx).records(
            *final(ctx),
            Command::Clear { target: old(ctx).graphics.state.target, color },
        ),
{
    let target = ctx.graphics.state.target;
    ctx.graphics.commands.push(Command::Clear { target, color });
}

/// Fills the stencil buffer of the current target with `value`. Fails, and
/// submits nothing, where the context was built without a stencil buffer.
pub fn clear_stencil(ctx: &mut TetraContext, value: u8) -> (r: Result<(), TetraError>)
    ensures
        old(ctx).graphics.stencil_buffer ==> r is Ok && old(ctx).records(
            *final(ctx),
            Command::ClearStencil { target: old(ctx).graphics.state.target, value },
        ),
        !old(ctx).graphics.stencil_buffer ==> r == Err::<(), TetraError>(TetraError::StencilUnavailable)
            && *final(ctx) == *old(ctx),
{
    if !ctx.graphics.stencil_buffer {
        return Err(TetraError::StencilUnavailable);
    }
    let target = ctx.graphics.state.target;
    ctx.graphics.commands.push(Command::ClearStencil { target, value });
    Ok(())
}

/// Makes `state` the stencil configuration of every draw from now on. Fails,
/// and changes nothing, where the context was built without a stencil buffer.
pub fn set_stencil_state(ctx: &mut TetraContext, state: StencilState) -> (r: Result<(), TetraError>)
    ensures
        old(ctx).graphics.stencil_buffer ==> r is Ok && *final(ctx) == old(ctx).with_state(
            GraphicsState { stencil: state, ..old(ctx).graphics.state },
        ),
        !old(ctx).graphics.stencil_buffer ==> r == Err::<(), TetraError>(TetraError::StencilUnavailable)
            && *final(ctx) == *old(ctx),
{
    if !ctx.graphics.stencil_buffer {
        return Err(TetraError::StencilUnavailable);
    }
    ctx.graphics.state.stencil = state;
    Ok(())
}

/// Chooses the channels that draws write from now on.
pub fn set_color_mask(ctx: &mut TetraContext, red: bool, green: bool, blue: bool, alpha: bool)
    ensures
        *final(ctx) == old(ctx).with_state(
            GraphicsState { color_mask: ColorMask { red, green, blue, alpha }, ..old(ctx).graphics.state },
        ),
{
    ctx.graphics.state.color_mask = ColorMask { red, green, blue, alpha };
}

/// Sends the draws that follow to `canvas`.
pub fn set_canvas(ctx: &mut TetraContext, canvas: &Canvas)
    ensures
        *final(ctx) == old(ctx).with_state(old(ctx).graphics.state.canvas_set(*canvas)),
{
    ctx.graphics.state.target = RenderTarget::Canvas(canvas.id);
}

/// Sends the draws that follow to the screen.
pub fn reset_canvas(ctx: &mut TetraContext)
    ensures
        *final(ctx) == old(ctx).with_state(old(ctx).graphics.state.canvas_reset()),
{
    ctx.graphics.state.target = RenderTarget::Screen;
}

/// Runs the draws that follow with `shader`.
pub fn set_shader(ctx: &mut TetraContext, shader: &Shader)
    ensures
        *final(ctx) == old(ctx).with_state(old(ctx).graphics.state.shader_set(*shader)),
{
    ctx.graphics.state.shader = ActiveShader::Custom(shader.id);
}

/// Runs the draws that follow with the built-in shader.
pub fn reset_shader(ctx: &mut TetraContext)
    ensures
        *final(ctx) == old(ctx).with_state(old(ctx).graphics.state.shader_reset()),
{
    ctx.graphics.state.shader = ActiveShader::Default;
}

/// The current render state.
pub fn get_state(ctx: &TetraContext) -> (state: GraphicsState)
    ensures
        state == ctx.graphics.state,
{
    ctx.graphics.state
}

/// Submits one draw of `source`, in the current render state.
pub fn draw(ctx: &mut TetraContext, source: Source, params: DrawParams)
    ensures
        old(ctx).records(*final(ctx), Command::Draw(old(ctx).draw_call(source, params, 1))),
{
    let state = ctx.graphics.state;
    ctx.graphics.commands.push(Command::Draw(DrawCall { state, source, params, instances: 1 }));
}

/// Submits one draw of `count` copies of `source`, in the current render
/// state. Where `count` is more than the context's instance capacity nothing
/// is submitted and the draw fails.
pub fn draw_instanced(ctx: &mut TetraContext, source: Source, count: usize, params: DrawParams) -> (r: Result<
    (),
    TetraError,
>)
    ensures
        count <= old(ctx).graphics.instance_capacity ==> r is Ok && old(ctx).records(
            *final(ctx),
            Command::Draw(old(ctx).draw_call(source, params, count)),
        ),
        count > old(ctx).graphics.instance_capacity ==> r == Err::<(), TetraError>(
            TetraError::InstanceLimitExceeded {
                requested: count,
                capacity: old(ctx).graphics.instance_capacity,
            },
        ) && *final(ctx) == *old(ctx),
{
    let capacity: usize = ctx.graphics.instance_capacity;
    if count > capacity {
        return Err(TetraError::InstanceLimitExceeded { requested: count, capacity });
    }
    let state = ctx.graphics.state;
    ctx.graphics.commands.push(Command::Draw(DrawCall { state, source, params, instances: count }));
    Ok(())
}

/// Hands over what was submitted since the last call, oldest first, and
/// starts a new list.
pub fn present(ctx: &mut TetraContext) -> (commands: Vec<Command>)
    ensures
        commands@ == old(ctx).graphics.commands@,
        final(ctx).graphics.commands@ == Seq::<Command>::empty(),
        *final(ctx) == (TetraContext {
            graphics: Graphics { commands: final(ctx).graphics.commands, ..old(ctx).graphics },
            ..*old(ctx)
        }),
{
    let mut commands: Vec<Command> = Vec::new();
    core::mem::swap(&mut commands, &mut ctx.graphics.commands);
    commands
}

impl Texture {
    /// The handle of the texture that the device holds under `id`.
    pub fn from_device(id: u32, width: i32, height: i32) -> (texture: Texture)
        ensures
            texture == (Texture { id, width, height }),
    {
        Texture { id, width, height }
    }

    /// The handle of the texture in the file at `path`, given what came of
    /// decoding it: the handle, or the reason why there is none.
    pub fn new(path: &str, decoded: Result<Texture, String>) -> (r: Result<Texture, TetraError>)
        ensures
            match decoded {
                Ok(texture) => r == Ok::<Texture, TetraError>(texture),
                Err(reason) => r matches Err(TetraError::AssetLoadError { path: p, reason: why }) && p@
                    == path@ && why == reason,
            },
    {
        match decoded {
            Ok(texture) => Ok(texture),
            Err(reason) => Err(TetraError::AssetLoadError { path: path.to_owned(), reason }),
        }
    }

    pub fn width(&self) -> (width: i32)
        ensures
            width == self.width,
    {
        self.width
    }

    pub fn height(&self) -> (height: i32)
        ensures
            height == self.height,
    {
        self.height
    }

    /// The rectangle that covers the whole texture.
    pub open spec fn spec_bounds(self) -> Rectangle {
        Rectangle { x: 0, y: 0, width: self.width, height: self.height }
    }

    /// Submits a draw of the whole texture.
    pub fn draw(&self, ctx: &mut TetraContext, params: DrawParams)
        ensures
            old(ctx).records(
                *final(ctx),
                Command::Draw(
                    old(ctx).draw_call(
                        Source::Texture { texture: self.id, region: self.spec_bounds() },
                        params,
                        1,
                    ),
                ),
            ),
    {
        let region = Rectangle { x: 0, y: 0, width: self.width, height: self.height };
        draw(ctx, Source::Texture { texture: self.id, region }, params);
    }

    /// Submits a draw of the part `region` of the texture.
    pub fn draw_region(&self, ctx: &mut TetraContext, region: Rectangle, params: DrawParams)
        ensures
            old(ctx).records(
                *final(ctx),
                Command::Draw(old(ctx).draw_call(Source::Texture { texture: self.id, region }, params, 1)),
            ),
    {
        draw(ctx, Source::Texture { texture: self.id, region }, params);
    }

    /// Submits a draw of the texture as a panel of `width` by `height`
    /// pixels: the nine patches that `config` lays out for that size.
    pub fn draw_nine_slice(
        &self,
        ctx: &mut TetraContext,
        config: &NineSlice,
        width: i32,
        height: i32,
        params: DrawParams,
    )
        ensures
            exists|patches: Vec<Patch>|
                {
                    &&& patches@ == config.spec_layout(width, height)
                    &&& old(ctx).records(
                        *final(ctx),
                        Command::Draw(
                            old(ctx).draw_call(Source::Patches { texture: self.id, patches }, params, 1),
                        ),
                    )
                },
    {
        let patches = config.layout(width, height);
        draw(ctx, Source::Patches { texture: self.id, patches }, params);
    }
}

impl Canvas {
    /// The handle of the canvas that the device holds under `id`, backed by
    /// `texture`.
    pub fn from_device(id: u32, texture: Texture) -> (canvas: Canvas)
        ensures
            canvas == (Canvas { id, texture }),
    {
        Canvas { id, texture }
    }

    /// The texture that draws to this canvas end up in.
    pub fn texture(&self) -> (texture: Texture)
        ensures
            texture == self.texture,
    {
        self.texture
    }

    /// Submits a draw of what the canvas holds.
    pub fn draw(&self, ctx: &mut TetraContext, params: DrawParams)
        ensures
            old(ctx).records(
                *final(ctx),
                Command::Draw(
                    old(ctx).draw_call(
                        Source::Texture { texture: self.texture.id, region: self.texture.spec_bounds() },
                        params,
                        1,
                    ),
                ),
            ),
    {
        self.texture.draw(ctx, params);
    }
}

impl Shader {
    /// The handle of the shader that the device holds under `id`.
    pub fn from_device(id: u32) -> (shader: Shader)
        ensures
            shader == (Shader { id }),
    {
        Shader { id }
    }

    /// The handle of the shader whose fragment stage is in the file at
    /// `path`, given what came of reading and compiling it.
    pub fn from_fragment_file(path: &str, compiled: Result<Shader, ShaderFailure>) -> (r: Result<
        Shader,
        TetraError,
    >)
        ensures
            shader_outcome(path@, compiled, r),
    {
        Shader::from_file(path, compiled)
    }

    /// The handle of the shader whose vertex stage is in the file at `path`,
    /// given what came of reading and compiling it.
    pub fn from_vertex_file(path: &str, compiled: Result<Shader, ShaderFailure>) -> (r: Result<
        Shader,
        TetraError,
    >)
        ensures
            shader_outcome(path@, compiled, r),
    {
        Shader::from_file(path, compiled)
    }

    fn from_file(path: &str, compiled: Result<Shader, ShaderFailure>) -> (r: Result<Shader, TetraError>)
        ensures
            shader_outcome(path@, compiled, r),
    {
        match compiled {
            Ok(shader) => Ok(shader),
            Err(ShaderFailure::Unreadable(reason)) => Err(
                TetraError::AssetLoadError { path: path.to_owned(), reason },
            ),
            Err(ShaderFailure::Rejected(reason)) => Err(TetraError::ShaderCompileError(reason)),
        }
    }

    /// Submits a new value for the uniform `name` of this shader. It holds
    /// for the draws that are submitted after it.
    pub fn set_uniform(&self, ctx: &mut TetraContext, name: &str, value: Uniform)
        ensures
            exists|recorded: String|
                {
                    &&& recorded@ == name@
                    &&& old(ctx).records(
                        *final(ctx),
                        Command::SetUniform { shader: self.id, name: recorded, value },
                    )
                },
    {
        let recorded = name.to_owned();
        let ghost witness = recorded;
        ctx.graphics.commands.push(Command::SetUniform { shader: self.id, name: recorded, value });
        assert(old(ctx).records(*ctx, Command::SetUniform { shader: self.id, name: witness, value }));
    }
}

impl Mesh {
    /// The handle of the mesh that the device holds under `id`.
    pub fn from_device(id: u32) -> (mesh: Mesh)
        ensures
            mesh == (Mesh { id }),
    {
        Mesh { id }
    }

    /// Submits a draw of the mesh.
    pub fn draw(&self, ctx: &mut TetraContext, params: DrawParams)
        ensures
            old(ctx).records(
                *final(ctx),
                Command::Draw(old(ctx).draw_call(Source::Mesh { mesh: self.id }, params, 1)),
            ),
    {
        draw(ctx, Source::Mesh { mesh: self.id }, params);
    }

    /// Submits a draw of `count` copies of the mesh. Where `count` is more
    /// than the context's instance capacity nothing is submitted and the
    /// draw fails.
    pub fn draw_instanced(&self, ctx: &mut TetraContext, count: usize, params: DrawParams) -> (r: Result<
        (),
        TetraError,
    >)
        ensures
            count <= old(ctx).graphics.instance_capacity ==> r is Ok && old(ctx).records(
                *final(ctx),
                Command::Draw(old(ctx).draw_call(Source::Mesh { mesh: self.id }, params, count)),
            ),
            count > old(ctx).graphics.instance_capacity ==> r == Err::<(), TetraError>(
                TetraError::InstanceLimitExceeded {
                    requested: count,
                    capacity: old(ctx).graphics.instance_capacity,
                },
            ) && *final(ctx) == *old(ctx),
    {
        draw_instanced(ctx, Source::Mesh { mesh: self.id }, count, params)
    }
}

impl Font {
    /// The handle of the font that the device holds under `id`.
    pub fn from_device(id: u32) -> (font: Font)
        ensures
            font == (Font { id }),
    {
        Font { id }
    }

    /// The handle of the vector font in the file at `path`, given what came
    /// of loading it.
    pub fn vector(path: &str, loaded: Result<Font, String>) -> (r: Result<Font, TetraError>)
        ensures
            match loaded {
                Ok(font) => r == Ok::<Font, TetraError>(font),
                Err(reason) => r matches Err(TetraError::AssetLoadError { path: p, reason: why }) && p@
                    == path@ && why == reason,
            },
    {
        match loaded {
            Ok(font) => Ok(font),
            Err(reason) => Err(TetraError::AssetLoadError { path: path.to_owned(), reason }),
        }
    }

    /// The handle of the bitmap font in the file at `path`, given what came
    /// of loading it.
    pub fn bmfont(path: &str, loaded: Result<Font, String>) -> (r: Result<Font, TetraError>)
        ensures
            match loaded {
                Ok(font) => r == Ok::<Font, TetraError>(font),
                Err(reason) => r matches Err(TetraError::AssetLoadError { path: p, reason: why }) && p@
                    == path@ && why == reason,
            },
    {
        match loaded {
            Ok(font) => Ok(font),
            Err(reason) => Err(TetraError::AssetLoadError { path: path.to_owned(), reason }),
        }
    }
}

impl Text {
    pub fn new(content: &str, font: Font) -> (text: Text)
        ensures
            text.content@ == content@,
            text.font == font,
    {
        Text { content: content.to_owned(), font }
    }

    pub fn content(&self) -> (content: &str)
        ensures
            content@ == self.content@,
    {
        self.content.as_str()
    }

    pub fn set_content(&mut self, content: &str)
        ensures
            final(self).content@ == content@,
            final(self).font == old(self).font,
    {
        self.content = content.to_owned();
    }

    /// Submits a draw of the text.
    pub fn draw(&self, ctx: &mut TetraContext, params: DrawParams)
        ensures
            old(ctx).records(
                *final(ctx),
                Command::Draw(
                    old(ctx).draw_call(Source::Text { font: self.font.id, content: self.content }, params, 1),
                ),
            ),
    {
        draw(ctx, Source::Text { font: self.font.id, content: self.content.clone() }, params);
    }
}

/// Switching to a canvas and back leaves a state that drew to the screen as
/// it was.
pub proof fn lemma_reset_canvas_undoes_set_canvas(state: GraphicsState, canvas: Canvas)
    requires
        state.target == RenderTarget::Screen,
    ensures
        state.canvas_set(canvas).canvas_reset() == state,
{
}

/// Whatever the target was, after `reset_canvas` it is the screen, and the
/// other three axes are as they were before `set_canvas`.
pub proof fn lemma_reset_canvas_targets_screen(state: GraphicsState, canvas: Canvas)
    ensures
        state.canvas_set(canvas).canvas_reset() == (GraphicsState { target: RenderTarget::Screen, ..state }),
{
}

/// Overriding the shader and resetting it leaves a state that ran the
/// built-in shader as it was.
pub proof fn lemma_reset_shader_undoes_set_shader(state: GraphicsState, shader: Shader)
    requires
        state.shader == ActiveShader::Default,
    ensures
        state.shader_set(shader).shader_reset() == state,
{
}

/// A stencil pass masks what is drawn after it.
///
/// Take a pixel whose stencil byte is `cleared`. A first draw, made with the
/// colour mask off and the stencil state `Write { Replace, reference }`,
/// covers the pixel or does not. A second draw, made with the colour mask on
/// and the stencil state `Read { EqualTo, reference }`, covers it. Then the
/// first draw leaves the pixel's colour alone, and the pixel takes the colour
/// of the second draw if the first draw covered it, and keeps its own if not.
pub proof fn lemma_stencil_masks_later_draws(
    state: GraphicsState,
    pixel: Pixel,
    covered: bool,
    reference: u8,
    first: Color,
    second: Color,
)
    requires
        pixel.stencil != reference,
    ensures
        ({
            let writing = GraphicsState {
                stencil: StencilState::Write { action: stencil::StencilAction::Replace, reference },
                color_mask: ColorMask { red: false, green: false, blue: false, alpha: false },
                ..state
            };
            let reading = GraphicsState {
                stencil: StencilState::Read { test: stencil::StencilTest::EqualTo, reference },
                color_mask: ColorMask { red: true, green: true, blue: true, alpha: true },
                ..state
            };
            let marked = if covered {
                writing.spec_shade(pixel, first)
            } else {
                pixel
            };
            &&& marked.color == pixel.color
            &&& reading.spec_shade(marked, second).color == if covered {
                second
            } else {
                pixel.color
            }
        }),
{
}

} // verus!
