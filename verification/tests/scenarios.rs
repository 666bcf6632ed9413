use tetra::context::{TetraContext, ContextBuilder, Platform};
use tetra::error::TetraError;
use tetra::graphics;
use tetra::graphics::animation::Animation;
use tetra::graphics::params::DrawParams;
use tetra::graphics::stencil::{StencilAction, StencilState, StencilTest};
use tetra::graphics::{
    ActiveShader, Canvas, Color, ColorMask, Command, Font, GraphicsState, Mesh, Pixel, RenderTarget, Shader,
    Source, Text, Texture, Uniform,
};
use tetra::math::{Rectangle, Vec2, FIXED_ONE};
use tetra::runtime::{run_frame, State};

const WIDTH: i32 = 40;
const HEIGHT: i32 = 30;
const CIRCLE: u32 = 1;
const RECTANGLE: u32 = 2;

fn context(stencil_buffer: bool) -> TetraContext {
    let platform = Platform {
        physical_width: WIDTH,
        physical_height: HEIGHT,
        instance_capacity: 256,
        monitors: Err(String::from("not asked")),
        current_monitor: Err(String::from("not asked")),
    };
    ContextBuilder::new("Stencils", WIDTH, HEIGHT).stencil_buffer(stencil_buffer).build(Ok(platform)).unwrap()
}

fn in_circle(x: i32, y: i32) -> bool {
    (x - 20) * (x - 20) + (y - 15) * (y - 15) <= 100
}

/// Whether the mesh with the given id covers the pixel.
fn covers(mesh: u32, x: i32, y: i32) -> bool {
    match mesh {
        CIRCLE => in_circle(x, y),
        RECTANGLE => true,
        _ => false,
    }
}

/// Replays commands on a screen of pixels; meshes are drawn in white.
fn rasterize(commands: &[Command]) -> Vec<Vec<Pixel>> {
    let blank = Pixel { color: Color::rgba(0, 0, 0, 0), stencil: 0 };
    let mut screen = vec![vec![blank; WIDTH as usize]; HEIGHT as usize];
    for command in commands {
        for y in 0..HEIGHT {
            for x in 0..WIDTH {
                let pixel = &mut screen[y as usize][x as usize];
                match command {
                    Command::Clear { target: RenderTarget::Screen, color } => pixel.color = *color,
                    Command::ClearStencil { target: RenderTarget::Screen, value } => pixel.stencil = *value,
                    Command::Draw(call) => {
                        if let Source::Mesh { mesh } = call.source {
                            if call.state.target == RenderTarget::Screen && covers(mesh, x, y) {
                                *pixel = call.state.shade(*pixel, Color::white());
                            }
                        }
                    },
                    _ => {},
                }
            }
        }
    }
    screen
}

struct StencilGame {
    circle: Mesh,
    rectangle: Mesh,
}

impl State for StencilGame {
    fn draw(&mut self, ctx: &mut TetraContext) -> Result<(), TetraError> {
        graphics::clear(ctx, Color::black());
        graphics::set_stencil_state(ctx, StencilState::write(StencilAction::Replace, 1))?;
        graphics::set_color_mask(ctx, false, false, false, false);
        graphics::clear_stencil(ctx, 0)?;
        self.circle.draw(ctx, DrawParams::new());
        graphics::set_stencil_state(ctx, StencilState::read(StencilTest::EqualTo, 1))?;
        graphics::set_color_mask(ctx, true, true, true, true);
        self.rectangle.draw(ctx, DrawParams::new());
        graphics::set_stencil_state(ctx, StencilState::disabled())?;
        Ok(())
    }
}

#[test]
fn a_stencilled_rectangle_shows_in_the_footprint_of_the_circle() {
    let mut ctx = context(true);
    let mut game = StencilGame { circle: Mesh::from_device(CIRCLE), rectangle: Mesh::from_device(RECTANGLE) };
    run_frame(&mut ctx, &mut game, &vec![], 0).unwrap();
    let commands = graphics::present(&mut ctx);

    // What was submitted, and in which state.
    assert_eq!(commands.len(), 4);
    assert_eq!(commands[0], Command::Clear { target: RenderTarget::Screen, color: Color::black() });
    assert_eq!(commands[1], Command::ClearStencil { target: RenderTarget::Screen, value: 0 });
    let none = ColorMask { red: false, green: false, blue: false, alpha: false };
    let all = ColorMask { red: true, green: true, blue: true, alpha: true };
    match (&commands[2], &commands[3]) {
        (Command::Draw(first), Command::Draw(second)) => {
            assert_eq!(first.source, Source::Mesh { mesh: CIRCLE });
            assert_eq!(
                first.state,
                GraphicsState {
                    stencil: StencilState::Write { action: StencilAction::Replace, reference: 1 },
                    color_mask: none,
                    ..GraphicsState::initial()
                }
            );
            assert_eq!(second.source, Source::Mesh { mesh: RECTANGLE });
            assert_eq!(
                second.state,
                GraphicsState {
                    stencil: StencilState::Read { test: StencilTest::EqualTo, reference: 1 },
                    color_mask: all,
                    ..GraphicsState::initial()
                }
            );
        },
        _ => panic!("two draws were expected"),
    }
    assert_eq!(graphics::get_state(&ctx), GraphicsState::initial());

    // What it comes to on the screen.
    let screen = rasterize(&commands);
    let mut inside = 0;
    for y in 0..HEIGHT {
        for x in 0..WIDTH {
            let pixel = screen[y as usize][x as usize];
            if in_circle(x, y) {
                inside += 1;
                assert_eq!(pixel, Pixel { color: Color::white(), stencil: 1 });
            } else {
                assert_eq!(pixel, Pixel { color: Color::black(), stencil: 0 });
            }
        }
    }
    assert!(inside > 0 && inside < WIDTH * HEIGHT);
}

#[test]
fn without_the_stencil_the_rectangle_fills_the_screen() {
    let mut ctx = context(true);
    graphics::clear(&mut ctx, Color::black());
    Mesh::from_device(CIRCLE).draw(&mut ctx, DrawParams::new());
    Mesh::from_device(RECTANGLE).draw(&mut ctx, DrawParams::new());
    let screen = rasterize(&graphics::present(&mut ctx));
    for row in screen {
        for pixel in row {
            assert_eq!(pixel.color, Color::white());
        }
    }
}

#[test]
fn the_stencil_game_fails_without_a_stencil_buffer() {
    let mut ctx = context(false);
    let mut game = StencilGame { circle: Mesh::from_device(CIRCLE), rectangle: Mesh::from_device(RECTANGLE) };
    assert_eq!(run_frame(&mut ctx, &mut game, &vec![], 0), Err(TetraError::StencilUnavailable));
    // Only the clear had been submitted.
    assert_eq!(ctx.graphics.commands.len(), 1);
    assert_eq!(graphics::get_state(&ctx), GraphicsState::initial());
}

struct CanvasGame {
    canvas: Canvas,
    texture: Texture,
    shader: Shader,
    text: Text,
}

impl State for CanvasGame {
    fn update(&mut self, _ctx: &mut TetraContext) -> Result<(), TetraError> {
        self.text.set_content("Red: 0.50");
        Ok(())
    }

    fn draw(&mut self, ctx: &mut TetraContext) -> Result<(), TetraError> {
        graphics::set_canvas(ctx, &self.canvas);
        graphics::clear(ctx, Color::rgb(100, 149, 237));
        self.texture.draw(ctx, DrawParams::new().position(Vec2::new(640, 360)).origin(Vec2::new(8, 8)));
        graphics::reset_canvas(ctx);
        graphics::set_shader(ctx, &self.shader);
        self.canvas.draw(ctx, DrawParams::new());
        graphics::reset_shader(ctx);
        self.text.draw(ctx, DrawParams::new().position(Vec2::new(16, 16)));
        Ok(())
    }
}

#[test]
fn a_canvas_is_drawn_to_and_then_drawn_with_a_shader() {
    let mut ctx = context(false);
    let mut game = CanvasGame {
        canvas: Canvas::from_device(1, Texture::from_device(10, 1280, 720)),
        texture: Texture::from_device(11, 16, 16),
        shader: Shader::from_device(3),
        text: Text::new("", Font::from_device(4)),
    };
    // Two seconds at 60 updates a second and a catch-up limit of 8.
    let report = run_frame(&mut ctx, &mut game, &vec![], 2_000_000_000).unwrap();
    assert_eq!(report.updates, 8);
    let commands = graphics::present(&mut ctx);
    let targets_and_shaders: Vec<(RenderTarget, ActiveShader)> = commands
        .iter()
        .map(|command| match command {
            Command::Clear { target, .. } => (*target, ActiveShader::Default),
            Command::ClearStencil { target, .. } => (*target, ActiveShader::Default),
            Command::Draw(call) => (call.state.target, call.state.shader),
            Command::SetUniform { shader, .. } => (RenderTarget::Screen, ActiveShader::Custom(*shader)),
        })
        .collect();
    assert_eq!(
        targets_and_shaders,
        vec![
            (RenderTarget::Canvas(1), ActiveShader::Default),
            (RenderTarget::Canvas(1), ActiveShader::Default),
            (RenderTarget::Screen, ActiveShader::Custom(3)),
            (RenderTarget::Screen, ActiveShader::Default),
        ]
    );
    match &commands[3] {
        Command::Draw(call) => {
            assert_eq!(call.source, Source::Text { font: 4, content: String::from("Red: 0.50") })
        },
        _ => panic!("a draw was expected"),
    }
    assert_eq!(graphics::get_state(&ctx), GraphicsState::initial());
}

struct InstancedGame {
    mesh: Mesh,
    shader: Shader,
    instances: usize,
}

impl State for InstancedGame {
    fn draw(&mut self, ctx: &mut TetraContext) -> Result<(), TetraError> {
        graphics::clear(ctx, Color::rgb(24, 28, 41));
        let mut offsets = Vec::new();
        for y in 0..16 {
            for x in 0..16 {
                offsets.push(Vec2::new(x * 32, y * 32));
            }
        }
        self.shader.set_uniform(ctx, "u_offsets", Uniform::Offsets(offsets));
        graphics::set_shader(ctx, &self.shader);
        self.mesh.draw_instanced(ctx, self.instances, DrawParams::new().position(Vec2::new(16, 16)))
    }
}

#[test]
fn a_mesh_is_drawn_in_as_many_instances_as_the_device_takes() {
    let mut ctx = context(false);
    let mut game = InstancedGame { mesh: Mesh::from_device(1), shader: Shader::from_device(2), instances: 256 };
    run_frame(&mut ctx, &mut game, &vec![], 0).unwrap();
    let commands = graphics::present(&mut ctx);
    assert_eq!(commands.len(), 3);
    match &commands[1] {
        Command::SetUniform { shader: 2, name, value: Uniform::Offsets(offsets) } => {
            assert_eq!(name, "u_offsets");
            assert_eq!(offsets.len(), 256);
            assert_eq!(offsets[17], Vec2::new(32, 32));
        },
        other => panic!("a uniform was expected, not {:?}", other),
    }
    match &commands[2] {
        Command::Draw(call) => {
            assert_eq!(call.instances, 256);
            assert_eq!(call.state.shader, ActiveShader::Custom(2));
        },
        other => panic!("a draw was expected, not {:?}", other),
    }

    game.instances = 257;
    assert_eq!(
        run_frame(&mut ctx, &mut game, &vec![], 0),
        Err(TetraError::InstanceLimitExceeded { requested: 257, capacity: 256 })
    );
    // The clear and the uniform were submitted; the draw was not.
    assert_eq!(ctx.graphics.commands.len(), 2);
}

struct AnimationGame {
    animation: Animation,
}

impl State for AnimationGame {
    fn draw(&mut self, ctx: &mut TetraContext) -> Result<(), TetraError> {
        self.animation.advance(ctx.clock.delta_ns());
        graphics::clear(ctx, Color::rgb(24, 28, 41));
        let params = DrawParams::new()
            .position(Vec2::new(240, 160))
            .origin(Vec2::new(8, 8))
            .scale(Vec2::broadcast(2 * FIXED_ONE));
        self.animation.draw(ctx, params);
        Ok(())
    }
}

#[test]
fn an_animation_follows_the_real_time_of_the_frames() {
    let mut ctx = context(false);
    let frames = Rectangle::row(0, 272, 16, 16, 8);
    let animation = Animation::new(Texture::from_device(1, 256, 512), frames, 100_000_000).unwrap();
    let mut game = AnimationGame { animation };
    let mut shown = Vec::new();
    // Frames of a tenth of a second each, eight tenths in all.
    for _ in 0..8 {
        run_frame(&mut ctx, &mut game, &vec![], 100_000_000).unwrap();
        for command in graphics::present(&mut ctx) {
            if let Command::Draw(call) = command {
                if let Source::Texture { region, .. } = call.source {
                    shown.push(region.x / 16);
                }
            }
        }
    }
    assert_eq!(shown, vec![1, 2, 3, 4, 5, 6, 7, 0]);
    assert_eq!(game.animation.current_frame_index(), 0);
}
