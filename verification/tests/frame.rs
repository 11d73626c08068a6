use glframe::events::{process_events, InputEvent, KeyAction, LoopState, KEY_ESCAPE};
use glframe::frame::{Command, Renderer, RendererError, Transforms};
use glframe::layout::VertexLayout;
use glframe::mesh::{DrawCall, Mesh};
use glframe::motion::{rotation, Rotation};
use glframe::shader::{CompiledProgram, DriverReply, ProgramBuilder, STATUS_TRUE};
use glframe::source::ShaderSource;
use glframe::uniform::{UniformBinding, UniformError, UniformLocation};

fn program(id: u32) -> CompiledProgram {
    let source = ShaderSource::new("v".to_string(), "f".to_string()).unwrap();
    let mut builder = ProgramBuilder::new(source);
    builder.advance(DriverReply::Compiled { shader: 1, status: STATUS_TRUE }).unwrap();
    builder.advance(DriverReply::Compiled { shader: 2, status: STATUS_TRUE }).unwrap();
    builder.advance(DriverReply::Linked { program: id, status: STATUS_TRUE }).unwrap();
    builder.advance(DriverReply::Released).unwrap();
    builder.finish().unwrap()
}

fn binding(program: &CompiledProgram) -> UniformBinding {
    let mut binding = UniformBinding::new(program);
    for (name, index) in
        [("model", 4), ("view", 5), ("projection", 6), ("our_texture1", 0), ("our_texture2", 1)]
    {
        binding.resolve(name.to_string(), index).unwrap();
    }
    binding
}

fn location(binding: &UniformBinding, name: &str) -> UniformLocation {
    binding.location(name).unwrap()
}

fn cube() -> Mesh {
    Mesh::new(VertexLayout::packed(&[3, 2]).unwrap(), vec![0; 36 * 5], None).unwrap()
}

fn cubes(objects: u32) -> Renderer {
    let program = program(3);
    let b = binding(&program);
    let transforms = Transforms {
        objects,
        model: location(&b, "model"),
        view: location(&b, "view"),
        projection: location(&b, "projection"),
    };
    let samplers = vec![location(&b, "our_texture1"), location(&b, "our_texture2")];
    Renderer::new(program, &cube(), true, samplers, Some(transforms)).unwrap()
}

#[test]
fn uniform_binding_keeps_each_name_once() {
    let program = program(9);
    let mut b = UniformBinding::new(&program);
    assert_eq!(b.program(), 9);
    assert!(b.location("model").is_none());
    assert_eq!(b.resolve("model".to_string(), 2), Ok(()));
    assert_eq!(b.resolve("model".to_string(), 3), Err(UniformError::AlreadyResolved));
    assert_eq!(b.resolve("view".to_string(), -1), Err(UniformError::Inactive));
    assert_eq!(b.resolve("model".to_string(), -1), Err(UniformError::Inactive));
    assert_eq!(b.resolve("view".to_string(), 0), Ok(()));
    let model = b.location("model").unwrap();
    assert_eq!((model.program(), model.index()), (9, 2));
    let view = b.location("view").unwrap();
    assert_eq!((view.program(), view.index()), (9, 0));
    assert!(b.location("projection").is_none());
    assert!(b.location("mode").is_none());
}

#[test]
fn frame_of_two_cubes_with_two_textures() {
    let renderer = cubes(2);
    assert_eq!(renderer.program().id(), 3);
    assert_eq!(renderer.texture_count(), 2);
    assert_eq!(renderer.draw_count(), 2);
    let draw = Command::Draw { call: DrawCall::Arrays { count: 36 } };
    assert_eq!(
        renderer.frame(LoopState::Running),
        vec![
            Command::Clear { depth: true },
            Command::UseProgram { program: 3 },
            Command::BindTexture { unit: 0 },
            Command::SetSampler { location: 0, unit: 0 },
            Command::BindTexture { unit: 1 },
            Command::SetSampler { location: 1, unit: 1 },
            Command::SetProjection { location: 6 },
            Command::SetView { location: 5 },
            Command::BindVertexArray,
            Command::SetModel {
                location: 4,
                object: 0,
                rotation: Rotation::Spinning { degrees_per_second: 30 },
            },
            draw,
            Command::SetModel { location: 4, object: 1, rotation: Rotation::Fixed { degrees: 20 } },
            draw,
            Command::UnbindVertexArray,
            Command::Present,
            Command::PollEvents,
        ]
    );
}

#[test]
fn frame_of_ten_cubes_draws_each_once_with_the_pipeline_ready() {
    let frame = cubes(10).frame(LoopState::Running);
    let mut active = None;
    let mut bound = false;
    let mut draws = 0;
    let mut models = Vec::new();
    for command in frame.iter() {
        match *command {
            Command::UseProgram { program } => active = Some(program),
            Command::BindVertexArray => bound = true,
            Command::UnbindVertexArray => bound = false,
            Command::SetModel { object, rotation: r, .. } => {
                assert_eq!(r, rotation(object));
                models.push(object);
            }
            Command::Draw { call } => {
                assert_eq!(call, DrawCall::Arrays { count: 36 });
                assert_eq!(active, Some(3));
                assert!(bound);
                draws += 1;
                assert_eq!(models.len(), draws);
            }
            _ => {}
        }
    }
    assert_eq!(draws, 10);
    assert_eq!(models, (0..10).collect::<Vec<u32>>());
    assert!(!bound);
    assert_eq!(frame.len(), 2 + 4 + 2 + 1 + 20 + 3);
}

#[test]
fn frame_of_a_mesh_alone() {
    let program = program(5);
    let layout = VertexLayout::packed(&[3]).unwrap();
    let quad = Mesh::new(layout, vec![0; 12], Some(vec![0, 1, 3, 1, 2, 3])).unwrap();
    let renderer = Renderer::new(program, &quad, false, Vec::new(), None).unwrap();
    assert_eq!(renderer.draw_count(), 1);
    assert_eq!(renderer.texture_count(), 0);
    assert_eq!(
        renderer.frame(LoopState::Running),
        vec![
            Command::Clear { depth: false },
            Command::UseProgram { program: 5 },
            Command::BindVertexArray,
            Command::Draw { call: DrawCall::Elements { count: 6 } },
            Command::UnbindVertexArray,
            Command::Present,
            Command::PollEvents,
        ]
    );
}

#[test]
fn scene_without_objects_draws_nothing() {
    let frame = cubes(0).frame(LoopState::Running);
    assert!(frame.iter().all(|c| !matches!(c, Command::Draw { .. })));
    assert_eq!(frame.len(), 12);
}

#[test]
fn closing_loop_gets_no_commands() {
    assert_eq!(cubes(10).frame(LoopState::Closing), Vec::new());
}

#[test]
fn exit_key_closes_on_the_next_poll_and_nothing_is_drawn_after() {
    let renderer = cubes(10);
    let mut state = LoopState::Running;
    let polls: Vec<Vec<InputEvent>> = vec![
        vec![],
        vec![InputEvent::Other, InputEvent::Key { code: 65, action: KeyAction::Press }],
        vec![InputEvent::Key { code: KEY_ESCAPE, action: KeyAction::Press }],
        vec![InputEvent::Other],
    ];
    let mut frames_with_draws = 0;
    for events in polls.iter() {
        let frame = renderer.frame(state);
        if frame.iter().any(|c| matches!(c, Command::Draw { .. })) {
            frames_with_draws += 1;
        }
        if !state.is_running() {
            assert!(frame.is_empty());
        }
        state = process_events(state, KEY_ESCAPE, events);
    }
    assert_eq!(state, LoopState::Closing);
    assert_eq!(frames_with_draws, 3);
    assert!(renderer.frame(state).is_empty());
}

#[test]
fn uniform_of_another_program_is_refused() {
    let mine = program(3);
    let other = program(4);
    let b_mine = binding(&mine);
    let b_other = binding(&other);
    let foreign = vec![location(&b_mine, "our_texture1"), location(&b_other, "our_texture2")];
    assert_eq!(
        Renderer::new(mine, &cube(), true, foreign, None).err(),
        Some(RendererError::ForeignUniform)
    );
    let mine = program(3);
    let transforms = Transforms {
        objects: 1,
        model: location(&b_mine, "model"),
        view: location(&b_other, "view"),
        projection: location(&b_mine, "projection"),
    };
    assert_eq!(
        Renderer::new(mine, &cube(), true, Vec::new(), Some(transforms)).err(),
        Some(RendererError::ForeignUniform)
    );
}
