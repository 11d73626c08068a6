//! The commands of one frame.
//!
//! A [`Renderer`] is set up once, from a linked program, a mesh and the
//! locations of the uniforms that it feeds. For each turn of the render loop
//! it gives the commands of the frame, in the order in which the driver is to
//! get them: clear, make the program active, bind the textures, set the
//! camera, bind the vertex array, draw, unbind, present, poll for input. In a
//! scene of several objects each object is drawn by its own draw call, right
//! after its own model transform is set.
//!
//! A loop that is closing gets no commands at all.

use crate::events::LoopState;
use crate::mesh::draw_call_of;
use crate::mesh::DrawCall;
use crate::mesh::Mesh;
use crate::motion::rotation;
use crate::motion::rotation_of;
use crate::motion::Rotation;
use crate::shader::CompiledProgram;
use crate::uniform::UniformLocation;
use vstd::prelude::*;

verus! {

/// One command to the driver or to the window.
#[derive(Clone, Copy, Debug, PartialEq, Eq, Structural)]
pub enum Command {
    /// Clear the color buffer to the scene's clear color and, with `depth`,
    /// the depth buffer too.
    Clear { depth: bool },
    /// Make the program with this handle the active one.
    UseProgram { program: u32 },
    /// Bind the texture of this place in the scene to the texture unit of
    /// the same number.
    BindTexture { unit: u32 },
    /// Set the sampler uniform at `location` to the texture unit `unit`.
    SetSampler { location: i32, unit: u32 },
    /// Set the uniform at `location` to the projection transform.
    SetProjection { location: i32 },
    /// Set the uniform at `location` to the view transform.
    SetView { location: i32 },
    /// Bind the vertex array of the mesh.
    BindVertexArray,
    /// Set the uniform at `location` to the model transform of the object at
    /// `object`: its place in the scene, turned by `rotation`.
    SetModel { location: i32, object: u32, rotation: Rotation },
    /// Issue a draw call.
    Draw { call: DrawCall },
    /// Bind no vertex array.
    UnbindVertexArray,
    /// Show the frame: swap the window's buffers.
    Present,
    /// Take up the input events that are pending.
    PollEvents,
}

/// The uniforms of a scene of several objects, and the number of the objects.
#[derive(Clone, Copy, Debug)]
pub struct Transforms {
    /// The number of objects.
    pub objects: u32,
    /// The uniform of the model transform, set once for each object.
    pub model: UniformLocation,
    /// The uniform of the view transform, set once in a frame.
    pub view: UniformLocation,
    /// The uniform of the projection transform, set once in a frame.
    pub projection: UniformLocation,
}

/// The mathematical value of [`Transforms`]: the number of objects and the
/// index of each uniform.
pub struct TransformsView {
    pub objects: u32,
    pub model: i32,
    pub view: i32,
    pub projection: i32,
}

impl View for Transforms {
    type V = TransformsView;

    open spec fn view(&self) -> TransformsView {
        TransformsView {
            objects: self.objects,
            model: self.model@.index,
            view: self.view@.index,
            projection: self.projection@.index,
        }
    }
}

/// The mathematical value of a [`Renderer`].
pub struct RendererView {
    /// The handle of the program.
    pub program: u32,
    /// The draw call of the mesh.
    pub draw: DrawCall,
    /// Whether the depth buffer is cleared with the color buffer.
    pub depth: bool,
    /// The index of the sampler uniform of each texture, in the order of the
    /// texture units.
    pub samplers: Seq<i32>,
    /// The uniforms of a scene of several objects; `None` for a scene of the
    /// mesh alone.
    pub transforms: Option<TransformsView>,
}

/// Why a renderer cannot be set up.
#[derive(Clone, Copy, Debug, PartialEq, Eq, Structural)]
pub enum RendererError {
    /// There are more textures than a sampler uniform can number.
    TooManyTextures,
    /// A uniform location belongs to another program.
    ForeignUniform,
}

/// The indices of a list of locations.
pub open spec fn indices_of(locations: Seq<UniformLocation>) -> Seq<i32> {
    Seq::new(locations.len(), |i: int| locations[i]@.index)
}

/// The view of transforms that may be absent.
pub open spec fn transforms_view(transforms: Option<Transforms>) -> Option<TransformsView> {
    match transforms {
        Some(given) => Some(given@),
        None => None,
    }
}

/// Whether every location of a renderer's uniforms belongs to `program`.
pub open spec fn all_of_program(
    program: u32,
    samplers: Seq<UniformLocation>,
    transforms: Option<Transforms>,
) -> bool {
    &&& forall|i: int| 0 <= i < samplers.len() ==> (#[trigger] samplers[i])@.program == program
    &&& transforms matches Some(given) ==> given.model@.program == program && given.view@.program
        == program && given.projection@.program == program
}

/// The commands that bind each texture to its unit and point its sampler
/// uniform to that unit, unit after unit.
pub open spec fn texture_commands(samplers: Seq<i32>) -> Seq<Command> {
    Seq::new(
        2 * samplers.len(),
        |k: int|
            if k % 2 == 0 {
                Command::BindTexture { unit: (k / 2) as u32 }
            } else {
                Command::SetSampler { location: samplers[k / 2], unit: (k / 2) as u32 }
            },
    )
}

/// The commands that set the camera: projection and view, where the scene
/// has them.
pub open spec fn camera_commands(transforms: Option<TransformsView>) -> Seq<Command> {
    match transforms {
        Some(given) => seq![
            Command::SetProjection { location: given.projection },
            Command::SetView { location: given.view },
        ],
        None => Seq::empty(),
    }
}

/// The commands that draw: one draw call for a scene of the mesh alone, and
/// else for each object its model transform and then its draw call.
pub open spec fn draw_commands(renderer: RendererView) -> Seq<Command> {
    match renderer.transforms {
        Some(given) => Seq::new(
            (2 * given.objects) as nat,
            |k: int|
                if k % 2 == 0 {
                    Command::SetModel {
                        location: given.model,
                        object: (k / 2) as u32,
                        rotation: rotation_of((k / 2) as u32),
                    }
                } else {
                    Command::Draw { call: renderer.draw }
                },
        ),
        None => seq![Command::Draw { call: renderer.draw }],
    }
}

/// The commands of one frame.
pub open spec fn frame_of(renderer: RendererView) -> Seq<Command> {
    seq![
        Command::Clear { depth: renderer.depth },
        Command::UseProgram { program: renderer.program },
    ] + texture_commands(renderer.samplers) + camera_commands(renderer.transforms)
        + seq![Command::BindVertexArray] + draw_commands(renderer) + seq![
        Command::UnbindVertexArray,
        Command::Present,
        Command::PollEvents,
    ]
}

/// The commands that a loop in a given state gets for its next frame: none
/// where it is closing.
pub open spec fn commands_of(renderer: RendererView, state: LoopState) -> Seq<Command> {
    match state {
        LoopState::Running => frame_of(renderer),
        LoopState::Closing => Seq::empty(),
    }
}

/// The number of draw calls of one frame.
pub open spec fn draws_of(renderer: RendererView) -> int {
    match renderer.transforms {
        Some(given) => given.objects as int,
        None => 1,
    }
}

/// The place of the command that binds the vertex array in a frame.
pub open spec fn bind_place(renderer: RendererView) -> int {
    2 + texture_commands(renderer.samplers).len() as int + camera_commands(
        renderer.transforms,
    ).len() as int
}

/// The place of the draw call at `j` among the draw calls of a frame.
pub open spec fn draw_place(renderer: RendererView, j: int) -> int {
    match renderer.transforms {
        Some(_) => bind_place(renderer) + 2 * j + 2,
        None => bind_place(renderer) + 1,
    }
}

/// The place of the command that unbinds the vertex array in a frame.
pub open spec fn unbind_place(renderer: RendererView) -> int {
    bind_place(renderer) + draw_commands(renderer).len() + 1
}

/// What a renderer needs to give the commands of a frame.
#[derive(Debug)]
pub struct Renderer {
    program: CompiledProgram,
    draw: DrawCall,
    depth: bool,
    samplers: Vec<UniformLocation>,
    transforms: Option<Transforms>,
}

impl View for Renderer {
    type V = RendererView;

    closed spec fn view(&self) -> RendererView {
        RendererView {
            program: self.program@,
            draw: self.draw,
            depth: self.depth,
            samplers: indices_of(self.samplers@),
            transforms: transforms_view(self.transforms),
        }
    }
}

impl Renderer {
    #[verifier::type_invariant]
    spec fn valid(self) -> bool {
        self.samplers@.len() <= i32::MAX
    }

    /// Sets up the renderer of a mesh under a linked program. `samplers`
    /// holds, for each texture of the scene, the location of its sampler
    /// uniform; `transforms` is given for a scene of several objects.
    /// `depth` says whether the scene is drawn with a depth buffer.
    #[verifier::loop_isolation(false)]
    pub fn new(
        program: CompiledProgram,
        mesh: &Mesh,
        depth: bool,
        samplers: Vec<UniformLocation>,
        transforms: Option<Transforms>,
    ) -> (made: Result<Renderer, RendererError>)
        ensures
            match made {
                Ok(renderer) => samplers@.len() <= i32::MAX && all_of_program(
                    program@,
                    samplers@,
                    transforms,
                ) && renderer@ == (RendererView {
                    program: program@,
                    draw: draw_call_of(mesh@),
                    depth,
                    samplers: indices_of(samplers@),
                    transforms: transforms_view(transforms),
                }),
                Err(RendererError::TooManyTextures) => samplers@.len() > i32::MAX,
                Err(RendererError::ForeignUniform) => samplers@.len() <= i32::MAX
                    && !all_of_program(program@, samplers@, transforms),
            },
    {
        if samplers.len() > i32::MAX as usize {
            return Err(RendererError::TooManyTextures);
        }
        let id = program.id();
        let mut i: usize = 0;
        while i < samplers.len()
            invariant
                i <= samplers@.len(),
                forall|j: int| 0 <= j < i ==> (#[trigger] samplers@[j])@.program == id,
            decreases samplers@.len() - i,
        {
            if samplers[i].program() != id {
                assert(samplers@[i as int]@.program != program@);
                return Err(RendererError::ForeignUniform);
            }
            i = i + 1;
        }
        match &transforms {
            Some(given) => {
                if given.model.program() != id || given.view.program() != id
                    || given.projection.program() != id {
                    return Err(RendererError::ForeignUniform);
                }
            },
            None => {},
        }
        Ok(Renderer { program, draw: mesh.draw_call(), depth, samplers, transforms })
    }

    /// The program under which the frames are drawn.
    pub fn program(&self) -> (program: &CompiledProgram)
        ensures
            program@ == self@.program,
    {
        &self.program
    }

    /// The number of textures of the scene.
    pub fn texture_count(&self) -> (count: u32)
        ensures
            count == self@.samplers.len(),
            count <= i32::MAX,
    {
        proof {
            use_type_invariant(self);
        }
        self.samplers.len() as u32
    }

    /// The number of draw calls of one frame.
    pub fn draw_count(&self) -> (count: u32)
        ensures
            count == draws_of(self@),
    {
        match &self.transforms {
            Some(given) => given.objects,
            None => 1,
        }
    }

    /// The commands of the next frame of a loop in the given state, in the
    /// order in which they are to be performed. A loop that is closing gets
    /// none.
    pub fn frame(&self, state: LoopState) -> (commands: Vec<Command>)
        ensures
            commands@ == commands_of(self@, state),
    {
        proof {
            use_type_invariant(self);
        }
        let mut commands: Vec<Command> = Vec::new();
        if !state.is_running() {
            return commands;
        }
        let ghost view = self@;
        commands.push(Command::Clear { depth: self.depth });
        commands.push(Command::UseProgram { program: self.program.id() });
        let ghost opening = commands@;
        let count = self.samplers.len();
        let mut i: usize = 0;
        while i < count
            invariant
                i <= count,
                count == self.samplers@.len(),
                count <= i32::MAX,
                view.samplers == indices_of(self.samplers@),
                commands@ == opening + texture_commands(view.samplers).take(2 * i),
            decreases count - i,
        {
            commands.push(Command::BindTexture { unit: i as u32 });
            commands.push(Command::SetSampler { location: self.samplers[i].index(), unit: i as u32 });
            assert(commands@ =~= opening + texture_commands(view.samplers).take(2 * (i + 1)));
            i = i + 1;
        }
        assert(texture_commands(view.samplers).take(2 * count) =~= texture_commands(view.samplers));
        let ghost textured = commands@;
        match &self.transforms {
            Some(given) => {
                commands.push(Command::SetProjection { location: given.projection.index() });
                commands.push(Command::SetView { location: given.view.index() });
                assert(commands@ =~= textured + camera_commands(view.transforms));
                commands.push(Command::BindVertexArray);
                let ghost bound = commands@;
                let mut object: u32 = 0;
                while object < given.objects
                    invariant
                        object <= given.objects,
                        view.transforms == Some(given@),
                        view.draw == self.draw,
                        commands@ == bound + draw_commands(view).take(2 * object),
                    decreases given.objects - object,
                {
                    commands.push(
                        Command::SetModel {
                            location: given.model.index(),
                            object,
                            rotation: rotation(object),
                        },
                    );
                    commands.push(Command::Draw { call: self.draw });
                    assert(commands@ =~= bound + draw_commands(view).take(2 * (object + 1)));
                    object = object + 1;
                }
                assert(draw_commands(view).take(2 * given.objects) =~= draw_commands(view));
            },
            None => {
                assert(commands@ =~= textured + camera_commands(view.transforms));
                commands.push(Command::BindVertexArray);
                commands.push(Command::Draw { call: self.draw });
                assert(commands@ =~= textured + camera_commands(view.transforms)
                    + seq![Command::BindVertexArray] + draw_commands(view));
            },
        }
        let ghost drawn = commands@;
        commands.push(Command::UnbindVertexArray);
        commands.push(Command::Present);
        commands.push(Command::PollEvents);
        assert(commands@ =~= drawn + seq![
            Command::UnbindVertexArray,
            Command::Present,
            Command::PollEvents,
        ]);
        commands
    }
}

/// What the driver has bound while it takes the commands of a frame.
pub struct Pipeline {
    /// The program that is active, if one is.
    pub program: Option<u32>,
    /// Whether a vertex array is bound.
    pub vertex_array: bool,
}

/// What the driver has bound after one command.
pub open spec fn after_command(pipeline: Pipeline, command: Command) -> Pipeline {
    match command {
        Command::UseProgram { program } => Pipeline { program: Some(program), ..pipeline },
        Command::BindVertexArray => Pipeline { vertex_array: true, ..pipeline },
        Command::UnbindVertexArray => Pipeline { vertex_array: false, ..pipeline },
        _ => pipeline,
    }
}

/// What the driver has bound after a run of commands, taken in their order.
pub open spec fn after_commands(pipeline: Pipeline, commands: Seq<Command>) -> Pipeline
    decreases commands.len(),
{
    if commands.len() == 0 {
        pipeline
    } else {
        after_command(after_commands(pipeline, commands.drop_last()), commands.last())
    }
}

/// After a run of commands the active program is the one that the last
/// command to choose a program chose.
pub proof fn lemma_program_after(pipeline: Pipeline, commands: Seq<Command>, at: int, program: u32)
    requires
        0 <= at < commands.len(),
        commands[at] == (Command::UseProgram { program }),
        forall|k: int| at < k < commands.len() ==> !((#[trigger] commands[k]) is UseProgram),
    ensures
        after_commands(pipeline, commands).program == Some(program),
    decreases commands.len(),
{
    if at < commands.len() - 1 {
        let front = commands.drop_last();
        assert(front[at] == commands[at]);
        assert forall|k: int| at < k < front.len() implies !((#[trigger] front[k]) is UseProgram) by {
            assert(front[k] == commands[k]);
        }
        assert(!(commands[commands.len() - 1] is UseProgram));
        lemma_program_after(pipeline, front, at, program);
    }
}

/// After a run of commands a vertex array is bound if the last command to
/// bind or unbind one bound one.
pub proof fn lemma_vertex_array_after(pipeline: Pipeline, commands: Seq<Command>, at: int)
    requires
        0 <= at < commands.len(),
        commands[at] is BindVertexArray || commands[at] is UnbindVertexArray,
        forall|k: int|
            at < k < commands.len() ==> !((#[trigger] commands[k]) is BindVertexArray)
                && !(commands[k] is UnbindVertexArray),
    ensures
        after_commands(pipeline, commands).vertex_array == (commands[at] is BindVertexArray),
    decreases commands.len(),
{
    if at < commands.len() - 1 {
        let front = commands.drop_last();
        assert(front[at] == commands[at]);
        assert forall|k: int| at < k < front.len() implies !((#[trigger] front[k])
            is BindVertexArray) && !(front[k] is UnbindVertexArray) by {
            assert(front[k] == commands[k]);
        }
        let last = commands[commands.len() - 1];
        assert(!(last is BindVertexArray) && !(last is UnbindVertexArray));
        lemma_vertex_array_after(pipeline, front, at);
    }
}

/// The shape of a frame: where each of its commands stands.
pub proof fn lemma_frame_shape(renderer: RendererView)
    ensures
        frame_of(renderer).len() == unbind_place(renderer) + 3,
        2 <= bind_place(renderer) < unbind_place(renderer),
        bind_place(renderer) + 1 + draw_commands(renderer).len() == unbind_place(renderer),
        frame_of(renderer)[0] == (Command::Clear { depth: renderer.depth }),
        frame_of(renderer)[1] == (Command::UseProgram { program: renderer.program }),
        frame_of(renderer)[bind_place(renderer)] == Command::BindVertexArray,
        frame_of(renderer)[unbind_place(renderer)] == Command::UnbindVertexArray,
        frame_of(renderer)[unbind_place(renderer) + 1] == Command::Present,
        frame_of(renderer)[unbind_place(renderer) + 2] == Command::PollEvents,
        forall|k: int|
            0 <= k < frame_of(renderer).len() && k != 1 ==> !((#[trigger] frame_of(renderer)[k])
                is UseProgram),
        forall|k: int|
            0 <= k < frame_of(renderer).len() && k != bind_place(renderer) ==> !((
            #[trigger] frame_of(renderer)[k]) is BindVertexArray),
        forall|k: int|
            0 <= k < frame_of(renderer).len() && k != unbind_place(renderer) ==> !((
            #[trigger] frame_of(renderer)[k]) is UnbindVertexArray),
        forall|k: int|
            0 <= k < frame_of(renderer).len() && (#[trigger] frame_of(renderer)[k]) is Draw
                ==> bind_place(renderer) < k < unbind_place(renderer) && frame_of(renderer)[k] == (
            Command::Draw { call: renderer.draw }),
        forall|j: int|
            0 <= j < draws_of(renderer) ==> (#[trigger] frame_of(renderer)[draw_place(renderer, j)])
                == (Command::Draw { call: renderer.draw }),
{
    let opening = seq![
        Command::Clear { depth: renderer.depth },
        Command::UseProgram { program: renderer.program },
    ];
    let textures = texture_commands(renderer.samplers);
    let camera = camera_commands(renderer.transforms);
    let bind = seq![Command::BindVertexArray];
    let draws = draw_commands(renderer);
    let closing = seq![Command::UnbindVertexArray, Command::Present, Command::PollEvents];
    let frame = frame_of(renderer);
    let a = opening + textures;
    let b = a + camera;
    let c = b + bind;
    let d = c + draws;
    assert(frame == d + closing);
    let bp = bind_place(renderer);
    let up = unbind_place(renderer);
    assert(a.len() == 2 + textures.len());
    assert(b.len() == bp);
    assert(c.len() == bp + 1);
    assert(d.len() == up);
    assert forall|k: int| 0 <= k < frame.len() implies (k < 2 ==> frame[k] == opening[k]) && (2
        <= k < a.len() ==> frame[k] == textures[k - 2]) && (a.len() <= k < bp ==> frame[k]
        == camera[k - a.len()]) && (k == bp ==> frame[k] == Command::BindVertexArray) && (bp < k
        < up ==> frame[k] == draws[k - bp - 1]) && (up <= k ==> frame[k] == closing[k - up]) by {
        if k < up {
            assert(frame[k] == d[k]);
            if k < bp + 1 {
                assert(d[k] == c[k]);
                if k < bp {
                    assert(c[k] == b[k]);
                    if k < a.len() {
                        assert(b[k] == a[k]);
                    }
                }
            }
        }
    }
    assert forall|j: int| 0 <= j < draws_of(renderer) implies (#[trigger] frame[draw_place(
        renderer,
        j,
    )]) == (Command::Draw { call: renderer.draw }) by {
        let k = draw_place(renderer, j);
        assert(bp < k < up);
        assert(frame[k] == draws[k - bp - 1]);
    }
}

/// Exactly one program is active and exactly one vertex array is bound
/// whenever a frame draws: before each of its draw calls the program of the
/// renderer is the active one and the vertex array is bound, whatever was
/// bound when the frame began.
pub proof fn law_draws_find_pipeline_ready(renderer: RendererView, before: Pipeline, k: int)
    requires
        0 <= k < frame_of(renderer).len(),
        frame_of(renderer)[k] is Draw,
    ensures
        after_commands(before, frame_of(renderer).take(k)) == (Pipeline {
            program: Some(renderer.program),
            vertex_array: true,
        }),
        frame_of(renderer)[k] == (Command::Draw { call: renderer.draw }),
{
    lemma_frame_shape(renderer);
    let frame = frame_of(renderer);
    let prefix = frame.take(k);
    assert forall|i: int| 0 <= i < prefix.len() implies prefix[i] == frame[i] by {}
    lemma_program_after(before, prefix, 1, renderer.program);
    lemma_vertex_array_after(before, prefix, bind_place(renderer));
}

/// A frame leaves the program of the renderer active and no vertex array
/// bound.
pub proof fn law_frame_ends_unbound(renderer: RendererView, before: Pipeline)
    ensures
        after_commands(before, frame_of(renderer)) == (Pipeline {
            program: Some(renderer.program),
            vertex_array: false,
        }),
{
    lemma_frame_shape(renderer);
    lemma_program_after(before, frame_of(renderer), 1, renderer.program);
    lemma_vertex_array_after(before, frame_of(renderer), unbind_place(renderer));
}

/// A frame has one draw call for each object of the scene, or one where the
/// scene is the mesh alone, and no other: the draw calls stand at the places
/// that `draw_place` names.
pub proof fn law_one_draw_for_each_object(renderer: RendererView, k: int)
    requires
        0 <= k < frame_of(renderer).len(),
    ensures
        frame_of(renderer)[k] is Draw <==> exists|j: int|
            0 <= j < draws_of(renderer) && k == #[trigger] draw_place(renderer, j),
{
    lemma_frame_shape(renderer);
    let frame = frame_of(renderer);
    let bp = bind_place(renderer);
    let up = unbind_place(renderer);
    let draws = draw_commands(renderer);
    if frame[k] is Draw {
        assert(bp < k < up);
        let at = k - bp - 1;
        match renderer.transforms {
            Some(given) => {
                assert(frame[k] == draws[at]) by {
                    lemma_frame_part(renderer, k);
                }
                assert(at % 2 == 1);
                let j = at / 2;
                assert(k == draw_place(renderer, j));
            },
            None => {
                assert(k == draw_place(renderer, 0));
            },
        }
    }
}

/// A command of a frame that stands between the binding and the unbinding
/// of the vertex array is one of the commands that draw.
pub proof fn lemma_frame_part(renderer: RendererView, k: int)
    requires
        bind_place(renderer) < k < unbind_place(renderer),
    ensures
        frame_of(renderer)[k] == draw_commands(renderer)[k - bind_place(renderer) - 1],
{
    let opening = seq![
        Command::Clear { depth: renderer.depth },
        Command::UseProgram { program: renderer.program },
    ];
    let c = opening + texture_commands(renderer.samplers) + camera_commands(renderer.transforms)
        + seq![Command::BindVertexArray];
    let d = c + draw_commands(renderer);
    assert(c.len() == bind_place(renderer) + 1);
    assert(frame_of(renderer)[k] == d[k]);
}

/// Once the render loop is closing it draws nothing more: it gets no
/// command at all.
pub proof fn law_closing_loop_draws_nothing(renderer: RendererView)
    ensures
        commands_of(renderer, LoopState::Closing).len() == 0,
{
}

} // verus!
