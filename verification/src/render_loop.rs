//! The render loop as a state machine: what one iteration makes of the
//! events that came in, and which commands it issues.

use vstd::prelude::*;
use crate::camera::{aspect_of, viewport_aspect, CameraParameters, Ratio};
use crate::geometry::AttributeBinding;
use crate::scene::{Scene, SceneView};

verus! {

/// What the window reports between two frames.
#[derive(Clone, Copy, Debug, PartialEq, Eq, Structural)]
pub enum Event {
    /// The display surface was closed.
    Closed,
    /// Anything else.
    Other,
}

/// Whether the loop goes on.
#[derive(Clone, Copy, Debug, PartialEq, Eq, Structural)]
pub enum LoopControl {
    /// Frames are being drawn.
    Running,
    /// A close event was seen. Nothing is drawn any more.
    Stopped,
}

/// A colour with its opacity, each part in steps of one 255th.
#[derive(Clone, Copy, Debug, PartialEq, Eq, Structural)]
pub struct Color {
    /// Red part.
    pub red: u8,
    /// Green part.
    pub green: u8,
    /// Blue part.
    pub blue: u8,
    /// Opacity.
    pub alpha: u8,
}

/// Which of two fragments at one pixel is kept.
#[derive(Clone, Copy, Debug, PartialEq, Eq, Structural)]
pub enum DepthRule {
    /// The one closer to the camera.
    Less,
}

/// One thing for the host to do, on the graphics device or the window.
#[derive(Clone, Copy, Debug, PartialEq, Eq, Structural)]
pub enum Command {
    /// Switch depth testing on, with `rule` to decide between fragments.
    EnableDepthTest { rule: DepthRule },
    /// Make a vertex array and bind it, to hold the attribute bindings.
    CreateVertexArray,
    /// Fill the colour target with `color` and reset the depth target.
    Clear { color: Color },
    /// Make `program` the one that draws.
    UseProgram { program: u32 },
    /// Compute the combined transform of `camera` at `aspect` and write it
    /// to the matrix uniform at `location`.
    UploadTransform { location: i32, camera: CameraParameters, aspect: Ratio },
    /// Switch the slot of `binding` on and point it at the binding's buffer.
    BindAttribute { binding: AttributeBinding },
    /// Draw `count` vertices, from vertex `first` on, as a list of
    /// triangles.
    DrawTriangles { first: u32, count: u32 },
    /// Show the finished frame.
    Present,
}

/// What one iteration leaves behind.
#[derive(Debug, PartialEq, Eq)]
pub struct Iteration {
    /// The state for the next iteration.
    pub state: LoopControl,
    /// What the host is to do, in this order.
    pub commands: Vec<Command>,
}

/// The colour every frame starts from: opaque blue.
pub open spec fn background() -> Color {
    Color { red: 0, green: 0, blue: 255, alpha: 255 }
}

/// What is done to the device once, before the first frame: depth testing
/// goes on, closer fragments winning, and a vertex array is bound.
pub open spec fn startup_plan() -> Seq<Command> {
    seq![Command::EnableDepthTest { rule: DepthRule::Less }, Command::CreateVertexArray]
}

/// The state after a batch of events: stopped once it was stopped or a
/// close event is among them.
pub open spec fn after_events(state: LoopControl, events: Seq<Event>) -> LoopControl {
    if state == LoopControl::Stopped || events.contains(Event::Closed) {
        LoopControl::Stopped
    } else {
        LoopControl::Running
    }
}

/// The commands that upload the transform: one where the handle resolves,
/// none where it does not.
pub open spec fn transform_plan(scene: SceneView, viewport: Option<(u32, u32)>) -> Seq<Command> {
    if scene.transform.resolves() {
        seq![
            Command::UploadTransform {
                location: scene.transform.location,
                camera: scene.camera,
                aspect: aspect_of(viewport),
            },
        ]
    } else {
        Seq::empty()
    }
}

/// The commands of one frame, in order.
pub open spec fn frame_plan(scene: SceneView, viewport: Option<(u32, u32)>) -> Seq<Command> {
    seq![
        Command::Clear { color: background() },
        Command::UseProgram { program: scene.program.handle },
    ] + transform_plan(scene, viewport) + seq![
        Command::BindAttribute { binding: scene.positions },
        Command::BindAttribute { binding: scene.colors },
        Command::DrawTriangles { first: 0, count: scene.vertex_count },
        Command::Present,
    ]
}

/// The commands of one iteration: a frame while the loop runs, nothing once
/// it has stopped.
pub open spec fn iteration_plan(
    state: LoopControl,
    events: Seq<Event>,
    scene: SceneView,
    viewport: Option<(u32, u32)>,
) -> Seq<Command> {
    if after_events(state, events) == LoopControl::Running {
        frame_plan(scene, viewport)
    } else {
        Seq::empty()
    }
}

impl Color {
    /// The colour every frame starts from.
    pub fn background() -> (color: Self)
        ensures
            color == background(),
    {
        Color { red: 0, green: 0, blue: 255, alpha: 255 }
    }
}

impl LoopControl {
    /// The state the loop starts in.
    pub fn start() -> (state: Self)
        ensures
            state == LoopControl::Running,
    {
        LoopControl::Running
    }

    /// Whether another frame is due.
    pub fn is_running(&self) -> (running: bool)
        ensures
            running == (*self == LoopControl::Running),
    {
        match self {
            LoopControl::Running => true,
            LoopControl::Stopped => false,
        }
    }

    /// Takes in all events that were pending.
    pub fn observe(self, events: &[Event]) -> (next: Self)
        ensures
            next == after_events(self, events@),
    {
        let mut next = self;
        let mut i: usize = 0;
        while i < events.len()
            invariant
                i <= events@.len(),
                next == after_events(self, events@.take(i as int)),
            decreases events@.len() - i,
        {
            let event = events[i];
            proof {
                let seen = events@.take(i as int);
                let more = events@.take(i + 1);
                assert(more == seen.push(event));
                assert(more.contains(Event::Closed) <==> seen.contains(Event::Closed) || event
                    == Event::Closed) by {
                    if seen.contains(Event::Closed) {
                        let k = choose|k: int| 0 <= k < seen.len() && seen[k] == Event::Closed;
                        assert(more[k] == Event::Closed);
                    }
                    if event == Event::Closed {
                        assert(more[i as int] == Event::Closed);
                    }
                }
            }
            match event {
                Event::Closed => {
                    next = LoopControl::Stopped;
                },
                Event::Other => {},
            }
            i += 1;
        }
        assert(events@.take(i as int) == events@);
        next
    }
}

/// Lists what is done to the device once, before the first frame.
pub fn startup_commands() -> (commands: Vec<Command>)
    ensures
        commands@ == startup_plan(),
{
    let mut commands: Vec<Command> = Vec::new();
    commands.push(Command::EnableDepthTest { rule: DepthRule::Less });
    commands.push(Command::CreateVertexArray);
    assert(commands@ =~= startup_plan());
    commands
}

/// Lists the commands of one frame of `scene` in a window of the given
/// size in pixels, width first.
pub fn frame_commands(scene: &Scene, viewport: Option<(u32, u32)>) -> (commands: Vec<Command>)
    ensures
        commands@ == frame_plan(scene@, viewport),
{
    let mut commands: Vec<Command> = Vec::new();
    commands.push(Command::Clear { color: Color::background() });
    commands.push(Command::UseProgram { program: scene.program().handle() });
    let transform = scene.transform();
    if transform.is_valid() {
        commands.push(
            Command::UploadTransform {
                location: transform.location,
                camera: scene.camera(),
                aspect: viewport_aspect(viewport),
            },
        );
    }
    commands.push(Command::BindAttribute { binding: scene.positions() });
    commands.push(Command::BindAttribute { binding: scene.colors() });
    commands.push(Command::DrawTriangles { first: 0, count: scene.vertex_count() });
    commands.push(Command::Present);
    assert(commands@ =~= frame_plan(scene@, viewport));
    commands
}

/// Runs one iteration of the loop: takes in the pending events and, if the
/// loop still runs after them, lists the commands of a frame.
///
/// A close event anywhere among the events stops the loop in this very
/// iteration, and a stopped loop issues no command.
pub fn iterate(
    state: LoopControl,
    events: &[Event],
    viewport: Option<(u32, u32)>,
    scene: &Scene,
) -> (iteration: Iteration)
    ensures
        iteration.state == after_events(state, events@),
        iteration.commands@ == iteration_plan(state, events@, scene@, viewport),
{
    let next = state.observe(events);
    if next.is_running() {
        Iteration { state: next, commands: frame_commands(scene, viewport) }
    } else {
        Iteration { state: next, commands: Vec::new() }
    }
}

/// Once stopped, the loop stays stopped and issues nothing, whatever comes
/// in.
pub proof fn lemma_stopped_is_final(
    events: Seq<Event>,
    scene: SceneView,
    viewport: Option<(u32, u32)>,
)
    ensures
        after_events(LoopControl::Stopped, events) == LoopControl::Stopped,
        iteration_plan(LoopControl::Stopped, events, scene, viewport) == Seq::<Command>::empty(),
{
}

/// A close event stops the loop in the iteration that sees it, and that
/// iteration issues no command: nothing is drawn after the event.
pub proof fn lemma_close_stops_at_once(
    state: LoopControl,
    events: Seq<Event>,
    scene: SceneView,
    viewport: Option<(u32, u32)>,
)
    requires
        events.contains(Event::Closed),
    ensures
        after_events(state, events) == LoopControl::Stopped,
        iteration_plan(state, events, scene, viewport) == Seq::<Command>::empty(),
{
}

/// Taking events in two batches leaves the loop where taking them in one
/// does.
pub proof fn lemma_batches_compose(state: LoopControl, first: Seq<Event>, second: Seq<Event>)
    ensures
        after_events(after_events(state, first), second) == after_events(state, first + second),
{
    let all = first + second;
    if first.contains(Event::Closed) {
        let k = choose|k: int| 0 <= k < first.len() && first[k] == Event::Closed;
        assert(all[k] == Event::Closed);
    }
    if second.contains(Event::Closed) {
        let k = choose|k: int| 0 <= k < second.len() && second[k] == Event::Closed;
        assert(all[first.len() + k] == Event::Closed);
    }
    if all.contains(Event::Closed) {
        let k = choose|k: int| 0 <= k < all.len() && all[k] == Event::Closed;
        if k < first.len() {
            assert(first[k] == Event::Closed);
        } else {
            assert(second[k - first.len()] == Event::Closed);
        }
    }
}

/// A running loop with nothing pending draws one frame: it starts with the
/// one clear, ends with the one draw call, of all the scene's vertices,
/// and then the one present, and keeps running.
pub proof fn lemma_quiet_iteration_draws_once(scene: SceneView, viewport: Option<(u32, u32)>)
    ensures
        after_events(LoopControl::Running, Seq::<Event>::empty()) == LoopControl::Running,
        ({
            let plan = iteration_plan(LoopControl::Running, Seq::<Event>::empty(), scene, viewport);
            let last = plan.len() - 1;
            &&& plan == frame_plan(scene, viewport)
            &&& plan.len() >= 3
            &&& plan[0] is Clear
            &&& plan[last - 1] == (Command::DrawTriangles { first: 0, count: scene.vertex_count })
            &&& plan[last] is Present
            &&& forall|i: int| 0 <= i < plan.len() && plan[i] is Clear ==> i == 0
            &&& forall|i: int| 0 <= i < plan.len() && plan[i] is DrawTriangles ==> i == last - 1
            &&& forall|i: int| 0 <= i < plan.len() && plan[i] is Present ==> i == last
        }),
{
}

/// No frame touches what was set up before the first one: depth testing
/// stays as it was switched on, and no vertex array is made anew.
pub proof fn lemma_frames_keep_startup_state(
    scene: SceneView,
    viewport: Option<(u32, u32)>,
    i: int,
)
    requires
        0 <= i < frame_plan(scene, viewport).len(),
    ensures
        !(frame_plan(scene, viewport)[i] is EnableDepthTest),
        !(frame_plan(scene, viewport)[i] is CreateVertexArray),
{
}

/// A frame in a window that cannot report its size is the frame of a window
/// four pixels wide and three high.
pub proof fn lemma_frame_without_viewport(scene: SceneView)
    ensures
        frame_plan(scene, None) == frame_plan(scene, Some((4u32, 3u32))),
{
}

} // verus!
