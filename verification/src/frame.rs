use vstd::prelude::*;

verus! {

/// The three shader programs of the renderer.
#[derive(Clone, Copy, PartialEq, Eq, Structural, Debug)]
pub enum Stage {
    /// The raymarched city with the rotating monolith.
    Scene,
    /// Chromatic aberration, bloom, glitch, grain and scanlines.
    Post,
    /// The procedural katakana rain overlay.
    Kana,
}

/// A framebuffer a pass draws into, or whose colour it reads.
#[derive(Clone, Copy, PartialEq, Eq, Structural, Debug)]
pub enum Surface {
    /// The first offscreen framebuffer, with its own colour texture.
    BufferA,
    /// The second offscreen framebuffer, with its own colour texture.
    BufferB,
    /// The default framebuffer, i.e. the canvas. It has no texture.
    Screen,
}

/// How a draw combines its output with what the target already holds.
#[derive(Clone, Copy, PartialEq, Eq, Structural, Debug)]
pub enum Blend {
    /// Blending disabled: the draw overwrites the target.
    Replace,
    /// Additive blending, `SRC_ALPHA, ONE`.
    Additive,
}

/// One step of a frame.
#[derive(Clone, Copy, PartialEq, Eq, Structural, Debug)]
pub enum Pass {
    /// A full-screen draw of `program` into `target`. Before drawing, texture
    /// unit 0 is set to `input`'s colour texture (sampled as `u_scene`), or
    /// cleared when `input` is `None`.
    Draw { program: Stage, target: Surface, input: Option<Surface>, blend: Blend },
    /// A plain copy of `from`'s pixels into `to` (`blitFramebuffer`), with
    /// no shader, no blending and no change to texture unit 0.
    Blit { from: Surface, to: Surface },
}

/// The steps of every frame, in order: scene into A, post-processing of A
/// into B, B copied unchanged to the screen, then the katakana rain added on
/// top.
pub open spec fn frame_plan() -> Seq<Pass> {
    seq![
        Pass::Draw { program: Stage::Scene, target: Surface::BufferA, input: None, blend: Blend::Replace },
        Pass::Draw { program: Stage::Post, target: Surface::BufferB, input: Some(Surface::BufferA), blend: Blend::Replace },
        Pass::Blit { from: Surface::BufferB, to: Surface::Screen },
        Pass::Draw { program: Stage::Kana, target: Surface::Screen, input: None, blend: Blend::Additive },
    ]
}

/// The steps to perform for one frame.
pub fn frame_passes() -> (r: Vec<Pass>)
    ensures
        r@ == frame_plan(),
{
    let mut r: Vec<Pass> = Vec::new();
    r.push(Pass::Draw { program: Stage::Scene, target: Surface::BufferA, input: None, blend: Blend::Replace });
    r.push(Pass::Draw { program: Stage::Post, target: Surface::BufferB, input: Some(Surface::BufferA), blend: Blend::Replace });
    r.push(Pass::Blit { from: Surface::BufferB, to: Surface::Screen });
    r.push(Pass::Draw { program: Stage::Kana, target: Surface::Screen, input: None, blend: Blend::Additive });
    r
}

/// The surface a step writes.
pub open spec fn written(p: Pass) -> Surface {
    match p {
        Pass::Draw { target, .. } => target,
        Pass::Blit { to, .. } => to,
    }
}

/// The surface a step reads, if any.
pub open spec fn read(p: Pass) -> Option<Surface> {
    match p {
        Pass::Draw { input, .. } => input,
        Pass::Blit { from, .. } => Some(from),
    }
}

/// The buffer whose texture is bound on unit 0 after the first `n` steps of
/// `plan`, when `start` was bound as the frame began (`None`: nothing).
pub open spec fn unit0_after(plan: Seq<Pass>, n: int, start: Option<Surface>) -> Option<Surface>
    decreases n,
{
    if n <= 0 {
        start
    } else {
        match plan[n - 1] {
            Pass::Draw { input, .. } => input,
            Pass::Blit { .. } => unit0_after(plan, n - 1, start),
        }
    }
}

/// No step reads the surface it writes.
pub proof fn lemma_no_self_read()
    ensures
        forall|i: int| 0 <= i < frame_plan().len() ==>
            #[trigger] read(frame_plan()[i]) != Some(written(frame_plan()[i])),
{
}

/// Whatever texture was left bound on unit 0 when a frame begins (by the
/// previous frame, or by the creation of new buffers on a resize), no draw of
/// the frame runs with the texture of its own target bound on unit 0: the
/// binding during draw `i` is the one after its own step, and it is never the
/// draw's target. So no frame contains a framebuffer feedback loop.
pub proof fn lemma_no_feedback_loop(start: Option<Surface>)
    ensures
        forall|i: int| 0 <= i < frame_plan().len() ==>
            (#[trigger] frame_plan()[i] matches Pass::Draw { target, .. } ==>
                unit0_after(frame_plan(), i + 1, start) != Some(target)),
{
    assert(unit0_after(frame_plan(), 1, start) == None::<Surface>);
    assert(unit0_after(frame_plan(), 2, start) == Some(Surface::BufferA));
    assert(unit0_after(frame_plan(), 3, start) == Some(Surface::BufferA));
    assert(unit0_after(frame_plan(), 4, start) == None::<Surface>);
}

/// Every surface a step reads was written by an earlier step of the same
/// frame, and the screen is never read.
pub proof fn lemma_inputs_drawn_earlier()
    ensures
        forall|i: int| 0 <= i < frame_plan().len() ==>
            (#[trigger] read(frame_plan()[i]) matches Some(s) ==> s != Surface::Screen
                && exists|j: int| 0 <= j < i && #[trigger] written(frame_plan()[j]) == s),
{
    assert(written(frame_plan()[0]) == Surface::BufferA);
    assert(written(frame_plan()[1]) == Surface::BufferB);
}

/// The screen first receives B's pixels copied unchanged, after B has been
/// drawn; the only later step is the katakana rain, the one blended draw,
/// added on top.
pub proof fn lemma_screen_is_copy_then_rain()
    ensures
        forall|i: int| 0 <= i < 2 ==> #[trigger] written(frame_plan()[i]) != Surface::Screen,
        written(frame_plan()[1]) == Surface::BufferB,
        frame_plan()[2] == (Pass::Blit { from: Surface::BufferB, to: Surface::Screen }),
        frame_plan().len() == 4,
        frame_plan()[3] == (Pass::Draw { program: Stage::Kana, target: Surface::Screen, input: None,
            blend: Blend::Additive }),
        forall|i: int| 0 <= i < frame_plan().len() ==>
            (#[trigger] frame_plan()[i] matches Pass::Draw { blend, .. } ==>
                (blend == Blend::Additive <==> i == 3)),
{
}

/// The drawing size of the canvas and of both offscreen buffers, in device
/// pixels.
#[derive(Clone, Copy, PartialEq, Eq, Structural, Debug)]
pub struct Viewport {
    pub w: i32,
    pub h: i32,
}

/// What a frame must do before drawing.
#[derive(Clone, Copy, PartialEq, Eq, Structural, Debug)]
pub enum SizeAction {
    /// The size is unchanged; draw with the existing buffers.
    Keep,
    /// Resize the canvas and create both offscreen buffers anew at the new
    /// viewport's size.
    Resize,
}

/// The viewport after observing the size `w` x `h`, and whether that
/// observation forces a resize.
pub open spec fn frame_step(current: Viewport, w: i32, h: i32) -> (Viewport, SizeAction) {
    (
        Viewport { w, h },
        if w != current.w || h != current.h { SizeAction::Resize } else { SizeAction::Keep },
    )
}

/// Decides, at the start of a frame, whether the measured drawing size
/// `w` x `h` differs from the current viewport; returns the viewport to draw
/// with and the action to take.
pub fn on_frame(current: Viewport, w: i32, h: i32) -> (r: (Viewport, SizeAction))
    ensures
        r == frame_step(current, w, h),
{
    if w != current.w || h != current.h {
        (Viewport { w, h }, SizeAction::Resize)
    } else {
        (current, SizeAction::Keep)
    }
}

/// After a frame has adopted a size, a later frame that measures the same
/// size keeps its buffers; the viewport always follows the last measurement.
pub proof fn lemma_resize_settles(current: Viewport, w: i32, h: i32)
    ensures
        frame_step(frame_step(current, w, h).0, w, h) == (Viewport { w, h }, SizeAction::Keep),
{
}

/// A frame resizes exactly when the measured size differs from the
/// viewport it was drawing with.
pub proof fn lemma_resize_iff_changed(current: Viewport, w: i32, h: i32)
    ensures
        (frame_step(current, w, h).1 == SizeAction::Keep) <==> (current == Viewport { w, h }),
{
}

/// The corners of the full-screen quad in clip space, in triangle-strip
/// order.
pub open spec fn quad_plan() -> Seq<(i8, i8)> {
    seq![(-1i8, -1i8), (1i8, -1i8), (-1i8, 1i8), (1i8, 1i8)]
}

/// The vertex data of the full-screen quad (two coordinates per vertex).
pub fn quad_corners() -> (r: Vec<(i8, i8)>)
    ensures
        r@ == quad_plan(),
{
    let mut r: Vec<(i8, i8)> = Vec::new();
    r.push((-1, -1));
    r.push((1, -1));
    r.push((-1, 1));
    r.push((1, 1));
    r
}

/// The strip's two triangles, `(v0, v1, v2)` and `(v1, v2, v3)`, cover the
/// whole clip square: the four vertices are the four distinct corners of
/// `[-1, 1]²`, and the shared edge `v1 v2` is a diagonal with `v0` and `v3`
/// on opposite sides of it.
pub proof fn lemma_quad_covers_clip_space()
    ensures
        quad_plan().len() == 4,
        forall|i: int| 0 <= i < 4 ==>
            (#[trigger] quad_plan()[i].0 == 1 || quad_plan()[i].0 == -1)
            && (quad_plan()[i].1 == 1 || quad_plan()[i].1 == -1),
        forall|i: int, j: int| 0 <= i < j < 4 ==> #[trigger] quad_plan()[i] != #[trigger] quad_plan()[j],
        quad_plan()[1].0 == -quad_plan()[2].0 && quad_plan()[1].1 == -quad_plan()[2].1,
        quad_plan()[0].0 == -quad_plan()[3].0 && quad_plan()[0].1 == -quad_plan()[3].1,
{
}

} // verus!
