use eth3rn5l_portfolio::frame::{
    frame_passes, on_frame, quad_corners, Blend, Pass, SizeAction, Stage, Surface, Viewport,
};

#[test]
fn frame_has_four_steps_in_pipeline_order() {
    let p = frame_passes();
    assert_eq!(
        p,
        vec![
            Pass::Draw { program: Stage::Scene, target: Surface::BufferA, input: None, blend: Blend::Replace },
            Pass::Draw {
                program: Stage::Post,
                target: Surface::BufferB,
                input: Some(Surface::BufferA),
                blend: Blend::Replace,
            },
            Pass::Blit { from: Surface::BufferB, to: Surface::Screen },
            Pass::Draw { program: Stage::Kana, target: Surface::Screen, input: None, blend: Blend::Additive },
        ]
    );
}

fn written(p: &Pass) -> Surface {
    match p {
        Pass::Draw { target, .. } => *target,
        Pass::Blit { to, .. } => *to,
    }
}

fn read(p: &Pass) -> Option<Surface> {
    match p {
        Pass::Draw { input, .. } => *input,
        Pass::Blit { from, .. } => Some(*from),
    }
}

#[test]
fn no_step_reads_its_own_target() {
    for pass in frame_passes() {
        assert_ne!(read(&pass), Some(written(&pass)));
    }
}

#[test]
fn unit0_never_holds_the_draw_target_across_frames() {
    let plan = frame_passes();
    for start in [None, Some(Surface::BufferA), Some(Surface::BufferB)] {
        let mut bound = start;
        for _frame in 0..3 {
            for pass in &plan {
                match pass {
                    Pass::Draw { target, input, .. } => {
                        bound = *input;
                        assert_ne!(bound, Some(*target));
                    }
                    Pass::Blit { .. } => {}
                }
            }
        }
    }
}

#[test]
fn read_surfaces_are_written_earlier_in_the_frame() {
    let p = frame_passes();
    for (i, pass) in p.iter().enumerate() {
        if let Some(s) = read(pass) {
            assert_ne!(s, Surface::Screen);
            assert!(p[..i].iter().any(|q| written(q) == s));
        }
    }
}

#[test]
fn screen_gets_b_copied_then_rain() {
    let p = frame_passes();
    let first_screen = p.iter().position(|q| written(q) == Surface::Screen).unwrap();
    assert_eq!(p[first_screen], Pass::Blit { from: Surface::BufferB, to: Surface::Screen });
    assert_eq!(p.len(), first_screen + 2);
    assert_eq!(
        p[first_screen + 1],
        Pass::Draw { program: Stage::Kana, target: Surface::Screen, input: None, blend: Blend::Additive }
    );
    let blended = p
        .iter()
        .filter(|q| matches!(q, Pass::Draw { blend: Blend::Additive, .. }))
        .count();
    assert_eq!(blended, 1);
}

#[test]
fn same_size_keeps_buffers() {
    let v = Viewport { w: 1920, h: 1080 };
    assert_eq!(on_frame(v, 1920, 1080), (v, SizeAction::Keep));
}

#[test]
fn width_change_resizes() {
    let v = Viewport { w: 1920, h: 1080 };
    assert_eq!(on_frame(v, 1280, 1080), (Viewport { w: 1280, h: 1080 }, SizeAction::Resize));
}

#[test]
fn height_change_resizes() {
    let v = Viewport { w: 800, h: 600 };
    assert_eq!(on_frame(v, 800, 601), (Viewport { w: 800, h: 601 }, SizeAction::Resize));
}

#[test]
fn resize_settles_on_next_frame() {
    let (v, a) = on_frame(Viewport { w: 0, h: 0 }, 640, 480);
    assert_eq!(a, SizeAction::Resize);
    let (v2, a2) = on_frame(v, 640, 480);
    assert_eq!(v2, Viewport { w: 640, h: 480 });
    assert_eq!(a2, SizeAction::Keep);
}

#[test]
fn quad_is_a_strip_over_the_clip_square() {
    assert_eq!(quad_corners(), vec![(-1, -1), (1, -1), (-1, 1), (1, 1)]);
}
