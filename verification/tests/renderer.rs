use dual_context::error::Error;
use dual_context::gpu::{
    BindPoint, Color, Command, Image, Lifetime, Rect, Size, Target,
};
use dual_context::ownership::ContextId;
use dual_context::plan::{check_plan, unwind};
use dual_context::renderer::{Event, Phase, Renderer};

const P: ContextId = ContextId::Presentation;
const C: ContextId = ContextId::Compute;

fn pink() -> Color {
    Color { red: 255, green: 128, blue: 179, alpha: 255 }
}

fn size(width: u32, height: u32) -> Size {
    Size::new(width, height).unwrap()
}

fn full(width: u32, height: u32) -> Rect {
    Rect { x: 0, y: 0, width, height }
}

fn frame(width: u32, height: u32, color: Color) -> Vec<Command> {
    vec![
        Command::Acquire(C),
        Command::Clear { context: C, color },
        Command::Present { context: C },
        Command::Release(C),
        Command::Acquire(P),
        Command::BindFramebuffer { context: P, point: BindPoint::Read, target: Target::Own },
        Command::Blit { context: P, area: full(width, height) },
        Command::Present { context: P },
        Command::Release(P),
    ]
}

fn teardown() -> Vec<Command> {
    vec![
        Command::Acquire(P),
        Command::DeleteFramebuffer { context: P },
        Command::DeleteRenderbuffer { context: P },
        Command::Release(P),
        Command::Acquire(C),
        Command::DeleteFramebuffer { context: C },
        Command::Release(C),
    ]
}

#[test]
fn size_rejects_zero() {
    assert_eq!(Size::new(0, 5), None);
    assert_eq!(Size::new(5, 0), None);
    assert_eq!(Size::new(0, 0), None);
    assert_eq!(Size::new(3, 4), Some(Size { width: 3, height: 4 }));
}

#[test]
fn full_rectangle() {
    assert_eq!(Rect::full(size(64, 48)), full(64, 48));
}

#[test]
fn clear_colour_is_within_channel_tolerance() {
    let wanted = [1.0f64, 0.5, 0.7, 1.0];
    let c = pink();
    let got = [c.red, c.green, c.blue, c.alpha];
    for i in 0..4 {
        let channel = f64::from(got[i]) / 255.0;
        assert!((channel - wanted[i]).abs() <= 1.0 / 255.0);
    }
}

#[test]
fn setup_creates_shared_objects() {
    let (r, plan) = Renderer::start(size(800, 600), pink()).unwrap();
    let s = size(800, 600);
    assert_eq!(
        plan,
        vec![
            Command::Acquire(C),
            Command::CreateRenderbuffer { context: C },
            Command::BindRenderbuffer { context: C },
            Command::AllocateStorage { context: C, size: s },
            Command::CreateFramebuffer { context: C },
            Command::BindFramebuffer { context: C, point: BindPoint::Draw, target: Target::Own },
            Command::AttachRenderbuffer { context: C, point: BindPoint::Draw },
            Command::CheckFramebuffer { context: C, point: BindPoint::Draw },
            Command::Release(C),
            Command::Acquire(P),
            Command::BindRenderbuffer { context: P },
            Command::CreateFramebuffer { context: P },
            Command::BindFramebuffer { context: P, point: BindPoint::Read, target: Target::Own },
            Command::AttachRenderbuffer { context: P, point: BindPoint::Read },
            Command::CheckFramebuffer { context: P, point: BindPoint::Read },
            Command::SetViewport { context: P, area: full(800, 600) },
            Command::Release(P),
        ]
    );
    assert!(check_plan(&plan));
    let gpu = r.gpu();
    assert_eq!(gpu.renderbuffer.life, Lifetime::Live);
    assert_eq!(gpu.renderbuffer.storage, Some(s));
    assert_eq!(gpu.renderbuffer.content, None);
    assert_eq!(gpu.compute.surface.size, size(1, 1));
    assert_eq!(gpu.presentation.surface.size, s);
    assert!(gpu.compute.framebuffer.attached);
    assert!(gpu.presentation.framebuffer.attached);
    assert_eq!(gpu.compute.framebuffer.life, Lifetime::Live);
    assert_eq!(gpu.presentation.framebuffer.life, Lifetime::Live);
    assert_eq!(gpu.presentation.viewport, Some(full(800, 600)));
    assert_eq!(gpu.compute.viewport, None);
    assert_eq!(gpu.compute.draw, Target::Own);
    assert_eq!(gpu.presentation.draw, Target::Default);
    assert_eq!(gpu.presentation.read, Target::Own);
    assert_eq!(r.size(), s);
    assert_eq!(r.clear_color(), pink());
    assert_eq!(r.phase(), Phase::Running);
    assert_eq!(r.current(), None);
}

#[test]
fn initial_frame_800_600() {
    let (mut r, _) = Renderer::start(size(800, 600), pink()).unwrap();
    let plan = r.handle(Event::RedrawRequested).unwrap();
    assert_eq!(plan, frame(800, 600, pink()));
    assert!(check_plan(&plan));
    let gpu = r.gpu();
    assert_eq!(gpu.renderbuffer.content, Some(pink()));
    assert_eq!(gpu.presentation.surface.size, size(800, 600));
    assert_eq!(
        gpu.presentation.surface.shown,
        Some(Image { area: full(800, 600), color: pink() })
    );
    assert_eq!(gpu.presentation.surface.pending, None);
    assert_eq!(r.current(), None);
}

#[test]
fn frame_at_64_64_shows_clear_colour() {
    let (mut r, _) = Renderer::start(size(64, 64), pink()).unwrap();
    let plan = r.redraw().unwrap();
    assert_eq!(plan, frame(64, 64, pink()));
    assert_eq!(
        r.gpu().presentation.surface.shown,
        Some(Image { area: full(64, 64), color: pink() })
    );
}

#[test]
fn resize_reallocates_once_and_sets_both_viewports() {
    let (mut r, _) = Renderer::start(size(800, 600), pink()).unwrap();
    let plan = r.resize(400, 300).unwrap();
    let s = size(400, 300);
    assert_eq!(
        plan,
        vec![
            Command::Acquire(P),
            Command::ResizeSurface { context: P, size: s },
            Command::Present { context: P },
            Command::AllocateStorage { context: P, size: s },
            Command::CheckFramebuffer { context: P, point: BindPoint::Read },
            Command::SetViewport { context: P, area: full(400, 300) },
            Command::Release(P),
            Command::Acquire(C),
            Command::ResizeSurface { context: C, size: s },
            Command::Present { context: C },
            Command::SetViewport { context: C, area: full(400, 300) },
            Command::Release(C),
            Command::RequestRedraw,
        ]
    );
    assert!(check_plan(&plan));
    let allocations =
        plan.iter().filter(|c| matches!(c, Command::AllocateStorage { .. })).count();
    assert_eq!(allocations, 1);
    let gpu = r.gpu();
    assert_eq!(gpu.renderbuffer.storage, Some(s));
    assert_eq!(gpu.presentation.viewport, Some(full(400, 300)));
    assert_eq!(gpu.compute.viewport, Some(full(400, 300)));
    assert_eq!(gpu.presentation.surface.size, s);
    assert_eq!(gpu.compute.surface.size, s);
    assert_eq!(gpu.presentation.surface.shown, None);
    assert_eq!(r.size(), s);
    assert_eq!(r.current(), None);
}

#[test]
fn resize_mid_run() {
    let (mut r, _) = Renderer::start(size(800, 600), pink()).unwrap();
    r.handle(Event::RedrawRequested).unwrap();
    let plan = r.handle(Event::WindowResized { width: 400, height: 300 }).unwrap();
    assert_eq!(plan.last(), Some(&Command::RequestRedraw));
    let plan = r.handle(Event::RedrawRequested).unwrap();
    assert_eq!(plan, frame(400, 300, pink()));
    let gpu = r.gpu();
    assert_eq!(gpu.renderbuffer.storage, Some(size(400, 300)));
    assert_eq!(gpu.presentation.surface.size, size(400, 300));
    assert_eq!(
        gpu.presentation.surface.shown,
        Some(Image { area: full(400, 300), color: pink() })
    );
}

#[test]
fn resize_to_same_size_reallocates() {
    let (mut r, _) = Renderer::start(size(10, 20), pink()).unwrap();
    r.redraw().unwrap();
    let plan = r.resize(10, 20).unwrap();
    assert!(plan.contains(&Command::AllocateStorage { context: P, size: size(10, 20) }));
    assert_eq!(r.gpu().renderbuffer.content, None);
    assert_eq!(r.gpu().renderbuffer.storage, Some(size(10, 20)));
}

#[test]
fn close_stops_draws_and_tears_down() {
    let (mut r, _) = Renderer::start(size(800, 600), pink()).unwrap();
    r.handle(Event::RedrawRequested).unwrap();
    assert_eq!(r.handle(Event::CloseRequested), Ok(vec![Command::Exit]));
    assert_eq!(r.phase(), Phase::Closing);
    assert_eq!(r.handle(Event::RedrawRequested), Ok(Vec::new()));
    assert_eq!(r.handle(Event::WindowResized { width: 5, height: 5 }), Ok(Vec::new()));
    assert_eq!(r.size(), size(800, 600));
    let plan = r.handle(Event::LoopTerminating);
    assert_ne!(plan, Err(Error::StuckContext));
    assert_eq!(plan, Ok(teardown()));
    assert_eq!(r.phase(), Phase::TornDown);
    assert_eq!(r.current(), None);
}

#[test]
fn teardown_deletes_renderbuffer_once() {
    let (mut r, _) = Renderer::start(size(32, 32), pink()).unwrap();
    let plan = r.teardown().unwrap();
    assert_eq!(plan, teardown());
    assert!(check_plan(&plan));
    let deletions =
        plan.iter().filter(|c| matches!(c, Command::DeleteRenderbuffer { .. })).count();
    assert_eq!(deletions, 1);
    let gpu = r.gpu();
    assert_eq!(gpu.renderbuffer.life, Lifetime::Deleted);
    assert_eq!(gpu.presentation.framebuffer.life, Lifetime::Deleted);
    assert_eq!(gpu.compute.framebuffer.life, Lifetime::Deleted);
    assert_eq!(r.teardown(), Ok(Vec::new()));
    assert_eq!(r.gpu(), gpu);
}

#[test]
fn nothing_after_teardown() {
    let (mut r, _) = Renderer::start(size(32, 32), pink()).unwrap();
    r.handle(Event::LoopTerminating).unwrap();
    assert_eq!(r.handle(Event::RedrawRequested), Ok(Vec::new()));
    assert_eq!(r.handle(Event::WindowResized { width: 9, height: 9 }), Ok(Vec::new()));
    assert_eq!(r.handle(Event::CloseRequested), Ok(Vec::new()));
    assert_eq!(r.handle(Event::LoopTerminating), Ok(Vec::new()));
    assert_eq!(r.phase(), Phase::TornDown);
}

#[test]
fn close_twice_keeps_closing() {
    let (mut r, _) = Renderer::start(size(32, 32), pink()).unwrap();
    assert_eq!(r.close(), vec![Command::Exit]);
    assert_eq!(r.close(), vec![Command::Exit]);
    assert_eq!(r.phase(), Phase::Closing);
}

#[test]
fn broken_plans_are_detected() {
    assert!(check_plan(&Vec::new()));
    assert!(check_plan(&vec![Command::RequestRedraw, Command::Exit]));
    assert!(!check_plan(&vec![Command::Acquire(P)]));
    assert!(!check_plan(&vec![Command::Acquire(P), Command::Acquire(C)]));
    assert!(!check_plan(&vec![Command::Acquire(P), Command::Release(C)]));
    assert!(!check_plan(&vec![Command::Release(P)]));
    assert!(!check_plan(&vec![Command::Present { context: P }]));
    assert!(!check_plan(&vec![
        Command::Acquire(P),
        Command::Present { context: C },
        Command::Release(P),
    ]));
    assert!(check_plan(&vec![
        Command::Acquire(P),
        Command::Present { context: P },
        Command::Release(P),
    ]));
}

#[test]
fn failed_command_owes_release() {
    let plan = frame(8, 8, pink());
    assert_eq!(unwind(&plan, 0), None);
    assert_eq!(unwind(&plan, 1), Some(Command::Release(C)));
    assert_eq!(unwind(&plan, 2), Some(Command::Release(C)));
    assert_eq!(unwind(&plan, 3), None);
    assert_eq!(unwind(&plan, 4), None);
    assert_eq!(unwind(&plan, 7), Some(Command::Release(P)));
    assert_eq!(unwind(&plan, 8), None);
    assert_eq!(unwind(&plan, 9), None);
}

#[test]
fn failures_by_command() {
    assert_eq!(Command::Present { context: P }.failure(), Some(Error::SwapFailed));
    assert_eq!(
        Command::CheckFramebuffer { context: C, point: BindPoint::Draw }.failure(),
        Some(Error::FramebufferIncomplete)
    );
    assert_eq!(Command::Release(C).failure(), Some(Error::StuckContext));
    assert_eq!(Command::Acquire(C).failure(), None);
    assert_eq!(Command::Clear { context: C, color: pink() }.failure(), None);
    assert_eq!(Command::RequestRedraw.failure(), None);
}

#[test]
fn command_contexts() {
    assert_eq!(Command::Acquire(P).context(), None);
    assert_eq!(Command::Exit.context(), None);
    assert_eq!(Command::Blit { context: P, area: full(1, 1) }.context(), Some(P));
    assert_eq!(Command::DeleteRenderbuffer { context: P }.context(), Some(P));
    assert_eq!(Command::CreateRenderbuffer { context: C }.context(), Some(C));
}
