use gtk_shell::geom::{DpRect, DpSize, PxRect, PxSize};
use gtk_shell::ShellError;
use gtk_shell::window::{
    DeferredOp, IdleKind, IdleToken, RenderGate, StartupStep, WindowBuilder, WindowOp,
    WindowSizeState, interpret_window_state, timer_delay, timer_repeat_after_fire,
    window_state_transition,
};

type Core = gtk_shell::window::WindowCore<u32, u32>;

fn built_core(reported: i64) -> Core {
    let mut b = WindowBuilder::<u8>::new();
    b.set_handler(0u8);
    b.set_size(DpSize::from_whole_dp(500, 400));
    match b.build::<u32, u32>(reported, reported, false) {
        Ok(c) => c.core,
        Err(_) => panic!("build failed"),
    }
}

#[test]
fn build_without_handler_is_refused() {
    let b = WindowBuilder::<u8>::new();
    let r = b.build::<u32, u32>(1, 1, false);
    assert!(matches!(r, Err(ShellError::HandlerMissing)));
}

#[test]
fn build_wires_initial_state_and_startup_order() {
    let mut b = WindowBuilder::<u8>::new();
    b.set_handler(7u8);
    b.set_size(DpSize::from_whole_dp(500, 400));
    let c = match b.build::<u32, u32>(1, 1, false) {
        Ok(c) => c,
        Err(_) => panic!("build failed"),
    };
    assert_eq!(c.handler, 7u8);
    assert_eq!(c.core.area_px, PxSize { width: 500, height: 400 });
    assert!(!c.core.surface_present);
    assert!(!c.core.handler_held);
    assert!(c.core.idle_queue.is_empty());
    assert!(c.core.deferred.is_empty());
    assert_eq!(c.init.size_px, PxSize { width: 500, height: 400 });
    assert_eq!(
        c.init.startup,
        vec![StartupStep::Connect, StartupStep::NotifyScale, StartupStep::NotifySize]
    );
}

#[test]
fn reentrant_handler_attempt_is_refused_and_harmless() {
    let mut core = built_core(1);
    assert!(core.try_begin_handler());
    let queue_before = core.deferred.len();
    let idle_before = core.idle_queue.len();
    assert!(!core.try_begin_handler());
    assert!(core.handler_held);
    assert_eq!(core.deferred.len(), queue_before);
    assert_eq!(core.idle_queue.len(), idle_before);
    let _ = core.end_handler();
    assert!(!core.handler_held);
    assert!(core.try_begin_handler());
    let _ = core.end_handler();
}

#[test]
fn invalidations_accumulate_snapped_and_drain_once() {
    let mut core = built_core(2);
    assert_eq!(core.scale.x, 2);
    // 0.5dp..1.5dp at scale 2 snaps outward to pixels 1..3.
    assert!(core.invalidate_rect(DpRect::new(128, 128, 384, 384)));
    assert!(core.invalidate_rect(DpRect::new(0, 0, 256, 256)));
    let region = core.take_invalid();
    assert_eq!(
        region.rects(),
        &vec![
            PxRect { x0: 1, y0: 1, x1: 3, y1: 3 },
            PxRect { x0: 0, y0: 0, x1: 2, y1: 2 },
        ]
    );
    // The accumulator is empty immediately after the swap.
    assert!(core.invalid.rects().is_empty());
    let next = core.take_invalid();
    assert!(next.rects().is_empty());
}

#[test]
fn empty_invalidation_rectangles_are_dropped() {
    let mut core = built_core(1);
    assert!(core.invalidate_rect(DpRect::new(256, 256, 256, 512)));
    assert!(core.invalid.rects().is_empty());
}

#[test]
fn empty_region_clips_to_whole_area() {
    let core = built_core(1);
    let clips = core.invalid.clip_rects(core.area_px);
    assert_eq!(clips, vec![PxRect { x0: 0, y0: 0, x1: 500, y1: 400 }]);
}

#[test]
fn timer_delay_clamps_to_zero() {
    assert_eq!(timer_delay(100, 100), 0);
    assert_eq!(timer_delay(100, 40), 0);
    assert_eq!(timer_delay(40, 100), 60);
}

#[test]
fn timer_retries_only_while_undelivered() {
    assert!(!timer_repeat_after_fire(true));
    assert!(timer_repeat_after_fire(false));
}

#[test]
fn timer_tokens_are_fresh() {
    let mut core = built_core(1);
    let a = core.next_timer_token();
    let b = core.next_timer_token();
    assert_ne!(a, b);
}

#[test]
fn idle_work_enqueued_during_drain_is_delivered_next_drain() {
    let mut core = built_core(1);
    assert!(core.enqueue_idle(IdleKind::Token(IdleToken(1))));
    assert!(!core.enqueue_idle(IdleKind::Token(IdleToken(2))));
    assert!(core.try_begin_handler());
    let first = core.take_idle();
    let drained: Vec<u64> = first
        .iter()
        .map(|k| match k {
            IdleKind::Token(t) => t.0,
            IdleKind::Callback(_) => panic!("no callbacks queued"),
        })
        .collect();
    assert_eq!(drained, vec![1, 2]);
    // Enqueued while the drain is in progress: lands in the fresh queue and
    // asks for a new drain to be scheduled.
    assert!(core.enqueue_idle(IdleKind::Token(IdleToken(3))));
    let leftover = core.take_idle();
    assert_eq!(leftover.len(), 1);
    assert!(matches!(leftover[0], IdleKind::Token(IdleToken(3))));
    let _ = core.end_handler();
    assert!(core.idle_queue.is_empty());
}

#[test]
fn open_file_is_deferred_until_handler_returns() {
    let mut core = built_core(1);
    assert!(core.try_begin_handler());
    let tok = core.open_file(42u32);
    // Still inside the handler call: the dialog has not run; it is only
    // queued.
    assert_eq!(core.deferred.len(), 1);
    let ops = core.end_handler();
    assert_eq!(ops.len(), 1);
    assert!(matches!(ops[0], DeferredOp::Open(42, t) if t == tok));
    assert!(core.deferred.is_empty());
    // A second drain hands back nothing: the dialog ran exactly once.
    assert!(core.try_begin_handler());
    let again = core.end_handler();
    assert!(again.is_empty());
}

#[test]
fn save_as_and_context_menu_keep_fifo_order() {
    let mut core = built_core(1);
    assert!(core.try_begin_handler());
    let t1 = core.open_file(1u32);
    let t2 = core.save_as(2u32);
    assert_ne!(t1, t2);
    core.show_context_menu(gtk_shell::menu::Menu::new_for_popup());
    let ops = core.end_handler();
    assert_eq!(ops.len(), 3);
    assert!(matches!(ops[0], DeferredOp::Open(1, _)));
    assert!(matches!(ops[1], DeferredOp::SaveAs(2, _)));
    assert!(matches!(ops[2], DeferredOp::ContextMenu(_)));
}

#[test]
fn surface_requests_are_bucketed() {
    let mut core = built_core(1);
    let realloc = core.resize_surface(500, 400);
    assert_eq!(realloc, Some(PxSize { width: 512, height: 512 }));
    core.set_surface_state(true);
    // A one-pixel growth stays inside the bucket: no reallocation.
    assert_eq!(core.resize_surface(501, 401), None);
    // Growing past the bucket boundary reallocates.
    assert_eq!(core.resize_surface(513, 400), Some(PxSize { width: 768, height: 512 }));
}

#[test]
fn render_gate_requires_surface_and_free_handler() {
    let mut core = built_core(1);
    assert_eq!(core.begin_render(), RenderGate::NoSurface);
    core.set_surface_state(true);
    assert!(core.try_begin_handler());
    assert_eq!(core.begin_render(), RenderGate::Busy);
    let _ = core.end_handler();
    assert_eq!(core.begin_render(), RenderGate::Render);
    // The render section counts as a handler call for the fence.
    assert!(!core.try_begin_handler());
    core.end_render();
    assert!(core.try_begin_handler());
    let _ = core.end_handler();
}

#[test]
fn scale_updates_are_clamped_and_detected() {
    let mut core = built_core(1);
    assert!(!core.update_scale(1, 1));
    assert!(core.update_scale(2, 2));
    assert_eq!(core.scale.x, 2);
    // A nonsensical report clamps to the unit factor.
    assert!(core.update_scale(0, -3));
    assert_eq!((core.scale.x, core.scale.y), (1, 1));
}

#[test]
fn layout_check_fires_on_size_scale_or_missing_surface() {
    let mut core = built_core(1);
    // No surface yet: always relayout.
    assert!(core.layout_check(500, 400, false));
    core.set_surface_state(true);
    assert!(!core.layout_check(500, 400, false));
    assert!(core.layout_check(500, 400, true));
    assert!(core.layout_check(640, 400, false));
    assert_eq!(core.area_px, PxSize { width: 640, height: 400 });
}

#[test]
fn key_repeat_follows_last_unreleased_press() {
    let mut core = built_core(1);
    assert!(!core.key_pressed(65307));
    assert!(core.key_pressed(65307));
    core.key_released(65288);
    // Releasing a different key leaves the repeat cell alone.
    assert!(core.key_pressed(65307));
    core.key_released(65307);
    assert!(!core.key_pressed(65307));
}

#[test]
fn close_request_is_recorded() {
    let mut core = built_core(1);
    assert!(!core.closing);
    core.close();
    assert!(core.closing);
}

#[test]
fn window_state_transitions_match_the_table() {
    let maxi = WindowSizeState::Maximized;
    let mini = WindowSizeState::Minimized;
    let rest = WindowSizeState::Restored;
    assert_eq!(window_state_transition(maxi, maxi), None);
    assert_eq!(window_state_transition(maxi, rest), Some(WindowOp::Maximize));
    assert_eq!(window_state_transition(mini, rest), Some(WindowOp::Minimize));
    assert_eq!(window_state_transition(rest, maxi), Some(WindowOp::Unmaximize));
    assert_eq!(window_state_transition(rest, mini), Some(WindowOp::Unminimize));
}

#[test]
fn window_state_reads_back_defensively() {
    assert_eq!(interpret_window_state(false, false), WindowSizeState::Restored);
    assert_eq!(interpret_window_state(true, true), WindowSizeState::Maximized);
    assert_eq!(interpret_window_state(true, false), WindowSizeState::Minimized);
}
