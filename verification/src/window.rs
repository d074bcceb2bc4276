//! The window lifecycle and event-dispatch state machine.
//!
//! [`WindowCore`] owns every decision the window makes on plain values: the
//! cached scale, the logical area, the surface-size bucket, the invalidated
//! region, the idle and deferred queues, key-repeat tracking and token
//! allocation. The embedder owns the native window, the client handler and
//! the event loop; it drives this state machine and performs the native
//! actions the methods hand back.
//!
//! Re-entrancy is the central hazard: a handler callback may itself call
//! back into the window (invalidate, defer a dialog, enqueue idle work). The
//! fence methods [`WindowCore::try_begin_handler`] and
//! [`WindowCore::end_handler`] guard every handler invocation: a call that
//! finds the state already exclusively held is refused outright — skipped,
//! never blocked on — and every successful call drains the deferred queue at
//! one well-defined point, immediately after the handler returns.

use vstd::prelude::*;
use crate::ShellError;
use crate::geom::{DpPoint, DpRect, DpSize, MAX_SURFACE_EXTENT, PxRect, PxSize, Scale, snap_rect,
    snapped, size_to_px, spec_next_size, next_size};
use crate::menu::Menu;
use crate::region::{Region, spec_add};

verus! {

/// Identifies one timer request.
#[derive(Clone, Copy, PartialEq, Eq, Structural, Debug)]
pub struct TimerToken(pub u64);

/// Correlates a file-dialog request with the callback that answers it.
#[derive(Clone, Copy, PartialEq, Eq, Structural, Debug)]
pub struct FileDialogToken(pub u64);

/// An opaque token the client asks to have redelivered by an idle drain.
#[derive(Clone, Copy, PartialEq, Eq, Structural, Debug)]
pub struct IdleToken(pub u64);

/// One queued piece of idle work: a one-shot callback value, or a token to
/// redeliver to the handler. The callback payload is the embedder's type;
/// this core only stores and orders it.
pub enum IdleKind<C> {
    Callback(C),
    Token(IdleToken),
}

/// A window operation that must not run while a handler call is on the
/// stack: it is queued and executed only after the handler returns. The
/// dialog-options payload is the embedder's type.
pub enum DeferredOp<O> {
    /// Show an open-file dialog and answer with the token.
    Open(O, FileDialogToken),
    /// Show a save-file dialog and answer with the token.
    SaveAs(O, FileDialogToken),
    /// Show the menu as a context popup.
    ContextMenu(Menu),
}

/// The stacking level a window asks for.
#[derive(Clone, Copy, PartialEq, Eq, Structural, Debug)]
pub enum WindowLevel {
    AppWindow,
    Tooltip,
    DropDown,
    Modal,
}

/// The maximize/minimize state of a window.
#[derive(Clone, Copy, PartialEq, Eq, Structural, Debug)]
pub enum WindowSizeState {
    Maximized,
    Minimized,
    Restored,
}

/// A native window-state operation the embedder must perform.
#[derive(Clone, Copy, PartialEq, Eq, Structural, Debug)]
pub enum WindowOp {
    Maximize,
    Minimize,
    Unmaximize,
    Unminimize,
}

/// Whether the paint cycle may enter its render section.
#[derive(Clone, Copy, PartialEq, Eq, Structural, Debug)]
pub enum RenderGate {
    /// Render: the handler and surface are now held for painting.
    Render,
    /// No backing surface exists; skip painting and log, never paint
    /// without a surface.
    NoSurface,
    /// A handler call is already active; skip.
    Busy,
}

/// The state machine at the heart of one window.
pub struct WindowCore<C, O> {
    /// The cached px-per-dp factor, re-checked on every paint.
    pub scale: Scale,
    /// The window's current area in physical pixels.
    pub area_px: PxSize,
    /// Whether the window was built transparent.
    pub transparent: bool,
    /// Set when the client asks to close; close requests from the system
    /// are honored only once this is set.
    pub closing: bool,
    /// Whether a backing surface currently exists.
    pub surface_present: bool,
    /// The bucketed size the surface was last allocated at.
    pub surface_size: PxSize,
    /// The invalidated region awaiting the next paint.
    pub invalid: Region,
    /// Set while a handler call is active.
    pub handler_held: bool,
    /// Set while the paint cycle's render section holds the surface.
    pub surface_held: bool,
    /// Set while the invalid region is exclusively held.
    pub invalid_held: bool,
    /// Idle work in FIFO order.
    pub idle_queue: Vec<IdleKind<C>>,
    /// Deferred operations in FIFO order.
    pub deferred: Vec<DeferredOp<O>>,
    /// The raw key value of the last unreleased press, for repeat detection.
    pub last_keyval: Option<u32>,
    /// The next timer token to hand out.
    pub next_timer: u64,
    /// The next file-dialog token to hand out.
    pub next_dialog: u64,
}

impl<C, O> WindowCore<C, O> {
    /// The cached scale stays in the range the clamp established.
    pub open spec fn wf(self) -> bool {
        self.scale.wf()
    }

    /// Tries to enter a handler call. A re-entrant attempt — one made while
    /// a handler call is already active or the paint state is exclusively
    /// held — is always refused and leaves the state exactly as it was: the
    /// caller drops the event rather than deadlock, and nothing is
    /// corrupted. This check is advisory and fails open by skipping, never
    /// by waiting, because the loop is single-threaded and waiting would
    /// deadlock.
    pub fn try_begin_handler(&mut self) -> (ok: bool)
        ensures
            ok == !(old(self).handler_held || old(self).surface_held || old(self).invalid_held),
            ok ==> *final(self) == (WindowCore { handler_held: true, ..*old(self) }),
            !ok ==> *final(self) == *old(self),
    {
        if self.handler_held || self.surface_held || self.invalid_held {
            false
        } else {
            self.handler_held = true;
            true
        }
    }

    /// Leaves a handler call and drains the deferred-operation queue: the
    /// queued operations are handed back in submission order, exactly once,
    /// strictly after the handler call that queued them has returned. The
    /// embedder performs each one and delivers its outcome through a fresh
    /// handler call.
    pub fn end_handler(&mut self) -> (ops: Vec<DeferredOp<O>>)
        requires
            old(self).handler_held,
        ensures
            ops@ == old(self).deferred@,
            final(self).deferred@ == Seq::<DeferredOp<O>>::empty(),
            *final(self) == (WindowCore {
                handler_held: false,
                deferred: final(self).deferred,
                ..*old(self)
            }),
    {
        self.handler_held = false;
        let mut ops: Vec<DeferredOp<O>> = Vec::new();
        core::mem::swap(&mut ops, &mut self.deferred);
        ops
    }

    /// Tries to enter the paint cycle's render section, which holds the
    /// surface and the handler together while the client paints. Painting
    /// is skipped when a handler call is already active, and never happens
    /// without a backing surface.
    pub fn begin_render(&mut self) -> (gate: RenderGate)
        ensures
            old(self).handler_held ==> gate == RenderGate::Busy && *final(self) == *old(self),
            !old(self).handler_held && !old(self).surface_present ==> gate == RenderGate::NoSurface
                && *final(self) == *old(self),
            !old(self).handler_held && old(self).surface_present ==> gate == RenderGate::Render
                && *final(self) == (WindowCore {
                handler_held: true,
                surface_held: true,
                ..*old(self)
            }),
    {
        if self.handler_held {
            RenderGate::Busy
        } else if !self.surface_present {
            RenderGate::NoSurface
        } else {
            self.handler_held = true;
            self.surface_held = true;
            RenderGate::Render
        }
    }

    /// Leaves the render section. The deferred queue is deliberately not
    /// drained here: work deferred during painting runs after the next
    /// fenced handler call, never with the surface still held.
    pub fn end_render(&mut self)
        requires
            old(self).handler_held,
            old(self).surface_held,
        ensures
            *final(self) == (WindowCore { handler_held: false, surface_held: false, ..*old(self) }),
    {
        self.handler_held = false;
        self.surface_held = false;
    }

    /// Unions one invalidation rectangle, given in display points, into the
    /// accumulated region: the rectangle is snapped outward to whole pixels
    /// at the current scale, so partially covered pixels are always
    /// included. Returns whether the rectangle was accepted — the embedder
    /// then queues a native redraw. While the region is exclusively held
    /// the attempt is dropped with a warning instead: lossy, but a later
    /// invalidation or forced full repaint recovers.
    pub fn invalidate_rect(&mut self, r: DpRect) -> (accepted: bool)
        requires
            r.wf(),
            old(self).wf(),
        ensures
            accepted == !old(self).invalid_held,
            accepted ==> final(self).invalid@ == spec_add(
                old(self).invalid@,
                snapped(r, old(self).scale),
            ),
            accepted ==> *final(self) == (WindowCore { invalid: final(self).invalid, ..*old(self) }),
            !accepted ==> *final(self) == *old(self),
    {
        if self.invalid_held {
            false
        } else {
            let px = snap_rect(&r, &self.scale);
            self.invalid.add_rect(px);
            true
        }
    }

    /// Invalidates the whole current area, in whole pixels.
    pub fn invalidate_full(&mut self) -> (accepted: bool)
        requires
            old(self).wf(),
        ensures
            accepted == !old(self).invalid_held,
            accepted ==> final(self).invalid@ == spec_add(
                old(self).invalid@,
                PxRect {
                    x0: 0,
                    y0: 0,
                    x1: old(self).area_px.width,
                    y1: old(self).area_px.height,
                },
            ),
            accepted ==> *final(self) == (WindowCore { invalid: final(self).invalid, ..*old(self) }),
            !accepted ==> *final(self) == *old(self),
    {
        if self.invalid_held {
            false
        } else {
            let px = PxRect { x0: 0, y0: 0, x1: self.area_px.width, y1: self.area_px.height };
            self.invalid.add_rect(px);
            true
        }
    }

    /// Atomically swaps the accumulated region out for an empty one and
    /// hands it to the paint cycle: the accumulator is empty immediately
    /// after, so invalidations arriving during painting start a fresh cycle
    /// rather than being lost or painted twice. If the region is
    /// exclusively held, painting proceeds with an empty region and the
    /// accumulator is left alone.
    pub fn take_invalid(&mut self) -> (r: Region)
        ensures
            !old(self).invalid_held ==> r@ == old(self).invalid@ && final(self).invalid@
                == Seq::<PxRect>::empty() && *final(self) == (WindowCore {
                invalid: final(self).invalid,
                ..*old(self)
            }),
            old(self).invalid_held ==> r@ == Seq::<PxRect>::empty() && *final(self) == *old(self),
    {
        if self.invalid_held {
            Region::empty()
        } else {
            self.invalid.take()
        }
    }

    /// Re-reads the platform's reported per-axis scale factors on a paint
    /// callback. When the derived scale differs from the cache, the cache
    /// is updated and the embedder must notify the handler of the new scale
    /// and treat the paint as a resize.
    pub fn update_scale(&mut self, reported_x: i64, reported_y: i64) -> (changed: bool)
        ensures
            final(self).scale == (Scale {
                x: Scale::spec_clamp_factor(reported_x as int) as u32,
                y: Scale::spec_clamp_factor(reported_y as int) as u32,
            }),
            final(self).scale.wf(),
            changed == (final(self).scale != old(self).scale),
            *final(self) == (WindowCore { scale: final(self).scale, ..*old(self) }),
    {
        let reported = Scale::from_reported(reported_x, reported_y);
        if reported.x != self.scale.x || reported.y != self.scale.y {
            self.scale = reported;
            true
        } else {
            self.scale = reported;
            false
        }
    }

    /// The paint cycle's resize test: the window needs a fresh layout when
    /// no surface exists, the scale just changed, or the painted size
    /// differs from the cached area. When it does, the cached area is
    /// updated and the embedder must resize the surface, notify the handler
    /// of the new size, and invalidate the full new area.
    pub fn layout_check(&mut self, width: i64, height: i64, scale_changed: bool) -> (changed: bool)
        requires
            0 <= width <= MAX_SURFACE_EXTENT,
            0 <= height <= MAX_SURFACE_EXTENT,
        ensures
            changed == (!old(self).surface_present || scale_changed || old(self).area_px != (
            PxSize { width, height })),
            changed ==> *final(self) == (WindowCore {
                area_px: PxSize { width, height },
                ..*old(self)
            }),
            !changed ==> *final(self) == *old(self),
    {
        let same = self.area_px.width == width && self.area_px.height == height;
        if !self.surface_present || scale_changed || !same {
            self.area_px = PxSize { width, height };
            true
        } else {
            false
        }
    }

    /// Decides whether the backing surface must be reallocated for the
    /// given pixel size. Requested extents are rounded up to their bucket,
    /// so a one-pixel change reuses the allocation; reallocation happens
    /// only when no surface exists or the bucketed size changed. The
    /// returned size is what the embedder must allocate; until it confirms
    /// with [`WindowCore::set_surface_state`], no surface is present.
    pub fn resize_surface(&mut self, width: i64, height: i64) -> (realloc: Option<PxSize>)
        requires
            0 <= width <= MAX_SURFACE_EXTENT,
            0 <= height <= MAX_SURFACE_EXTENT,
        ensures
            realloc == (if !old(self).surface_present || old(self).surface_size != (PxSize {
                width: spec_next_size(width as int) as i64,
                height: spec_next_size(height as int) as i64,
            }) {
                Some(PxSize {
                    width: spec_next_size(width as int) as i64,
                    height: spec_next_size(height as int) as i64,
                })
            } else {
                None::<PxSize>
            }),
            realloc is Some ==> *final(self) == (WindowCore {
                surface_present: false,
                surface_size: realloc->0,
                ..*old(self)
            }),
            realloc is None ==> *final(self) == *old(self),
    {
        let bw = next_size(width);
        let bh = next_size(height);
        let same = self.surface_size.width == bw && self.surface_size.height == bh;
        if !self.surface_present || !same {
            self.surface_size = PxSize { width: bw, height: bh };
            self.surface_present = false;
            Some(PxSize { width: bw, height: bh })
        } else {
            None
        }
    }

    /// Records whether the embedder's surface allocation succeeded. On
    /// failure the window simply has no surface: painting is skipped until
    /// a later resize retries.
    pub fn set_surface_state(&mut self, present: bool)
        ensures
            *final(self) == (WindowCore { surface_present: present, ..*old(self) }),
    {
        self.surface_present = present;
    }

    /// Appends idle work to the queue in FIFO order. Returns whether the
    /// queue was empty before — only then must the embedder schedule a
    /// drain on the native loop, so a drain is never armed twice.
    pub fn enqueue_idle(&mut self, kind: IdleKind<C>) -> (schedule: bool)
        ensures
            schedule == (old(self).idle_queue@.len() == 0),
            final(self).idle_queue@ == old(self).idle_queue@.push(kind),
            *final(self) == (WindowCore { idle_queue: final(self).idle_queue, ..*old(self) }),
    {
        let was_empty = self.idle_queue.len() == 0;
        self.idle_queue.push(kind);
        was_empty
    }

    /// Swaps the idle queue out for an empty one, inside a fenced handler
    /// call, and hands back every queued item in FIFO order for delivery —
    /// each exactly once. Work enqueued while the drain runs lands in the
    /// fresh queue and is delivered by a subsequent drain, never lost. When
    /// the fence itself was refused, the embedder does not call this:
    /// it reschedules the whole drain after a short delay instead, so idle
    /// work survives re-entrancy without busy-spinning.
    pub fn take_idle(&mut self) -> (items: Vec<IdleKind<C>>)
        requires
            old(self).handler_held,
        ensures
            items@ == old(self).idle_queue@,
            final(self).idle_queue@ == Seq::<IdleKind<C>>::empty(),
            *final(self) == (WindowCore { idle_queue: final(self).idle_queue, ..*old(self) }),
    {
        let mut items: Vec<IdleKind<C>> = Vec::new();
        core::mem::swap(&mut items, &mut self.idle_queue);
        items
    }

    /// Queues an operation that would re-enter the native toolkit's modal
    /// machinery; it runs only when [`WindowCore::end_handler`] drains the
    /// queue, strictly after the current handler call has returned.
    pub fn defer(&mut self, op: DeferredOp<O>)
        ensures
            final(self).deferred@ == old(self).deferred@.push(op),
            *final(self) == (WindowCore { deferred: final(self).deferred, ..*old(self) }),
    {
        self.deferred.push(op);
    }

    /// Asks for an open-file dialog: allocates a fresh token and queues the
    /// dialog as a deferred operation. The dialog is never shown inside the
    /// current handler call; it is handed back by the next
    /// [`WindowCore::end_handler`] and shown exactly once, and its outcome
    /// is delivered to the handler with this token.
    pub fn open_file(&mut self, options: O) -> (tok: FileDialogToken)
        requires
            old(self).next_dialog < u64::MAX,
        ensures
            tok == FileDialogToken(old(self).next_dialog),
            final(self).deferred@ == old(self).deferred@.push(DeferredOp::Open(options, tok)),
            *final(self) == (WindowCore {
                next_dialog: (old(self).next_dialog + 1) as u64,
                deferred: final(self).deferred,
                ..*old(self)
            }),
    {
        let tok = FileDialogToken(self.next_dialog);
        self.next_dialog = self.next_dialog + 1;
        self.deferred.push(DeferredOp::Open(options, tok));
        tok
    }

    /// Asks for a save-file dialog; queued like [`WindowCore::open_file`].
    pub fn save_as(&mut self, options: O) -> (tok: FileDialogToken)
        requires
            old(self).next_dialog < u64::MAX,
        ensures
            tok == FileDialogToken(old(self).next_dialog),
            final(self).deferred@ == old(self).deferred@.push(DeferredOp::SaveAs(options, tok)),
            *final(self) == (WindowCore {
                next_dialog: (old(self).next_dialog + 1) as u64,
                deferred: final(self).deferred,
                ..*old(self)
            }),
    {
        let tok = FileDialogToken(self.next_dialog);
        self.next_dialog = self.next_dialog + 1;
        self.deferred.push(DeferredOp::SaveAs(options, tok));
        tok
    }

    /// Queues a context-menu popup as a deferred operation, so the popup
    /// never opens with a handler call still on the stack.
    pub fn show_context_menu(&mut self, menu: Menu)
        ensures
            final(self).deferred@.len() == old(self).deferred@.len() + 1,
            final(self).deferred@.last() matches DeferredOp::ContextMenu(m) && menu_view_of(
                final(self).deferred@.last(),
            ) == crate::menu::menu_view(menu),
            final(self).deferred@.take(old(self).deferred@.len() as int) == old(self).deferred@,
            *final(self) == (WindowCore { deferred: final(self).deferred, ..*old(self) }),
    {
        self.deferred.push(DeferredOp::ContextMenu(menu));
        proof {
            assert(self.deferred@.take(old(self).deferred@.len() as int) =~= old(self).deferred@);
        }
    }

    /// Allocates a fresh timer token; tokens are never reused by one
    /// window.
    pub fn next_timer_token(&mut self) -> (tok: TimerToken)
        requires
            old(self).next_timer < u64::MAX,
        ensures
            tok == TimerToken(old(self).next_timer),
            *final(self) == (WindowCore {
                next_timer: (old(self).next_timer + 1) as u64,
                ..*old(self)
            }),
    {
        let tok = TimerToken(self.next_timer);
        self.next_timer = self.next_timer + 1;
        tok
    }

    /// Records a key press and reports whether it repeats the previous
    /// unreleased press of the same raw key value.
    pub fn key_pressed(&mut self, keyval: u32) -> (repeat: bool)
        ensures
            repeat == (old(self).last_keyval == Some(keyval)),
            *final(self) == (WindowCore { last_keyval: Some(keyval), ..*old(self) }),
    {
        let repeat = match self.last_keyval {
            Some(v) => v == keyval,
            None => false,
        };
        self.last_keyval = Some(keyval);
        repeat
    }

    /// Records a key release: the repeat cell is cleared only when the
    /// released raw key value matches the recorded press.
    pub fn key_released(&mut self, keyval: u32)
        ensures
            *final(self) == (WindowCore {
                last_keyval: (if old(self).last_keyval == Some(keyval) {
                    None
                } else {
                    old(self).last_keyval
                }),
                ..*old(self)
            }),
    {
        let clear = match self.last_keyval {
            Some(v) => v == keyval,
            None => false,
        };
        if clear {
            self.last_keyval = None;
        }
    }

    /// Records that the client asked to close the window, so the system's
    /// close request will be honored; the embedder closes the native
    /// window.
    pub fn close(&mut self)
        ensures
            *final(self) == (WindowCore { closing: true, ..*old(self) }),
    {
        self.closing = true;
    }
}

/// The spec-level menu tree carried by a deferred context-menu operation.
pub open spec fn menu_view_of<O>(op: DeferredOp<O>) -> Seq<crate::menu::MenuItemView> {
    match op {
        DeferredOp::ContextMenu(m) => crate::menu::menu_view(m),
        _ => Seq::empty(),
    }
}

/// The relative delay of a timer deadline from now, in milliseconds: zero
/// when the deadline is now or already past, never negative, so a timer
/// asked for the past fires as soon as the loop turns.
pub fn timer_delay(now_ms: u64, deadline_ms: u64) -> (delay: u64)
    ensures
        delay == (if deadline_ms <= now_ms {
            0u64
        } else {
            (deadline_ms - now_ms) as u64
        }),
{
    if deadline_ms <= now_ms {
        0
    } else {
        deadline_ms - now_ms
    }
}

/// Whether a fired timer must fire again. One-shot semantics are layered
/// over a repeating native timeout: the timeout stops as soon as the
/// handler processed the token, and repeats only when the handler was
/// unreachable because of re-entrancy, so the timer retries until
/// delivered.
pub fn timer_repeat_after_fire(delivered: bool) -> (repeat: bool)
    ensures
        repeat == !delivered,
{
    !delivered
}

/// The delay, in milliseconds, before a refused idle drain is retried: a
/// bounded backoff in place of a busy spin.
pub const IDLE_RETRY_DELAY_MS: u64 = 16;

/// The native operation that moves a window from its current
/// maximize/minimize state to the requested one; equal states need
/// nothing.
pub fn window_state_transition(target: WindowSizeState, current: WindowSizeState) -> (op: Option<
    WindowOp,
>)
    ensures
        op == (if target == current {
            None::<WindowOp>
        } else if target == WindowSizeState::Maximized {
            Some(WindowOp::Maximize)
        } else if target == WindowSizeState::Minimized {
            Some(WindowOp::Minimize)
        } else if current == WindowSizeState::Maximized {
            Some(WindowOp::Unmaximize)
        } else {
            Some(WindowOp::Unminimize)
        }),
{
    if target == current {
        None
    } else if target == WindowSizeState::Maximized {
        Some(WindowOp::Maximize)
    } else if target == WindowSizeState::Minimized {
        Some(WindowOp::Minimize)
    } else if current == WindowSizeState::Maximized {
        Some(WindowOp::Unmaximize)
    } else {
        Some(WindowOp::Unminimize)
    }
}

/// The maximize/minimize state read back from the platform: a window that
/// no longer exists reads as restored; a live one as maximized or, failing
/// that, minimized (the platform exposes no direct restored query).
pub fn interpret_window_state(alive: bool, is_maximized: bool) -> (s: WindowSizeState)
    ensures
        s == (if !alive {
            WindowSizeState::Restored
        } else if is_maximized {
            WindowSizeState::Maximized
        } else {
            WindowSizeState::Minimized
        }),
{
    if !alive {
        WindowSizeState::Restored
    } else if is_maximized {
        WindowSizeState::Maximized
    } else {
        WindowSizeState::Minimized
    }
}

/// The queue contents after items are enqueued one at a time, in order.
pub open spec fn spec_enqueue_all<C>(q: Seq<IdleKind<C>>, adds: Seq<IdleKind<C>>) -> Seq<
    IdleKind<C>,
>
    decreases adds.len(),
{
    if adds.len() == 0 {
        q
    } else {
        spec_enqueue_all(q, adds.drop_last()).push(adds.last())
    }
}

/// At-least-once, at-most-once idle delivery: a drain empties the queue and
/// delivers exactly what it held; whatever is enqueued while the drain runs
/// lands in the fresh queue, in order, and is exactly what the next drain
/// hands back — nothing lost, nothing delivered twice.
pub proof fn lemma_idle_redelivery<C>(adds: Seq<IdleKind<C>>)
    ensures
        spec_enqueue_all(Seq::<IdleKind<C>>::empty(), adds) == adds,
    decreases adds.len(),
{
    if adds.len() == 0 {
        assert(spec_enqueue_all(Seq::<IdleKind<C>>::empty(), adds) =~= adds);
    } else {
        lemma_idle_redelivery::<C>(adds.drop_last());
        assert(adds.drop_last().push(adds.last()) =~= adds);
    }
}

/// One-shot accumulator of window configuration; consumed by
/// [`WindowBuilder::build`].
pub struct WindowBuilder<H> {
    /// The client's window handler; building fails without one.
    pub handler: Option<H>,
    pub title: String,
    pub menu: Option<Menu>,
    pub size: DpSize,
    pub position: Option<DpPoint>,
    pub level: Option<WindowLevel>,
    pub size_state: Option<WindowSizeState>,
    pub min_size: Option<DpSize>,
    pub resizable: bool,
    pub show_titlebar: bool,
    pub transparent: bool,
}

/// One step of the fixed startup notification order.
#[derive(Clone, Copy, PartialEq, Eq, Structural, Debug)]
pub enum StartupStep {
    /// Hand the handler its window handle.
    Connect,
    /// Notify the handler of the initial scale.
    NotifyScale,
    /// Notify the handler of the initial logical size.
    NotifySize,
}

/// Everything the embedder needs to realize a built window natively.
pub struct WindowInit {
    pub title: String,
    /// The requested logical size.
    pub size_dp: DpSize,
    /// The physical default size: the logical size at the initial scale.
    pub size_px: PxSize,
    /// The physical minimum size, when a minimum was set.
    pub min_size_px: Option<PxSize>,
    pub resizable: bool,
    pub show_titlebar: bool,
    pub position: Option<DpPoint>,
    pub level: Option<WindowLevel>,
    pub size_state: Option<WindowSizeState>,
    /// The menu to attach as the window's menu bar, if any.
    pub menu: Option<Menu>,
    /// The initial scale derived from the platform's report.
    pub scale: Scale,
    /// The lifecycle notifications owed to the handler before the window
    /// shows, in this exact order: the handler learns the window exists,
    /// then its scale, then its size, before any paint or input event.
    pub startup: Vec<StartupStep>,
}

/// A successfully built window: its state machine, the client handler to
/// install, and the native realization plan.
pub struct WindowCreation<H, C, O> {
    pub core: WindowCore<C, O>,
    pub handler: H,
    pub init: WindowInit,
}

impl<H> WindowBuilder<H> {
    /// Builder inputs stay within scalable range.
    pub open spec fn wf(self) -> bool {
        &&& self.size.wf()
        &&& (self.min_size matches Some(m) ==> m.wf())
    }

    /// A builder with the default configuration: a resizable, decorated,
    /// opaque 500 by 400 point window with an empty title and no handler.
    pub fn new() -> (b: WindowBuilder<H>)
        ensures
            b.handler is None,
            b.title@ == Seq::<char>::empty(),
            b.menu is None,
            b.size == (DpSize { width: 128000i64, height: 102400i64 }),
            b.position is None,
            b.level is None,
            b.size_state is None,
            b.min_size is None,
            b.resizable,
            b.show_titlebar,
            !b.transparent,
            b.wf(),
    {
        WindowBuilder {
            handler: None,
            title: String::new(),
            menu: None,
            size: DpSize::from_whole_dp(500, 400),
            position: None,
            level: None,
            size_state: None,
            min_size: None,
            resizable: true,
            show_titlebar: true,
            transparent: false,
        }
    }

    /// Installs the client's handler; a window cannot be built without one.
    pub fn set_handler(&mut self, handler: H)
        ensures
            *final(self) == (WindowBuilder { handler: final(self).handler, ..*old(self) }),
            final(self).handler matches Some(h) && h == handler,
    {
        self.handler = Some(handler);
    }

    /// Sets the requested logical size.
    pub fn set_size(&mut self, size: DpSize)
        requires
            size.wf(),
        ensures
            *final(self) == (WindowBuilder { size, ..*old(self) }),
    {
        self.size = size;
    }

    /// Sets the minimum logical size.
    pub fn set_min_size(&mut self, size: DpSize)
        requires
            size.wf(),
        ensures
            *final(self) == (WindowBuilder { min_size: Some(size), ..*old(self) }),
    {
        self.min_size = Some(size);
    }

    /// Sets whether the window is resizable.
    pub fn resizable(&mut self, resizable: bool)
        ensures
            *final(self) == (WindowBuilder { resizable, ..*old(self) }),
    {
        self.resizable = resizable;
    }

    /// Sets whether the title bar is shown.
    pub fn show_titlebar(&mut self, show_titlebar: bool)
        ensures
            *final(self) == (WindowBuilder { show_titlebar, ..*old(self) }),
    {
        self.show_titlebar = show_titlebar;
    }

    /// Sets whether the window asks for transparency.
    pub fn set_transparent(&mut self, transparent: bool)
        ensures
            *final(self) == (WindowBuilder { transparent, ..*old(self) }),
    {
        self.transparent = transparent;
    }

    /// Sets the initial position, in display points.
    pub fn set_position(&mut self, position: DpPoint)
        ensures
            *final(self) == (WindowBuilder { position: Some(position), ..*old(self) }),
    {
        self.position = Some(position);
    }

    /// Sets the initial stacking level.
    pub fn set_level(&mut self, level: WindowLevel)
        ensures
            *final(self) == (WindowBuilder { level: Some(level), ..*old(self) }),
    {
        self.level = Some(level);
    }

    /// Sets the initial maximize/minimize state.
    pub fn set_window_state(&mut self, state: WindowSizeState)
        ensures
            *final(self) == (WindowBuilder { size_state: Some(state), ..*old(self) }),
    {
        self.size_state = Some(state);
    }

    /// Sets the window title.
    pub fn set_title(&mut self, title: String)
        ensures
            *final(self) == (WindowBuilder { title: final(self).title, ..*old(self) }),
            final(self).title@ == title@,
    {
        self.title = title;
    }

    /// Attaches a menu bar.
    pub fn set_menu(&mut self, menu: Menu)
        ensures
            *final(self) == (WindowBuilder { menu: final(self).menu, ..*old(self) }),
            (final(self).menu matches Some(m) && crate::menu::menu_view(m)
                == crate::menu::menu_view(menu)),
    {
        self.menu = Some(menu);
    }

    /// Consumes the builder and produces the window. Fails with a
    /// configuration error exactly when no handler was set — the one
    /// construction-time invariant. On success: the initial scale is
    /// derived from the platform's reported factors, the physical size from
    /// the logical size at that scale, transparency is granted only when
    /// the platform can honor it, the state machine starts with nothing
    /// held and nothing queued, and the realization plan carries the
    /// builder's configuration together with the fixed startup
    /// notification order (connect, then scale, then size).
    pub fn build<C, O>(self, reported_x: i64, reported_y: i64, can_transparent: bool) -> (r: Result<
        WindowCreation<H, C, O>,
        ShellError,
    >)
        requires
            self.wf(),
        ensures
            (r is Err) == (self.handler is None),
            r is Err ==> r->Err_0 == ShellError::HandlerMissing,
            r matches Ok(c) ==> {
                let scale = Scale {
                    x: Scale::spec_clamp_factor(reported_x as int) as u32,
                    y: Scale::spec_clamp_factor(reported_y as int) as u32,
                };
                &&& Some(c.handler) == self.handler
                &&& c.core.scale == scale
                &&& c.core.area_px == (PxSize {
                    width: crate::geom::dp_to_px_ceil(self.size.width as int, scale.x as int) as i64,
                    height: crate::geom::dp_to_px_ceil(
                        self.size.height as int,
                        scale.y as int,
                    ) as i64,
                })
                &&& c.core.transparent == (self.transparent && can_transparent)
                &&& !c.core.closing
                &&& !c.core.surface_present
                &&& c.core.surface_size == (PxSize { width: 0, height: 0 })
                &&& c.core.invalid@ == Seq::<PxRect>::empty()
                &&& !c.core.handler_held
                &&& !c.core.surface_held
                &&& !c.core.invalid_held
                &&& c.core.idle_queue@ == Seq::<IdleKind<C>>::empty()
                &&& c.core.deferred@ == Seq::<DeferredOp<O>>::empty()
                &&& c.core.last_keyval is None
                &&& c.core.next_timer == 1
                &&& c.core.next_dialog == 1
                &&& c.init.title@ == self.title@
                &&& c.init.size_dp == self.size
                &&& c.init.size_px == c.core.area_px
                &&& (c.init.min_size_px matches Some(m) <==> self.min_size is Some)
                &&& (self.min_size matches Some(md) ==> c.init.min_size_px == Some(
                    PxSize {
                        width: crate::geom::dp_to_px_ceil(md.width as int, scale.x as int) as i64,
                        height: crate::geom::dp_to_px_ceil(md.height as int, scale.y as int) as i64,
                    },
                ))
                &&& c.init.resizable == self.resizable
                &&& c.init.show_titlebar == self.show_titlebar
                &&& c.init.position == self.position
                &&& c.init.level == self.level
                &&& c.init.size_state == self.size_state
                &&& (c.init.menu is Some <==> self.menu is Some)
                &&& c.init.scale == scale
                &&& c.init.startup@ == seq![
                    StartupStep::Connect,
                    StartupStep::NotifyScale,
                    StartupStep::NotifySize,
                ]
            },
    {
        let WindowBuilder {
            handler,
            title,
            menu,
            size,
            position,
            level,
            size_state,
            min_size,
            resizable,
            show_titlebar,
            transparent,
        } = self;
        let handler = match handler {
            Some(h) => h,
            None => {
                return Err(ShellError::HandlerMissing);
            },
        };
        let scale = Scale::from_reported(reported_x, reported_y);
        let size_px = size_to_px(&size, &scale);
        let min_size_px = match &min_size {
            Some(m) => Some(size_to_px(m, &scale)),
            None => None,
        };
        let core = WindowCore {
            scale,
            area_px: size_px,
            transparent: transparent && can_transparent,
            closing: false,
            surface_present: false,
            surface_size: PxSize { width: 0, height: 0 },
            invalid: Region::empty(),
            handler_held: false,
            surface_held: false,
            invalid_held: false,
            idle_queue: Vec::new(),
            deferred: Vec::new(),
            last_keyval: None,
            next_timer: 1,
            next_dialog: 1,
        };
        let mut startup: Vec<StartupStep> = Vec::new();
        startup.push(StartupStep::Connect);
        startup.push(StartupStep::NotifyScale);
        startup.push(StartupStep::NotifySize);
        proof {
            assert(startup@ =~= seq![
                StartupStep::Connect,
                StartupStep::NotifyScale,
                StartupStep::NotifySize,
            ]);
        }
        let init = WindowInit {
            title,
            size_dp: size,
            size_px,
            min_size_px,
            resizable,
            show_titlebar,
            position,
            level,
            size_state,
            menu,
            scale,
            startup,
        };
        Ok(WindowCreation { core, handler, init })
    }
}

} // verus!
