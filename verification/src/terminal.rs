//! The orchestrating owner of the engine: two buffers, a backend, viewport
//! geometry and cursor state, and the full per-frame lifecycle.

use vstd::prelude::*;

use crate::backend::{Backend, BackendError, ClearKind};
use crate::buffer::{Buffer, BufferV};
use crate::diff::diff_buffers;
use crate::emit::emit_commands;
use crate::frame::Frame;
use crate::geom::{Position, Rect, Size};

verus! {

/// A terminal with double-buffered rendering and explicit viewport control.
///
/// The two buffers live in a fixed pair of slots; a single index selects
/// which slot is "current" (about to be rendered) and which is "previous"
/// (last rendered). Each successful draw diffs current against previous,
/// flushes the changes through the backend, then resets the previous slot
/// and flips the index.
#[derive(Debug)]
pub struct CustomTerminal<B: Backend> {
    /// The backend used to interface with the terminal device.
    pub backend: B,
    /// One of the two buffer slots.
    pub slot0: Buffer,
    /// The other buffer slot.
    pub slot1: Buffer,
    /// Which slot is current: always 0 or 1.
    pub current: usize,
    /// Whether the cursor is currently hidden.
    pub hidden_cursor: bool,
    /// Area of the viewport.
    pub viewport_area: Rect,
    /// Last known size of the terminal screen.
    pub last_known_screen_size: Size,
    /// Last known position of the cursor.
    pub last_known_cursor_pos: Position,
}

impl<B: Backend> CustomTerminal<B> {
    /// The structural invariant: the slot index is 0 or 1, both buffers are
    /// well-formed grids, and they always share one area.
    pub open spec fn wf(self) -> bool {
        &&& self.current <= 1
        &&& self.slot0@.wf()
        &&& self.slot1@.wf()
        &&& self.slot0@.area == self.slot1@.area
    }

    /// The value of the current buffer (the one the next draw renders).
    pub open spec fn cur_view(self) -> BufferV {
        if self.current == 0 {
            self.slot0@
        } else {
            self.slot1@
        }
    }

    /// The value of the previous buffer (the one last rendered).
    pub open spec fn prev_view(self) -> BufferV {
        if self.current == 0 {
            self.slot1@
        } else {
            self.slot0@
        }
    }

    /// Which slot is current.
    pub open spec fn current_index(self) -> int {
        self.current as int
    }

    /// The frame a draw call hands to its render callback: no cursor
    /// request yet, the active viewport, and the current buffer.
    pub open spec fn frame_input(self) -> Frame {
        Frame {
            cursor_position: None,
            viewport_area: self.viewport_area,
            buffer: if self.current == 0 {
                self.slot0
            } else {
                self.slot1
            },
        }
    }

    /// Everything a pure backend exchange must leave alone: both buffer
    /// slots, the slot index, cursor visibility, viewport geometry and the
    /// recorded sizes.
    pub open spec fn same_render_state(self, other: Self) -> bool {
        &&& other.slot0 == self.slot0
        &&& other.slot1 == self.slot1
        &&& other.current == self.current
        &&& other.hidden_cursor == self.hidden_cursor
        &&& other.viewport_area == self.viewport_area
        &&& other.last_known_screen_size == self.last_known_screen_size
        &&& other.last_known_cursor_pos == self.last_known_cursor_pos
    }

    /// The initial terminal state over a backend whose screen size and
    /// cursor position have been queried: two empty buffers over a zero
    /// area, slot 0 current, the cursor visible, a zero-sized viewport
    /// anchored at the cursor row, and the queried values recorded.
    fn init_state(backend: B, screen_size: Size, cursor_pos: Position) -> (t: Self)
        ensures
            t.wf(),
            t.current_index() == 0,
            t.cur_view().all_default(),
            t.prev_view().all_default(),
            t.cur_view().area.cell_count_spec() == 0,
            !t.hidden_cursor,
            t.viewport_area == (Rect { x: 0u16, y: cursor_pos.y, width: 0u16, height: 0u16 }),
            t.last_known_screen_size == screen_size,
            t.last_known_cursor_pos == cursor_pos,
            t.backend == backend,
    {
        CustomTerminal {
            backend,
            slot0: Buffer::empty(Rect::zero()),
            slot1: Buffer::empty(Rect::zero()),
            current: 0,
            hidden_cursor: false,
            viewport_area: Rect::new(0, cursor_pos.y, 0, 0),
            last_known_screen_size: screen_size,
            last_known_cursor_pos: cursor_pos,
        }
    }

    /// Create a terminal over the given backend: query the screen size and
    /// cursor position, record both, and start with two empty buffers and
    /// a zero-sized viewport anchored at the queried cursor row. An error
    /// from either backend query is handed on.
    pub fn with_options(backend: B) -> (r: Result<Self, BackendError>)
        ensures
            r matches Ok(t) ==> {
                &&& t.wf()
                &&& t.current_index() == 0
                &&& t.cur_view().all_default()
                &&& t.prev_view().all_default()
                &&& t.cur_view().area.cell_count_spec() == 0
                &&& !t.hidden_cursor
                &&& t.viewport_area == (Rect {
                    x: 0u16,
                    y: t.last_known_cursor_pos.y,
                    width: 0u16,
                    height: 0u16,
                })
            },
    {
        let mut backend = backend;
        let screen_size = match backend.size() {
            Ok(s) => s,
            Err(e) => {
                return Err(e);
            },
        };
        let cursor_pos = match backend.get_cursor_position() {
            Ok(p) => p,
            Err(e) => {
                return Err(e);
            },
        };
        Ok(Self::init_state(backend, screen_size, cursor_pos))
    }

    /// The current buffer, the one the next draw renders.
    pub fn current_buffer(&self) -> (b: &Buffer)
        requires
            self.wf(),
        ensures
            b@ == self.cur_view(),
    {
        if self.current == 0 {
            &self.slot0
        } else {
            &self.slot1
        }
    }

    /// The previous buffer, the one last rendered.
    pub fn previous_buffer(&self) -> (b: &Buffer)
        requires
            self.wf(),
        ensures
            b@ == self.prev_view(),
    {
        if self.current == 0 {
            &self.slot1
        } else {
            &self.slot0
        }
    }

    /// The backend.
    pub fn backend(&self) -> (b: &B)
        ensures
            *b == self.backend,
    {
        &self.backend
    }

    /// The backend, as a mutable reference. The engine's style bookkeeping
    /// assumes nobody else writes to the device between draws.
    pub fn backend_mut(&mut self) -> (b: &mut B)
        ensures
            *b == old(self).backend,
            final(self).backend == *final(b),
            old(self).same_render_state(*final(self)),
    {
        &mut self.backend
    }

    /// Move the current slot's buffer out, leaving an empty placeholder.
    fn take_current_buffer(&mut self) -> (b: Buffer)
        requires
            old(self).wf(),
        ensures
            b == old(self).frame_input().buffer,
            final(self).current == old(self).current,
            final(self).prev_view() == old(self).prev_view(),
            final(self).backend == old(self).backend,
            final(self).hidden_cursor == old(self).hidden_cursor,
            final(self).viewport_area == old(self).viewport_area,
            final(self).last_known_screen_size == old(self).last_known_screen_size,
            final(self).last_known_cursor_pos == old(self).last_known_cursor_pos,
    {
        let mut placeholder = Buffer::empty(Rect::zero());
        if self.current == 0 {
            core::mem::swap(&mut self.slot0, &mut placeholder);
        } else {
            core::mem::swap(&mut self.slot1, &mut placeholder);
        }
        placeholder
    }

    /// Put a buffer into the current slot.
    fn put_current_buffer(&mut self, buffer: Buffer)
        requires
            old(self).current <= 1,
        ensures
            final(self).current == old(self).current,
            final(self).cur_view() == buffer@,
            final(self).frame_input().buffer == buffer,
            final(self).prev_view() == old(self).prev_view(),
            final(self).backend == old(self).backend,
            final(self).hidden_cursor == old(self).hidden_cursor,
            final(self).viewport_area == old(self).viewport_area,
            final(self).last_known_screen_size == old(self).last_known_screen_size,
            final(self).last_known_cursor_pos == old(self).last_known_cursor_pos,
    {
        if self.current == 0 {
            self.slot0 = buffer;
        } else {
            self.slot1 = buffer;
        }
    }

    /// Diff the current buffer against the previous one, hand the resulting
    /// operations to the backend, and flush the device. Neither buffer nor
    /// any bookkeeping changes; errors propagate without retry.
    pub fn flush(&mut self) -> (r: Result<(), BackendError>)
        requires
            old(self).wf(),
        ensures
            final(self).wf(),
            old(self).same_render_state(*final(self)),
    {
        let updates = if self.current == 0 {
            diff_buffers(&self.slot1, &self.slot0)
        } else {
            diff_buffers(&self.slot0, &self.slot1)
        };
        let ops = emit_commands(&updates);
        let n = ops.len();
        let mut i: usize = 0;
        while i < n
            invariant
                old(self).wf(),
                old(self).same_render_state(*self),
                n == ops@.len(),
                i <= n,
            decreases n - i,
        {
            match self.backend.write_op(&ops[i]) {
                Ok(()) => {},
                Err(e) => {
                    return Err(e);
                },
            }
            i = i + 1;
        }
        match self.backend.flush() {
            Ok(()) => Ok(()),
            Err(e) => Err(e),
        }
    }

    /// The viewport covering a whole screen of the given size.
    pub open spec fn full_viewport(screen_size: Size) -> Rect {
        Rect { x: 0, y: 0, width: screen_size.width, height: screen_size.height }
    }

    /// Adopt a new screen size: resize both buffers to the full viewport of
    /// that size, clearing every cell, and record the size. The whole
    /// screen is effectively new on this transition, so no diff is owed
    /// against the old content.
    pub fn resize(&mut self, screen_size: Size) -> (r: Result<(), BackendError>)
        requires
            old(self).wf(),
        ensures
            r is Ok,
            final(self).wf(),
            final(self).last_known_screen_size == screen_size,
            final(self).viewport_area == Self::full_viewport(screen_size),
            final(self).cur_view().area == final(self).viewport_area,
            final(self).cur_view().all_default(),
            final(self).prev_view().area == final(self).viewport_area,
            final(self).prev_view().all_default(),
            final(self).backend == old(self).backend,
            final(self).current == old(self).current,
            final(self).hidden_cursor == old(self).hidden_cursor,
            final(self).last_known_cursor_pos == old(self).last_known_cursor_pos,
    {
        self.set_viewport_area(Rect::new(0, 0, screen_size.width, screen_size.height));
        self.last_known_screen_size = screen_size;
        Ok(())
    }

    /// Resize both buffers to a new viewport area, clearing every cell to
    /// the default, and record the area.
    pub fn set_viewport_area(&mut self, area: Rect)
        requires
            old(self).wf(),
        ensures
            final(self).wf(),
            final(self).current == old(self).current,
            final(self).viewport_area == area,
            final(self).cur_view().area == area,
            final(self).cur_view().all_default(),
            final(self).prev_view().area == area,
            final(self).prev_view().all_default(),
            final(self).backend == old(self).backend,
            final(self).hidden_cursor == old(self).hidden_cursor,
            final(self).last_known_screen_size == old(self).last_known_screen_size,
            final(self).last_known_cursor_pos == old(self).last_known_cursor_pos,
    {
        self.slot0.resize(area);
        self.slot1.resize(area);
        self.viewport_area = area;
    }

    /// Query the backend for the screen size; when it differs from the
    /// last known size, resize both buffers to the new full viewport and
    /// record the new size, and otherwise leave everything alone.
    pub fn autoresize(&mut self) -> (r: Result<(), BackendError>)
        requires
            old(self).wf(),
        ensures
            final(self).wf(),
            final(self).current == old(self).current,
            final(self).backend == old(self).backend,
            final(self).hidden_cursor == old(self).hidden_cursor,
            final(self).last_known_cursor_pos == old(self).last_known_cursor_pos,
            r is Err ==> old(self).same_render_state(*final(self)),
            r is Ok ==> ({
                ||| {
                    &&& final(self).slot0 == old(self).slot0
                    &&& final(self).slot1 == old(self).slot1
                    &&& final(self).viewport_area == old(self).viewport_area
                    &&& final(self).last_known_screen_size == old(self).last_known_screen_size
                }
                ||| {
                    &&& final(self).last_known_screen_size != old(self).last_known_screen_size
                    &&& final(self).viewport_area == Self::full_viewport(
                        final(self).last_known_screen_size,
                    )
                    &&& final(self).cur_view().area == final(self).viewport_area
                    &&& final(self).cur_view().all_default()
                    &&& final(self).prev_view().area == final(self).viewport_area
                    &&& final(self).prev_view().all_default()
                }
            }),
    {
        let screen_size = match self.size() {
            Ok(s) => s,
            Err(e) => {
                return Err(e);
            },
        };
        if screen_size != self.last_known_screen_size {
            match self.resize(screen_size) {
                Ok(()) => {},
                Err(e) => {
                    return Err(e);
                },
            }
        }
        Ok(())
    }

    /// The frames a draw call can hand its callback: the current buffer
    /// under the current viewport or, when the autoresize step found a new
    /// screen size, a fresh all-default grid over the full new viewport.
    pub open spec fn possible_frame(self, fr: Frame) -> bool {
        ||| fr == self.frame_input()
        ||| {
            &&& fr.cursor_position is None
            &&& fr.viewport_area.x == 0
            &&& fr.viewport_area.y == 0
            &&& fr.buffer@.wf()
            &&& fr.buffer@.area == fr.viewport_area
            &&& fr.buffer@.all_default()
        }
    }

    /// Draw a single frame: autoresize, hand a fresh frame over the current
    /// buffer to the callback exactly once, diff against the previous
    /// buffer and flush, update cursor visibility, then swap buffers.
    ///
    /// Any backend failure aborts the remainder of the lifecycle and is
    /// propagated unchanged; the buffers are swapped only after a fully
    /// successful flush and cursor update, so a failed draw leaves the two
    /// buffers in their pre-draw roles and the next draw recomputes the
    /// same diff against the same previous buffer. A failed draw can still
    /// have adopted a new screen size, in which case both buffers are the
    /// fresh cleared grids of the new viewport.
    pub fn draw<F: FnOnce(Frame) -> Frame>(&mut self, render_callback: F) -> (r: Result<
        (),
        BackendError,
    >)
        requires
            old(self).wf(),
            forall|fr: Frame|
                old(self).possible_frame(fr) ==> #[trigger] call_requires(
                    render_callback,
                    (fr,),
                ),
            forall|fr: Frame, out: Frame|
                old(self).possible_frame(fr) && #[trigger] call_ensures(
                    render_callback,
                    (fr,),
                    out,
                ) ==> out.buffer@.wf() && out.buffer@.area == fr.buffer@.area,
        ensures
            final(self).wf(),
            r is Err ==> final(self).current == old(self).current && (final(self).prev_view()
                == old(self).prev_view() || final(self).prev_view().all_default()),
            r is Err ==> {
                ||| final(self).cur_view() == old(self).cur_view()
                ||| final(self).cur_view().all_default()
                ||| exists|fr: Frame, out: Frame|
                    {
                        &&& old(self).possible_frame(fr)
                        &&& #[trigger] call_ensures(render_callback, (fr,), out)
                        &&& final(self).cur_view() == out.buffer@
                    }
            },
            r is Ok ==> {
                &&& final(self).current_index() == 1 - old(self).current_index()
                &&& final(self).cur_view().all_default()
                &&& exists|fr: Frame, out: Frame|
                    {
                        &&& old(self).possible_frame(fr)
                        &&& #[trigger] call_ensures(render_callback, (fr,), out)
                        &&& final(self).prev_view() == out.buffer@
                        &&& final(self).cur_view().area == out.buffer@.area
                        &&& (out.cursor_position is None ==> final(self).hidden_cursor)
                        &&& (out.cursor_position matches Some(p) ==> !final(self).hidden_cursor
                            && final(self).last_known_cursor_pos == p)
                    }
            },
    {
        match self.autoresize() {
            Ok(()) => {},
            Err(e) => {
                return Err(e);
            },
        }

        let buffer = self.take_current_buffer();
        let frame = Frame { cursor_position: None, viewport_area: self.viewport_area, buffer };
        let ghost gframe = frame;
        proof {
            assert(old(self).possible_frame(gframe));
        }
        let frame_out = render_callback(frame);
        let ghost gout = frame_out;
        let Frame { cursor_position, viewport_area: _, buffer: drawn } = frame_out;
        self.put_current_buffer(drawn);

        match self.flush() {
            Ok(()) => {},
            Err(e) => {
                proof {
                    assert(call_ensures(render_callback, (gframe,), gout));
                    assert(final(self).cur_view() == gout.buffer@);
                }
                return Err(e);
            },
        }

        match cursor_position {
            None => {
                match self.hide_cursor() {
                    Ok(()) => {},
                    Err(e) => {
                        proof {
                            assert(call_ensures(render_callback, (gframe,), gout));
                            assert(final(self).cur_view() == gout.buffer@);
                        }
                        return Err(e);
                    },
                }
            },
            Some(position) => {
                match self.show_cursor() {
                    Ok(()) => {},
                    Err(e) => {
                        proof {
                            assert(call_ensures(render_callback, (gframe,), gout));
                            assert(final(self).cur_view() == gout.buffer@);
                        }
                        return Err(e);
                    },
                }
                match self.set_cursor_position(position) {
                    Ok(()) => {},
                    Err(e) => {
                        proof {
                            assert(call_ensures(render_callback, (gframe,), gout));
                            assert(final(self).cur_view() == gout.buffer@);
                        }
                        return Err(e);
                    },
                }
            },
        }

        self.swap_buffers();
        proof {
            assert(call_ensures(render_callback, (gframe,), gout));
            assert(final(self).prev_view() == gout.buffer@);
            assert(final(self).cur_view().area == gout.buffer@.area);
        }
        Ok(())
    }

    /// Hide the cursor and record that it is hidden.
    pub fn hide_cursor(&mut self) -> (r: Result<(), BackendError>)
        ensures
            final(self).slot0 == old(self).slot0,
            final(self).slot1 == old(self).slot1,
            final(self).current == old(self).current,
            final(self).viewport_area == old(self).viewport_area,
            final(self).last_known_screen_size == old(self).last_known_screen_size,
            final(self).last_known_cursor_pos == old(self).last_known_cursor_pos,
            r is Ok ==> final(self).hidden_cursor,
            r is Err ==> final(self).hidden_cursor == old(self).hidden_cursor,
    {
        match self.backend.hide_cursor() {
            Ok(()) => {},
            Err(e) => {
                return Err(e);
            },
        }
        self.hidden_cursor = true;
        Ok(())
    }

    /// Show the cursor and record that it is visible.
    pub fn show_cursor(&mut self) -> (r: Result<(), BackendError>)
        ensures
            final(self).slot0 == old(self).slot0,
            final(self).slot1 == old(self).slot1,
            final(self).current == old(self).current,
            final(self).viewport_area == old(self).viewport_area,
            final(self).last_known_screen_size == old(self).last_known_screen_size,
            final(self).last_known_cursor_pos == old(self).last_known_cursor_pos,
            r is Ok ==> !final(self).hidden_cursor,
            r is Err ==> final(self).hidden_cursor == old(self).hidden_cursor,
    {
        match self.backend.show_cursor() {
            Ok(()) => {},
            Err(e) => {
                return Err(e);
            },
        }
        self.hidden_cursor = false;
        Ok(())
    }

    /// Ask the backend where the cursor currently stands.
    pub fn get_cursor_position(&mut self) -> (r: Result<Position, BackendError>)
        ensures
            old(self).same_render_state(*final(self)),
    {
        self.backend.get_cursor_position()
    }

    /// Move the cursor and record the new position as last known.
    pub fn set_cursor_position(&mut self, position: Position) -> (r: Result<(), BackendError>)
        ensures
            final(self).slot0 == old(self).slot0,
            final(self).slot1 == old(self).slot1,
            final(self).current == old(self).current,
            final(self).hidden_cursor == old(self).hidden_cursor,
            final(self).viewport_area == old(self).viewport_area,
            final(self).last_known_screen_size == old(self).last_known_screen_size,
            r is Ok ==> final(self).last_known_cursor_pos == position,
            r is Err ==> final(self).last_known_cursor_pos == old(self).last_known_cursor_pos,
    {
        match self.backend.set_cursor_position(position) {
            Ok(()) => {},
            Err(e) => {
                return Err(e);
            },
        }
        self.last_known_cursor_pos = position;
        Ok(())
    }

    /// Clear the terminal and force a full redraw: reset the previous
    /// buffer so the next diff treats every cell as changed, and ask the
    /// backend to clear the whole region. Does nothing on an empty
    /// viewport.
    pub fn clear(&mut self) -> (r: Result<(), BackendError>)
        requires
            old(self).wf(),
        ensures
            final(self).wf(),
            final(self).current == old(self).current,
            final(self).cur_view() == old(self).cur_view(),
            final(self).hidden_cursor == old(self).hidden_cursor,
            final(self).viewport_area == old(self).viewport_area,
            final(self).last_known_screen_size == old(self).last_known_screen_size,
            final(self).last_known_cursor_pos == old(self).last_known_cursor_pos,
            r is Ok && old(self).viewport_area.cell_count_spec() != 0 ==> final(self).prev_view().all_default()
                && final(self).prev_view().area == old(self).prev_view().area,
            r is Ok && old(self).viewport_area.cell_count_spec() == 0 ==> final(self).prev_view()
                == old(self).prev_view(),
            old(self).viewport_area.cell_count_spec() == 0 ==> r is Ok,
            r is Err ==> final(self).prev_view() == old(self).prev_view(),
    {
        if self.viewport_area.is_empty() {
            return Ok(());
        }
        let origin = Position { x: self.viewport_area.x, y: self.viewport_area.y };
        match self.backend.set_cursor_position(origin) {
            Ok(()) => {},
            Err(e) => {
                return Err(e);
            },
        }
        match self.backend.clear_region(ClearKind::All) {
            Ok(()) => {},
            Err(e) => {
                return Err(e);
            },
        }
        if self.current == 0 {
            self.slot1.reset();
        } else {
            self.slot0.reset();
        }
        Ok(())
    }

    /// Reset the buffer that is about to become current and flip the slot
    /// index: today's current buffer becomes tomorrow's previous.
    pub fn swap_buffers(&mut self)
        requires
            old(self).wf(),
        ensures
            final(self).wf(),
            final(self).current_index() == 1 - old(self).current_index(),
            final(self).prev_view() == old(self).cur_view(),
            final(self).cur_view().all_default(),
            final(self).cur_view().area == old(self).prev_view().area,
            final(self).backend == old(self).backend,
            final(self).hidden_cursor == old(self).hidden_cursor,
            final(self).viewport_area == old(self).viewport_area,
            final(self).last_known_screen_size == old(self).last_known_screen_size,
            final(self).last_known_cursor_pos == old(self).last_known_cursor_pos,
    {
        if self.current == 0 {
            self.slot1.reset();
        } else {
            self.slot0.reset();
        }
        self.current = 1 - self.current;
    }

    /// The real size of the screen, as the backend reports it.
    pub fn size(&self) -> (r: Result<Size, BackendError>) {
        self.backend.size()
    }
}

} // verus!
