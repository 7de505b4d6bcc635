//! The single-path drawing app of the native (raster) variant.
//!
//! The model keeps one accumulating command path: a pointer press starts a
//! new contour in the same path, moves extend it, and only an explicit reset
//! discards it. Each windowing event is a total state transition
//! ([`app_step`]) paired with the effects the event loop owes
//! ([`app_effects`]); a frame is a pure description of what to paint
//! ([`DrawingApp::draw`]), and the windowing and rasterization work itself
//! stays with the caller.

use vstd::prelude::*;

use crate::geometry::Point;

verus! {

/// One path-building command, mirroring a raster canvas path API.
#[derive(Clone, Copy, PartialEq, Eq, Structural, Debug)]
pub enum PathCmd {
    /// Begin a new contour at a point.
    MoveTo(Point),
    /// Extend the open contour with a line segment to a point.
    LineTo(Point),
}

/// How many visible line segments a command sequence draws: one per line-to.
pub open spec fn spec_segment_count(cmds: Seq<PathCmd>) -> nat
    decreases cmds.len(),
{
    if cmds.len() == 0 {
        0
    } else {
        spec_segment_count(cmds.drop_last()) + if cmds.last() is LineTo {
            1nat
        } else {
            0nat
        }
    }
}

/// A windowing event, reduced to the values the model reads.
#[derive(Clone, Copy, PartialEq, Eq, Structural, Debug)]
pub enum NativeEvent {
    /// The platform asks for the frame to be painted now.
    RedrawRequested,
    /// The window was resized to a width and height in pixels.
    Resized(u32, u32),
    /// The user asked to close the window.
    CloseRequested,
    /// A mouse button changed state; true means pressed.
    MouseInput(bool),
    /// The cursor moved to a position in surface coordinates.
    CursorMoved(Point),
    /// The reset key was pressed: all path state is discarded.
    ResetKey,
    /// Any other event: ignored.
    Other,
}

/// What the event loop owes after the model handled an event.
#[derive(Clone, Copy, PartialEq, Eq, Structural, Debug)]
pub struct Effects {
    /// Schedule a redraw for a later frame.
    pub request_redraw: bool,
    /// Paint a frame right now.
    pub draw_now: bool,
    /// Rebind the backing render target to the new window size, before the
    /// next frame is drawn.
    pub rebind_surface: bool,
    /// Leave the event loop.
    pub exit: bool,
}

/// An opaque RGB color.
#[derive(Clone, Copy, PartialEq, Eq, Structural, Debug)]
pub struct Color {
    pub r: u8,
    pub g: u8,
    pub b: u8,
}

/// A stroke paint: color, stroke width in pixels, anti-aliasing.
#[derive(Clone, Copy, PartialEq, Eq, Structural, Debug)]
pub struct PaintDesc {
    pub color: Color,
    pub stroke_width: u32,
    pub anti_alias: bool,
}

/// Everything one frame paints: the target dimensions, the background to
/// clear to, the stroke paint, and the path commands to replay.
pub struct FrameDesc {
    pub width: u32,
    pub height: u32,
    pub background: Color,
    pub paint: PaintDesc,
    pub commands: Vec<PathCmd>,
}

/// The mathematical state of the native drawing app.
#[verifier::ext_equal]
pub ghost struct AppView {
    /// The accumulated path commands since the last reset.
    pub path: Seq<PathCmd>,
    /// Whether a mouse button is held, so moves extend the path.
    pub drawing: bool,
    /// Window (and render target) width in pixels.
    pub width: u32,
    /// Window (and render target) height in pixels.
    pub height: u32,
    /// The last cursor position reported, if any.
    pub cursor: Option<Point>,
}

/// The state of a freshly created app: empty path, not drawing, the default
/// window size, no cursor position seen yet.
pub open spec fn init_app() -> AppView {
    AppView { path: Seq::empty(), drawing: false, width: 800, height: 600, cursor: None }
}

/// The transition of the native app state under one windowing event.
///
/// A press starts a new contour at the last cursor position (and is ignored
/// before any cursor position is known); a release stops drawing; a cursor
/// move records the position and, while drawing, extends the path; a resize
/// adopts the new dimensions; the reset key discards all path state.
pub open spec fn app_step(s: AppView, e: NativeEvent) -> AppView {
    match e {
        NativeEvent::Resized(w, h) => AppView { width: w, height: h, ..s },
        NativeEvent::MouseInput(pressed) => match s.cursor {
            Some(p) => if pressed {
                AppView { drawing: true, path: s.path.push(PathCmd::MoveTo(p)), ..s }
            } else {
                AppView { drawing: false, ..s }
            },
            None => s,
        },
        NativeEvent::CursorMoved(p) => AppView {
            cursor: Some(p),
            path: if s.drawing {
                s.path.push(PathCmd::LineTo(p))
            } else {
                s.path
            },
            ..s
        },
        NativeEvent::ResetKey => AppView { path: Seq::empty(), drawing: false, ..s },
        _ => s,
    }
}

/// The effects the event loop owes for each event: paint now on a redraw
/// request, rebind the render target on a resize, schedule a redraw after a
/// press or release with a known cursor, after a move that extended the
/// path, and after a reset, and exit on a close request.
pub open spec fn app_effects(s: AppView, e: NativeEvent) -> Effects {
    Effects {
        request_redraw: match e {
            NativeEvent::MouseInput(_) => s.cursor is Some,
            NativeEvent::CursorMoved(_) => s.drawing,
            NativeEvent::ResetKey => true,
            _ => false,
        },
        draw_now: e is RedrawRequested,
        rebind_surface: e is Resized,
        exit: e is CloseRequested,
    }
}

/// The native drawing app model: the single accumulating path, the drawing
/// flag, the window size, and the last cursor position.
pub struct DrawingApp {
    current_path: Vec<PathCmd>,
    is_drawing: bool,
    width: u32,
    height: u32,
    cursor: Option<Point>,
}

impl View for DrawingApp {
    type V = AppView;

    closed spec fn view(&self) -> AppView {
        AppView {
            path: self.current_path@,
            drawing: self.is_drawing,
            width: self.width,
            height: self.height,
            cursor: self.cursor,
        }
    }
}

impl DrawingApp {
    /// A new app model in the initial state.
    pub fn new() -> (app: DrawingApp)
        ensures
            app@ == init_app(),
    {
        let app = DrawingApp {
            current_path: Vec::new(),
            is_drawing: false,
            width: 800,
            height: 600,
            cursor: None,
        };
        proof {
            assert(app@ =~~= init_app());
        }
        app
    }

    /// Pointer press or release at `position`: a press begins a new contour
    /// there and starts drawing; a release stops drawing.
    pub fn handle_mouse_input(&mut self, position: Point, pressed: bool)
        ensures
            pressed ==> final(self)@ == (AppView {
                drawing: true,
                path: old(self)@.path.push(PathCmd::MoveTo(position)),
                ..old(self)@
            }),
            !pressed ==> final(self)@ == (AppView { drawing: false, ..old(self)@ }),
    {
        if pressed {
            self.is_drawing = true;
            self.current_path.push(PathCmd::MoveTo(position));
        } else {
            self.is_drawing = false;
        }
        proof {
            if pressed {
                assert(self@ =~~= (AppView {
                    drawing: true,
                    path: old(self)@.path.push(PathCmd::MoveTo(position)),
                    ..old(self)@
                }));
            } else {
                assert(self@ =~~= (AppView { drawing: false, ..old(self)@ }));
            }
        }
    }

    /// Pointer moved to `position`: while drawing, extend the path with a
    /// line segment and ask for a redraw; otherwise do nothing.
    pub fn handle_mouse_move(&mut self, position: Point) -> (redraw: bool)
        ensures
            redraw == old(self)@.drawing,
            old(self)@.drawing ==> final(self)@ == (AppView {
                path: old(self)@.path.push(PathCmd::LineTo(position)),
                ..old(self)@
            }),
            !old(self)@.drawing ==> final(self)@ == old(self)@,
    {
        if self.is_drawing {
            self.current_path.push(PathCmd::LineTo(position));
            proof {
                assert(self@ =~~= (AppView {
                    path: old(self)@.path.push(PathCmd::LineTo(position)),
                    ..old(self)@
                }));
            }
            true
        } else {
            false
        }
    }

    /// Adopt a new window size. The render target must be rebound to exactly
    /// these dimensions before the next frame is drawn; zero dimensions are a
    /// fatal misuse and are excluded.
    pub fn resize(&mut self, width: u32, height: u32)
        requires
            1 <= width,
            1 <= height,
        ensures
            final(self)@ == (AppView { width: width, height: height, ..old(self)@ }),
    {
        self.width = width;
        self.height = height;
        proof {
            assert(self@ =~~= (AppView { width: width, height: height, ..old(self)@ }));
        }
    }

    /// Discard all recorded path state and stop drawing.
    pub fn clear(&mut self)
        ensures
            final(self)@ == (AppView { path: Seq::empty(), drawing: false, ..old(self)@ }),
    {
        self.current_path = Vec::new();
        self.is_drawing = false;
        proof {
            assert(self@ =~~= (AppView { path: Seq::empty(), drawing: false, ..old(self)@ }));
        }
    }

    /// Describe the frame to paint for the present state: clear to the flat
    /// light background, then stroke the whole accumulated path with the
    /// fixed black, 3-pixel, anti-aliased stroke paint, at exactly the
    /// current target size.
    pub fn draw(&self) -> (frame: FrameDesc)
        ensures
            frame.width == self@.width,
            frame.height == self@.height,
            frame.commands@ == self@.path,
            frame.background == (Color { r: 240, g: 240, b: 240 }),
            frame.paint == (PaintDesc {
                color: Color { r: 0, g: 0, b: 0 },
                stroke_width: 3,
                anti_alias: true,
            }),
    {
        let mut commands: Vec<PathCmd> = Vec::new();
        let mut i: usize = 0;
        while i < self.current_path.len()
            invariant
                i <= self@.path.len(),
                self@.path.len() == self.current_path@.len(),
                commands@ == self@.path.subrange(0, i as int),
            decreases self@.path.len() - i,
        {
            commands.push(self.current_path[i]);
            proof {
                assert(commands@ =~= self@.path.subrange(0, i as int + 1));
            }
            i = i + 1;
        }
        proof {
            assert(self@.path.subrange(0, self@.path.len() as int) =~= self@.path);
        }
        FrameDesc {
            width: self.width,
            height: self.height,
            background: Color { r: 240, g: 240, b: 240 },
            paint: PaintDesc {
                color: Color { r: 0, g: 0, b: 0 },
                stroke_width: 3,
                anti_alias: true,
            },
            commands,
        }
    }

    /// Dispatch one windowing event: the state becomes `app_step` of the old
    /// state, and the returned effects are `app_effects` of it.
    pub fn handle_window_event(&mut self, e: NativeEvent) -> (eff: Effects)
        requires
            e matches NativeEvent::Resized(w, h) ==> 1 <= w && 1 <= h,
        ensures
            final(self)@ == app_step(old(self)@, e),
            eff == app_effects(old(self)@, e),
    {
        let no_effects = Effects {
            request_redraw: false,
            draw_now: false,
            rebind_surface: false,
            exit: false,
        };
        match e {
            NativeEvent::RedrawRequested => Effects { draw_now: true, ..no_effects },
            NativeEvent::Resized(w, h) => {
                self.resize(w, h);
                Effects { rebind_surface: true, ..no_effects }
            },
            NativeEvent::CloseRequested => Effects { exit: true, ..no_effects },
            NativeEvent::MouseInput(pressed) => {
                match self.cursor {
                    Some(position) => {
                        self.handle_mouse_input(position, pressed);
                        proof {
                            assert(self@ =~~= app_step(old(self)@, e));
                        }
                        Effects { request_redraw: true, ..no_effects }
                    },
                    None => no_effects,
                }
            },
            NativeEvent::CursorMoved(position) => {
                self.cursor = Some(position);
                let redraw = self.handle_mouse_move(position);
                proof {
                    assert(self@ =~~= app_step(old(self)@, e));
                }
                Effects { request_redraw: redraw, ..no_effects }
            },
            NativeEvent::ResetKey => {
                self.clear();
                Effects { request_redraw: true, ..no_effects }
            },
            NativeEvent::Other => no_effects,
        }
    }
}

/// Law: pressing the pointer adds no visible segment to the path — a stroke
/// of one point draws nothing until a move extends it.
pub proof fn lemma_press_adds_no_segment(cmds: Seq<PathCmd>, p: Point)
    ensures
        spec_segment_count(cmds.push(PathCmd::MoveTo(p))) == spec_segment_count(cmds),
{
    assert(cmds.push(PathCmd::MoveTo(p)).drop_last() =~= cmds);
}

/// Law: a resize followed immediately by a redraw request draws a frame of
/// exactly the new dimensions, with the recorded path untouched — the redraw
/// request itself changes nothing.
pub proof fn lemma_resize_then_redraw(s: AppView, w: u32, h: u32)
    ensures
        ({
            let t = app_step(s, NativeEvent::Resized(w, h));
            &&& t.width == w
            &&& t.height == h
            &&& t.path == s.path
            &&& app_step(t, NativeEvent::RedrawRequested) == t
        }),
{
}

/// Law: the reset key discards all path state unconditionally — afterwards
/// the path holds no point of any earlier stroke, whatever the prior state.
pub proof fn lemma_reset_discards_all(s: AppView)
    ensures
        app_step(s, NativeEvent::ResetKey).path == Seq::<PathCmd>::empty(),
        !app_step(s, NativeEvent::ResetKey).drawing,
{
}

} // verus!
