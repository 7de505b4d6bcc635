//! The multi-stroke drawing pad of the vector (web) variant.
//!
//! Completed strokes are retained in an append-only history while one
//! current stroke is under construction; rendering replays all of them as
//! vector path data. Every event handler is a total state transition, and
//! the transition relation itself is the spec function [`pad_step`].

use vstd::prelude::*;

use crate::geometry::Point;
use crate::path_data::generate_path_data;
use crate::path_data::spec_path_data;

verus! {

/// A pointer or control event delivered to the drawing pad.
#[derive(Clone, Copy, PartialEq, Eq, Structural, Debug)]
pub enum PadEvent {
    /// The pointer was pressed at a position: a new stroke begins there.
    Down(Point),
    /// The pointer moved to a position.
    Move(Point),
    /// The pointer was released: the current stroke is committed.
    Up,
    /// The pointer left the surface, which ends a stroke like a release.
    Leave,
    /// The clear control was activated: all stroke state is discarded.
    Clear,
}

/// The mathematical state of the drawing pad.
#[verifier::ext_equal]
pub ghost struct PadView {
    /// Completed strokes, in drawing order; never mutated once committed.
    pub history: Seq<Seq<Point>>,
    /// The stroke currently being recorded.
    pub current: Seq<Point>,
    /// Whether a pointer-down has begun a stroke that is still open.
    pub drawing: bool,
}

/// The state of a freshly created (or cleared) pad: nothing recorded.
pub open spec fn init_pad() -> PadView {
    PadView { history: Seq::empty(), current: Seq::empty(), drawing: false }
}

/// The transition of the pad state under one event.
///
/// A pointer-down opens a one-point stroke, discarding any stroke still in
/// progress; a move extends the current stroke only while drawing; a release
/// or leave commits the current stroke to history when it is non-empty; a
/// clear discards everything.
pub open spec fn pad_step(s: PadView, e: PadEvent) -> PadView {
    match e {
        PadEvent::Down(p) => PadView { current: seq![p], drawing: true, ..s },
        PadEvent::Move(p) => if s.drawing {
            PadView { current: s.current.push(p), ..s }
        } else {
            s
        },
        PadEvent::Up | PadEvent::Leave => if s.drawing {
            PadView {
                history: if s.current.len() > 0 {
                    s.history.push(s.current)
                } else {
                    s.history
                },
                current: Seq::empty(),
                drawing: false,
            }
        } else {
            s
        },
        PadEvent::Clear => init_pad(),
    }
}

/// Whether an event obliges the surface to schedule a redraw: a move that
/// extended the current stroke, or a clear. Moves while not drawing must not
/// schedule one.
pub open spec fn pad_needs_redraw(s: PadView, e: PadEvent) -> bool {
    match e {
        PadEvent::Down(_) => false,
        PadEvent::Move(_) => s.drawing,
        PadEvent::Up | PadEvent::Leave => false,
        PadEvent::Clear => true,
    }
}

/// The path data of every rendered stroke: each completed stroke in order,
/// then the current stroke when it is non-empty.
pub open spec fn spec_render(s: PadView) -> Seq<Seq<char>> {
    s.history.map_values(|ps: Seq<Point>| spec_path_data(ps)) + if s.current.len() > 0 {
        seq![spec_path_data(s.current)]
    } else {
        Seq::empty()
    }
}

/// The drawing pad model: stroke history, the current stroke, and the
/// drawing-active flag.
pub struct DrawingPad {
    history: Vec<Vec<Point>>,
    current: Vec<Point>,
    drawing: bool,
}

impl View for DrawingPad {
    type V = PadView;

    closed spec fn view(&self) -> PadView {
        PadView {
            history: self.history@.map_values(|s: Vec<Point>| s@),
            current: self.current@,
            drawing: self.drawing,
        }
    }
}

impl DrawingPad {
    /// A new pad: no history, no current stroke, not drawing.
    pub fn new() -> (pad: DrawingPad)
        ensures
            pad@ == init_pad(),
    {
        let pad = DrawingPad { history: Vec::new(), current: Vec::new(), drawing: false };
        proof {
            assert(pad@ =~~= init_pad());
        }
        pad
    }

    /// Begin a new stroke containing only `p`, discarding any stroke still in
    /// progress, and mark drawing active.
    pub fn start_stroke(&mut self, p: Point)
        ensures
            final(self)@ == pad_step(old(self)@, PadEvent::Down(p)),
    {
        self.current = Vec::new();
        self.current.push(p);
        self.drawing = true;
        proof {
            assert(self@ =~~= pad_step(old(self)@, PadEvent::Down(p)));
        }
    }

    /// Append `p` to the current stroke; a no-op when no stroke is active, so
    /// the model state is unchanged before any stroke was started.
    pub fn append_point(&mut self, p: Point)
        ensures
            final(self)@ == pad_step(old(self)@, PadEvent::Move(p)),
            !old(self)@.drawing ==> final(self)@ == old(self)@,
    {
        if self.drawing {
            self.current.push(p);
        }
        proof {
            assert(self@ =~~= pad_step(old(self)@, PadEvent::Move(p)));
        }
    }

    /// End the current stroke: mark drawing inactive and move the stroke into
    /// history when it is non-empty. A no-op when no stroke is active.
    pub fn end_stroke(&mut self)
        ensures
            final(self)@ == pad_step(old(self)@, PadEvent::Up),
    {
        if self.drawing {
            self.drawing = false;
            if self.current.len() > 0 {
                let mut finished: Vec<Point> = Vec::new();
                core::mem::swap(&mut finished, &mut self.current);
                self.history.push(finished);
            }
        }
        proof {
            assert(self@ =~~= pad_step(old(self)@, PadEvent::Up));
        }
    }

    /// Discard all stroke state: empty history, empty current stroke, drawing
    /// inactive — regardless of the prior state.
    pub fn clear(&mut self)
        ensures
            final(self)@ == init_pad(),
    {
        self.history = Vec::new();
        self.current = Vec::new();
        self.drawing = false;
        proof {
            assert(self@ =~~= init_pad());
        }
    }

    /// Apply one event: the state becomes `pad_step` of the old state, and
    /// the result says whether a redraw must be scheduled.
    pub fn handle_event(&mut self, e: PadEvent) -> (redraw: bool)
        ensures
            final(self)@ == pad_step(old(self)@, e),
            redraw == pad_needs_redraw(old(self)@, e),
    {
        match e {
            PadEvent::Down(p) => {
                self.start_stroke(p);
                false
            },
            PadEvent::Move(p) => {
                let was_drawing = self.drawing;
                self.append_point(p);
                was_drawing
            },
            PadEvent::Up => {
                self.end_stroke();
                false
            },
            PadEvent::Leave => {
                self.end_stroke();
                false
            },
            PadEvent::Clear => {
                self.clear();
                true
            },
        }
    }

    /// The number of completed strokes in history.
    pub fn history_len(&self) -> (n: usize)
        ensures
            n == self@.history.len(),
    {
        self.history.len()
    }

    /// The points of the completed stroke at index `i`.
    pub fn stroke(&self, i: usize) -> (points: &Vec<Point>)
        requires
            i < self@.history.len(),
        ensures
            points@ == self@.history[i as int],
    {
        &self.history[i]
    }

    /// The points of the stroke currently being recorded.
    pub fn current_stroke(&self) -> (points: &Vec<Point>)
        ensures
            points@ == self@.current,
    {
        &self.current
    }

    /// Whether a stroke is currently being recorded.
    pub fn is_drawing(&self) -> (drawing: bool)
        ensures
            drawing == self@.drawing,
    {
        self.drawing
    }

    /// The vector path data of every rendered stroke: one string per
    /// completed stroke in drawing order, then the current stroke when it is
    /// non-empty. An empty stroke contributes nothing visible.
    pub fn render(&self) -> (paths: Vec<String>)
        ensures
            paths.deep_view() == spec_render(self@),
    {
        let mut paths: Vec<String> = Vec::new();
        let mut i: usize = 0;
        while i < self.history.len()
            invariant
                i <= self@.history.len(),
                self@.history.len() == self.history@.len(),
                paths@.len() == i,
                forall|j: int|
                    0 <= j < i ==> #[trigger] paths@[j]@ == spec_path_data(self@.history[j]),
            decreases self@.history.len() - i,
        {
            let data = generate_path_data(&self.history[i]);
            proof {
                assert(self.history@[i as int]@ == self@.history[i as int]);
            }
            paths.push(data);
            i = i + 1;
        }
        if self.current.len() > 0 {
            let data = generate_path_data(&self.current);
            paths.push(data);
        }
        proof {
            assert(paths.deep_view() =~= spec_render(self@));
        }
        paths
    }
}

/// The pad state after a sequence of events, applied in order.
pub open spec fn pad_run(s: PadView, es: Seq<PadEvent>) -> PadView
    decreases es.len(),
{
    if es.len() == 0 {
        s
    } else {
        pad_run(pad_step(s, es[0]), es.drop_first())
    }
}

/// The events of one complete gesture: pointer-down at `p`, one pointer-move
/// per point of `moves`, then pointer-up.
pub open spec fn gesture_events(p: Point, moves: Seq<Point>) -> Seq<PadEvent> {
    seq![PadEvent::Down(p)] + moves.map_values(|q: Point| PadEvent::Move(q)) + seq![PadEvent::Up]
}

/// From any drawing state with a non-empty current stroke, running the moves
/// of `moves` and then a pointer-up commits exactly the current stroke
/// extended by those moves.
proof fn lemma_run_moves_then_up(s: PadView, moves: Seq<Point>)
    requires
        s.drawing,
        s.current.len() > 0,
    ensures
        ({
            let t = pad_run(s, moves.map_values(|q: Point| PadEvent::Move(q)) + seq![PadEvent::Up]);
            &&& t.history == s.history.push(s.current + moves)
            &&& t.current.len() == 0
            &&& !t.drawing
        }),
    decreases moves.len(),
{
    let es = moves.map_values(|q: Point| PadEvent::Move(q)) + seq![PadEvent::Up];
    if moves.len() == 0 {
        assert(es[0] == PadEvent::Up);
        assert(es.drop_first() =~= Seq::<PadEvent>::empty());
        let s_up = pad_step(s, PadEvent::Up);
        assert(pad_run(s, es) == pad_run(s_up, es.drop_first()));
        assert(pad_run(s_up, es.drop_first()) == s_up);
        assert(s.current + moves =~= s.current);
        assert(pad_run(s, es).history =~~= s.history.push(s.current + moves));
    } else {
        let s1 = pad_step(s, PadEvent::Move(moves[0]));
        assert(es[0] == PadEvent::Move(moves[0]));
        assert(es.drop_first() =~= moves.drop_first().map_values(|q: Point| PadEvent::Move(q))
            + seq![PadEvent::Up]);
        assert(pad_run(s, es) == pad_run(s1, es.drop_first()));
        lemma_run_moves_then_up(s1, moves.drop_first());
        assert(s1.current + moves.drop_first() =~= s.current + moves);
        assert(pad_run(s, es).history =~~= s.history.push(s.current + moves));
    }
}

/// Law: a full gesture — pointer-down at `p`, then the pointer-moves of
/// `moves`, then pointer-up — commits exactly one stroke, holding the pressed
/// point followed by the moved points in event order: N moves give a stroke
/// of N + 1 points.
pub proof fn lemma_gesture_commits(s: PadView, p: Point, moves: Seq<Point>)
    ensures
        ({
            let t = pad_run(s, gesture_events(p, moves));
            &&& t.history == s.history.push(seq![p] + moves)
            &&& t.history.last() == seq![p] + moves
            &&& t.history.last().len() == moves.len() + 1
            &&& t.current.len() == 0
            &&& !t.drawing
        }),
{
    let es = gesture_events(p, moves);
    let s1 = pad_step(s, PadEvent::Down(p));
    assert(es[0] == PadEvent::Down(p));
    assert(es.drop_first() =~= moves.map_values(|q: Point| PadEvent::Move(q)) + seq![PadEvent::Up]);
    assert(pad_run(s, es) == pad_run(s1, es.drop_first()));
    lemma_run_moves_then_up(s1, moves);
    assert(s1.current + moves =~= seq![p] + moves);
    assert(pad_run(s, es).history =~~= s.history.push(seq![p] + moves));
}

/// Law: clearing always yields the initial state — empty history, empty
/// current stroke, drawing inactive — regardless of the prior state.
pub proof fn lemma_clear_resets(s: PadView)
    ensures
        pad_step(s, PadEvent::Clear) == init_pad(),
{
}

/// Law: a pointer-move while no stroke is active leaves the state unchanged;
/// in particular any move before the first pointer-down is a no-op.
pub proof fn lemma_move_without_stroke(s: PadView, p: Point)
    requires
        !s.drawing,
    ensures
        pad_step(s, PadEvent::Move(p)) == s,
{
}

} // verus!
