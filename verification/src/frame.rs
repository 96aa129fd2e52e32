use vstd::prelude::*;
use crate::command::{CommandPanel, CursorPosition, command_cursor, command_fits,
    command_panel_ok};
use crate::geometry::{Axis, Constraint, GeometryError, Rect, lemma_split_tiles, requests_sum,
    split, split_spec};
use crate::state::{Mode, StateSnapshot, snapshot_wf};
use crate::status::{StyledText, TextStyle, get_time, opt_view, status_left_spans,
    status_left_view, status_right_span, styled_view};

verus! {

/// The two halves of the status row, with their texts.
pub struct StatusPlan {
    /// Left half of the status row.
    pub left_rect: Rect,
    /// Right half of the status row.
    pub right_rect: Rect,
    /// Key-binding legend and transient command value.
    pub left: Vec<StyledText>,
    /// The Caps Lock indicator, present only while Caps Lock is active;
    /// right-aligned within its half.
    pub right: Option<StyledText>,
}

/// Everything one redraw cycle asks to be drawn, and where the terminal
/// cursor goes.
pub struct FramePlan {
    /// Row holding the centered date-and-time text.
    pub time_row: Rect,
    /// Main area handed to the active panel renderer.
    pub main: Rect,
    /// Row holding the status line.
    pub status_row: Rect,
    /// Centered time text, present only when the time display is enabled
    /// and the pattern renders.
    pub time: Option<String>,
    /// The status row's halves, absent when the padding leaves no room.
    pub status: Option<StatusPlan>,
    /// The Command panel, present exactly when Command mode is active and
    /// its geometry fits the main area.
    pub panel: Option<CommandPanel>,
    /// 0-indexed terminal cursor position; absent means the cursor is
    /// hidden.
    pub cursor: Option<(usize, usize)>,
}

/// The five-row outer vertical layout: top padding, time row, main area,
/// status row, bottom padding.
pub open spec fn outer_constraints(s: StateSnapshot) -> Seq<Constraint> {
    seq![
        Constraint::FixedLength(s.window_padding),
        Constraint::FixedLength(1),
        Constraint::Minimum(1),
        Constraint::FixedLength(1),
        Constraint::FixedLength(s.window_padding),
    ]
}

/// The whole drawing surface, anchored at the terminal origin.
pub open spec fn surface_rect(width: u16, height: u16) -> Rect {
    Rect { x: 0, y: 0, width, height }
}

/// The outer rows of one redraw.
pub open spec fn outer_chunks(s: StateSnapshot, width: u16, height: u16) -> Seq<Rect> {
    split_spec(surface_rect(width, height), Axis::Vertical, outer_constraints(s))
}

/// The status row split `[pad, half, half, pad]`, each half
/// `(width - 2 * pad) / 2` cells wide.
pub open spec fn status_constraints(s: StateSnapshot, width: u16) -> Seq<Constraint> {
    let half = ((width - 2 * s.window_padding) / 2) as u16;
    seq![
        Constraint::FixedLength(s.window_padding),
        Constraint::FixedLength(half),
        Constraint::FixedLength(half),
        Constraint::FixedLength(s.window_padding),
    ]
}

/// The four horizontal chunks of the status row.
pub open spec fn status_chunks(s: StateSnapshot, width: u16, height: u16) -> Seq<Rect> {
    split_spec(outer_chunks(s, width, height)[3], Axis::Horizontal, status_constraints(s, width))
}

/// What the mode router hands back: the Command panel's caret when
/// Command mode is active and its geometry fits (no caret when it does
/// not); for every other mode, whatever the external renderer for that
/// mode reported.
pub open spec fn routed_cursor(
    s: StateSnapshot,
    main: Rect,
    external: Option<CursorPosition>,
) -> Option<CursorPosition> {
    match s.mode {
        Mode::Command => if command_fits(s, main) {
            Some(command_cursor(s, main))
        } else {
            None
        },
        _ => external,
    }
}

/// Route to the active panel renderer: exactly one branch runs, selected
/// solely by the mode. The Command renderer is this crate's; a failure of
/// it yields no caret rather than a fabricated one. The renderers of the
/// other modes live outside this crate; `external_cursor` is what the
/// active one reported (`None` when it failed), passed through untouched.
pub fn route(
    state: &StateSnapshot,
    surface: Rect,
    external_cursor: Option<CursorPosition>,
) -> (r: (Option<CommandPanel>, Option<CursorPosition>))
    requires
        crate::geometry::rect_wf(surface),
        snapshot_wf(*state),
    ensures
        r.1 == routed_cursor(*state, surface, external_cursor),
        r.0 is Some <==> (state.mode == Mode::Command && command_fits(*state, surface)),
        r.0 matches Some(p) ==> command_panel_ok(p, *state, surface),
{
    match state.mode {
        Mode::Command => match crate::command::draw(state, surface) {
            Ok(p) => {
                let c = p.cursor;
                (Some(p), Some(c))
            },
            Err(_) => (None, None),
        },
        Mode::Sessions => (None, external_cursor),
        Mode::Power => (None, external_cursor),
        Mode::Users => (None, external_cursor),
        Mode::Processing => (None, external_cursor),
        Mode::Prompt => (None, external_cursor),
    }
}

/// A frame plan abides by the snapshot and the surface size: rows are the
/// outer chunks, the status halves are the status chunks with the legend
/// and the Caps Lock indicator, the Command panel is present exactly when
/// it is active and fits, and the cursor is the routed caret converted to
/// 0-indexed coordinates — or hidden whenever suppression holds,
/// regardless of what any panel renderer returned.
pub open spec fn plan_abides(
    p: FramePlan,
    s: StateSnapshot,
    width: u16,
    height: u16,
    external: Option<CursorPosition>,
) -> bool {
    let chunks = outer_chunks(s, width, height);
    let schunks = status_chunks(s, width, height);
    p.time_row == chunks[1] && p.main == chunks[2] && p.status_row == chunks[3] && (p.time is Some
        ==> s.time_enabled) && (p.status is Some <==> 2 * s.window_padding <= width) && (match p.status {
        Some(st) => st.left_rect == schunks[1] && st.right_rect == schunks[2]
            && st.left@.map_values(|t: StyledText| styled_view(t)) == status_left_view(
            s.messages,
            opt_view(s.command),
        ) && (st.right is Some <==> s.capslock) && (match st.right {
            Some(t) => t.style == TextStyle::Reversed && t.text@ == s.messages.status_caps@,
            None => true,
        }),
        None => true,
    }) && (p.panel is Some <==> (s.mode == Mode::Command && command_fits(s, p.main))) && (match p.panel {
        Some(cp) => command_panel_ok(cp, s, p.main),
        None => true,
    }) && p.cursor == (if s.suppress_cursor {
        None
    } else {
        match routed_cursor(s, p.main, external) {
            Some(c) => Some(((c.col - 1) as usize, (c.row - 1) as usize)),
            None => None,
        }
    })
}

/// One full redraw: compute the five-row outer layout, the time text, the
/// status halves, route to the active panel, and convert the returned
/// 1-indexed caret to a 0-indexed terminal cursor — hidden whenever the
/// suppression condition holds. Fails exactly when the outer rows do not
/// fit the surface height; the status halves are skipped independently
/// when the padding leaves them no room.
pub fn draw(
    state: &StateSnapshot,
    width: u16,
    height: u16,
    external_cursor: Option<CursorPosition>,
) -> (r: Result<FramePlan, GeometryError>)
    requires
        snapshot_wf(*state),
        external_cursor matches Some(c) ==> c.col >= 1 && c.row >= 1,
    ensures
        r is Ok <==> 2 * state.window_padding + 3 <= height,
        r matches Ok(p) ==> plan_abides(p, *state, width, height, external_cursor),
{
    let surface = Rect { x: 0, y: 0, width, height };
    let pad = state.window_padding;
    let mut ocs: Vec<Constraint> = Vec::new();
    ocs.push(Constraint::FixedLength(pad));
    ocs.push(Constraint::FixedLength(1));
    ocs.push(Constraint::Minimum(1));
    ocs.push(Constraint::FixedLength(1));
    ocs.push(Constraint::FixedLength(pad));
    proof {
        assert(ocs@ =~= outer_constraints(*state));
        lemma_outer_requests(*state);
    }
    let chunks = match split(surface, Axis::Vertical, &ocs) {
        Ok(c) => c,
        Err(e) => {
            return Err(e);
        },
    };
    proof {
        lemma_split_tiles(surface, Axis::Vertical, ocs@);
    }
    let time_row = chunks[1];
    let main = chunks[2];
    let status_row = chunks[3];

    let time: Option<String> = if state.time_enabled {
        get_time(state)
    } else {
        None
    };

    let status: Option<StatusPlan> = if 2 * (pad as u32) <= width as u32 {
        let half = crate::status::status_block_size(width, pad);
        let mut scs: Vec<Constraint> = Vec::new();
        scs.push(Constraint::FixedLength(pad));
        scs.push(Constraint::FixedLength(half));
        scs.push(Constraint::FixedLength(half));
        scs.push(Constraint::FixedLength(pad));
        proof {
            assert(scs@ =~= status_constraints(*state, width));
            lemma_status_requests(*state, width, half);
        }
        proof {
            let d = width as int - 2 * state.window_padding;
            assert(2 * (d / 2) <= d);
        }
        let schunks = match split(status_row, Axis::Horizontal, &scs) {
            Ok(c) => c,
            Err(_) => {
                proof {
                    assert(false);
                }
                return Err(GeometryError::DoesNotFit);
            },
        };
        let left = status_left_spans(&state.messages, &state.command);
        let right = status_right_span(&state.messages, state.capslock);
        Some(
            StatusPlan { left_rect: schunks[1], right_rect: schunks[2], left, right },
        )
    } else {
        None
    };

    let (panel, logical) = route(state, main, external_cursor);
    let cursor: Option<(usize, usize)> = if state.suppress_cursor {
        None
    } else {
        match logical {
            Some(c) => Some((c.col - 1, c.row - 1)),
            None => None,
        }
    };

    Ok(FramePlan { time_row, main, status_row, time, status, panel, cursor })
}

/// The outer rows reserve the two padding rows, the time row, the status
/// row and one main row.
proof fn lemma_outer_requests(s: StateSnapshot)
    ensures
        requests_sum(outer_constraints(s)) == 2 * s.window_padding + 3,
{
    let c0 = Constraint::FixedLength(s.window_padding);
    let c1 = Constraint::FixedLength(1u16);
    let c2 = Constraint::Minimum(1u16);
    let s1 = seq![c0];
    let s2 = seq![c0, c1];
    let s3 = seq![c0, c1, c2];
    let s4 = seq![c0, c1, c2, c1];
    let s5 = outer_constraints(s);
    assert(s1.drop_last() =~= Seq::<Constraint>::empty());
    assert(s2.drop_last() =~= s1);
    assert(s3.drop_last() =~= s2);
    assert(s4.drop_last() =~= s3);
    assert(s5.drop_last() =~= s4);
    assert(requests_sum(Seq::<Constraint>::empty()) == 0);
    assert(requests_sum(s1) == s.window_padding);
    assert(requests_sum(s2) == s.window_padding + 1);
    assert(requests_sum(s3) == s.window_padding + 2);
    assert(requests_sum(s4) == s.window_padding + 3);
    assert(requests_sum(s5) == 2 * s.window_padding + 3);
}

/// The status row's chunks reserve the two paddings and the two halves.
proof fn lemma_status_requests(s: StateSnapshot, width: u16, half: u16)
    requires
        half as int == (width - 2 * s.window_padding) / 2,
        2 * s.window_padding <= width,
    ensures
        requests_sum(status_constraints(s, width)) == 2 * s.window_padding + 2 * half,
        requests_sum(status_constraints(s, width)) <= width,
{
    let c0 = Constraint::FixedLength(s.window_padding);
    let ch = Constraint::FixedLength(half);
    let s1 = seq![c0];
    let s2 = seq![c0, ch];
    let s3 = seq![c0, ch, ch];
    let s4 = status_constraints(s, width);
    assert(s4 =~= seq![c0, ch, ch, c0]);
    assert(s1.drop_last() =~= Seq::<Constraint>::empty());
    assert(s2.drop_last() =~= s1);
    assert(s3.drop_last() =~= s2);
    assert(s4.drop_last() =~= s3);
    assert(requests_sum(Seq::<Constraint>::empty()) == 0);
    assert(requests_sum(s1) == s.window_padding);
    assert(requests_sum(s2) == s.window_padding + half);
    assert(requests_sum(s3) == s.window_padding + 2 * half);
    assert(requests_sum(s4) == 2 * s.window_padding + 2 * half);
    let d = width as int - 2 * s.window_padding;
    assert(2 * (d / 2) <= d);
}

/// Law: a redraw is a function of the snapshot, the surface size and the
/// external renderer's report alone: two plans that abide by the same
/// state and size carry identical rectangles and an identical cursor —
/// there is no hidden layout cache.
pub proof fn lemma_redraw_deterministic(
    s: StateSnapshot,
    width: u16,
    height: u16,
    external: Option<CursorPosition>,
    p1: FramePlan,
    p2: FramePlan,
)
    requires
        plan_abides(p1, s, width, height, external),
        plan_abides(p2, s, width, height, external),
    ensures
        p1.time_row == p2.time_row,
        p1.main == p2.main,
        p1.status_row == p2.status_row,
        p1.cursor == p2.cursor,
        p1.status is Some <==> p2.status is Some,
        (match (p1.status, p2.status) {
            (Some(st1), Some(st2)) => st1.left_rect == st2.left_rect && st1.right_rect
                == st2.right_rect,
            _ => true,
        }),
        p1.panel is Some <==> p2.panel is Some,
        (match (p1.panel, p2.panel) {
            (Some(cp1), Some(cp2)) => cp1.container == cp2.container && cp1.frame == cp2.frame
                && cp1.row == cp2.row && cp1.cursor == cp2.cursor,
            _ => true,
        }),
{
}

} // verus!
