use vstd::prelude::*;
use crate::geometry::{Axis, Constraint, GeometryError, Rect, rect_wf, requests_sum, split,
    split_spec};
use crate::state::{StateSnapshot, snapshot_wf};
use crate::status::{StyledText, TextStyle, displayed_width, prompt_value, titleize,
    titleize_spec};

verus! {

/// Logical cursor coordinate, 1-indexed, in the overall drawing surface.
#[derive(Clone, Copy, PartialEq, Eq, Structural, Debug)]
pub struct CursorPosition {
    pub col: usize,
    pub row: usize,
}

/// Everything the Command panel asks to be drawn, and where the cursor
/// goes. Coordinates of the input value and of the cursor are in cells of
/// the overall surface; the caller renders the pieces and places the
/// cursor.
pub struct CommandPanel {
    /// Centered bordered container.
    pub container: Rect,
    /// Localized, titleized container title.
    pub title: StyledText,
    /// Interior of the container, inset by the padding on the leading
    /// edges only.
    pub frame: Rect,
    /// The single field row of the panel.
    pub row: Rect,
    /// Bold localized field label, drawn at the row's origin.
    pub label: StyledText,
    /// The pending input text, drawn right after the label.
    pub value: String,
    /// Column where the input text starts.
    pub value_col: usize,
    /// Width available to the input text: the rest of the row.
    pub value_width: usize,
    /// Where the caret goes, at the end of the input.
    pub cursor: CursorPosition,
}

/// The panel's geometry can be computed: the configured container fits the
/// surface, the padding fits the container, and at least one interior row
/// is left.
pub open spec fn command_fits(s: StateSnapshot, surface: Rect) -> bool {
    s.container_width <= surface.width && s.container_height <= surface.height
        && s.container_padding <= s.container_width && s.container_padding < s.container_height
}

/// The configured container, centered in the surface.
pub open spec fn command_container(s: StateSnapshot, surface: Rect) -> Rect {
    Rect {
        x: (surface.x + (surface.width - s.container_width) / 2) as u16,
        y: (surface.y + (surface.height - s.container_height) / 2) as u16,
        width: s.container_width,
        height: s.container_height,
    }
}

/// The container's interior: inset by the padding on the top-left edges,
/// width and height reduced by the padding.
pub open spec fn command_frame(s: StateSnapshot, surface: Rect) -> Rect {
    let c = command_container(s, surface);
    Rect {
        x: (c.x + s.container_padding) as u16,
        y: (c.y + s.container_padding) as u16,
        width: (c.width - s.container_padding) as u16,
        height: (c.height - s.container_padding) as u16,
    }
}

/// The interior split into one row per field; this panel has a single
/// field row.
pub open spec fn command_row(s: StateSnapshot, surface: Rect) -> Rect {
    split_spec(command_frame(s, surface), Axis::Vertical, seq![Constraint::FixedLength(1)])[0]
}

/// Cursor column for a field row: two cells past the row origin plus the
/// displayed length of the label, plus the caret's character offset into
/// the input.
pub open spec fn command_cursor_col(row_x: int, label_len: int, char_offset: int) -> int {
    2 + row_x + label_len + char_offset
}

/// The caret, at end-of-input: its column follows the row origin, the
/// displayed label length and the displayed input length; its row is the
/// field row's, 1-indexed.
pub open spec fn command_cursor(s: StateSnapshot, surface: Rect) -> CursorPosition {
    let row = command_row(s, surface);
    CursorPosition {
        col: command_cursor_col(
            row.x as int,
            s.messages.new_command@.len() as int,
            s.new_command@.len() as int,
        ) as usize,
        row: (row.y + 1) as usize,
    }
}

/// Law: for a fixed label and a fixed row origin, the cursor column never
/// decreases as the displayed-character count of the input value grows.
pub proof fn lemma_cursor_col_monotone(row_x: int, label_len: int, o1: int, o2: int)
    requires
        o1 <= o2,
    ensures
        command_cursor_col(row_x, label_len, o1) <= command_cursor_col(row_x, label_len, o2),
{
}

/// Law, at the snapshot level: two snapshots that agree on the label's
/// displayed length and on the field row differ in cursor column only
/// with the input's displayed length, monotonically; the cursor row does
/// not move.
pub proof fn lemma_cursor_monotone(s1: StateSnapshot, s2: StateSnapshot, surface: Rect)
    requires
        snapshot_wf(s1),
        snapshot_wf(s2),
        s1.messages.new_command@.len() == s2.messages.new_command@.len(),
        command_row(s1, surface) == command_row(s2, surface),
        s1.new_command@.len() <= s2.new_command@.len(),
    ensures
        command_cursor(s1, surface).col <= command_cursor(s2, surface).col,
        command_cursor(s1, surface).row == command_cursor(s2, surface).row,
{
}

/// A computed Command panel is exactly what the snapshot and the surface
/// dictate: the centered container, the inset frame, the single field
/// row, the titleized title, the bold label, the input value right after
/// it clipped to the rest of the row, and the caret at end-of-input.
pub open spec fn command_panel_ok(p: CommandPanel, s: StateSnapshot, surface: Rect) -> bool {
    p.container == command_container(s, surface) && p.frame == command_frame(s, surface) && p.row
        == command_row(s, surface) && p.title.style == TextStyle::Plain && p.title.text@
        == titleize_spec(s.messages.title_command@) && p.label.style == TextStyle::Bold
        && p.label.text@ == s.messages.new_command@ && p.value@ == s.new_command@ && p.value_col
        == p.row.x + 1 + s.messages.new_command@.len() && p.value_width == (
    if p.row.width > s.messages.new_command@.len() + 1 {
        p.row.width - s.messages.new_command@.len() - 1
    } else {
        0
    }) && p.cursor == command_cursor(s, surface)
}

/// The Command panel: centered bordered container with a titleized
/// localized title, one field row with a bold label and the pending input
/// value after it, caret at end-of-input. Fails exactly when the geometry
/// does not fit the surface, producing nothing to draw.
pub fn draw(state: &StateSnapshot, surface: Rect) -> (r: Result<CommandPanel, GeometryError>)
    requires
        rect_wf(surface),
        snapshot_wf(*state),
    ensures
        r is Ok <==> command_fits(*state, surface),
        r matches Ok(p) ==> command_panel_ok(p, *state, surface),
{
    let width = state.container_width;
    let height = state.container_height;
    let cp = state.container_padding;
    if width > surface.width || height > surface.height || cp > width || cp >= height {
        return Err(GeometryError::DoesNotFit);
    }
    let x = surface.x + (surface.width - width) / 2;
    let y = surface.y + (surface.height - height) / 2;
    let container = Rect { x, y, width, height };
    let frame = Rect { x: x + cp, y: y + cp, width: width - cp, height: height - cp };
    let mut constraints: Vec<Constraint> = Vec::new();
    constraints.push(Constraint::FixedLength(1));
    proof {
        assert(constraints@ =~= seq![Constraint::FixedLength(1)]);
        assert(constraints@.drop_last() =~= Seq::<Constraint>::empty());
        assert(requests_sum(Seq::<Constraint>::empty()) == 0);
        assert(requests_sum(constraints@) == 1);
        assert(container == command_container(*state, surface));
        assert(frame == command_frame(*state, surface));
    }
    let chunks = match split(frame, Axis::Vertical, &constraints) {
        Ok(c) => c,
        Err(e) => {
            proof {
                assert(false);
            }
            return Err(e);
        },
    };
    let row = chunks[0];
    let label_len = displayed_width(state.messages.new_command.as_str());
    let offset = displayed_width(state.new_command.as_str());
    let value_col = row.x as usize + 1 + label_len;
    let value_width = if (row.width as usize) > label_len + 1 {
        row.width as usize - label_len - 1
    } else {
        0
    };
    let cursor = CursorPosition { col: 2 + row.x as usize + label_len + offset, row: row.y as usize
        + 1 };
    let title = StyledText {
        text: titleize(state.messages.title_command.as_str()),
        style: TextStyle::Plain,
    };
    let label = prompt_value(Some(state.messages.new_command.as_str()));
    let value = String::from_str(state.new_command.as_str());
    Ok(
        CommandPanel {
            container,
            title,
            frame,
            row,
            label,
            value,
            value_col,
            value_width,
            cursor,
        },
    )
}

} // verus!
