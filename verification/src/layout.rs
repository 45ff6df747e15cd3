//! Rectangles on the terminal grid, and how an area is divided.

use tui::layout::{Constraint as Ask, Direction as Way, Layout, Rect as Area};
use vstd::prelude::*;

verus! {

/// A rectangle of terminal cells.
#[derive(Clone, Copy, Debug, PartialEq, Eq, Hash, Structural)]
pub struct Rect {
    pub x: u16,
    pub y: u16,
    pub width: u16,
    pub height: u16,
}

/// The direction in which an area is divided.
#[derive(Clone, Copy, Debug, PartialEq, Eq, Hash, Structural)]
pub enum Direction {
    Horizontal,
    Vertical,
}

/// The room between the border of an area and what is drawn inside: `top`
/// rows above and below, `left` columns on either side.
#[derive(Clone, Copy, Debug, PartialEq, Eq, Hash, Structural)]
pub struct Padding {
    pub top: u16,
    pub left: u16,
}

/// `value`, held to what a `u16` can hold.
pub open spec fn clip(value: int) -> u16 {
    if value < 0 {
        0
    } else if value > u16::MAX {
        u16::MAX
    } else {
        value as u16
    }
}

/// The area inside `area` that `padding` leaves. Where the padding takes
/// more than the area has, the inner area is empty.
pub open spec fn inner(area: Rect, padding: Padding) -> Rect {
    Rect {
        x: clip(area.x + padding.left),
        y: clip(area.y + padding.top),
        width: clip(area.width - 2 * padding.left),
        height: clip(area.height - 2 * padding.top),
    }
}

/// The area inside `area` that `padding` leaves.
pub fn inner_area(area: Rect, padding: Padding) -> (rect: Rect)
    ensures
        rect == inner(area, padding),
{
    Rect {
        x: area.x.saturating_add(padding.left),
        y: area.y.saturating_add(padding.top),
        width: area.width.saturating_sub(padding.left).saturating_sub(padding.left),
        height: area.height.saturating_sub(padding.top).saturating_sub(padding.top),
    }
}

/// Whether the right and the lower edge of `area` are on the grid, whose
/// coordinates end at `u16::MAX`.
pub open spec fn on_grid(area: Rect) -> bool {
    area.x + area.width <= u16::MAX && area.y + area.height <= u16::MAX
}

/// `area` cut back to the grid.
pub open spec fn held_to_grid(area: Rect) -> Rect {
    Rect {
        width: if area.x + area.width > u16::MAX {
            (u16::MAX - area.x) as u16
        } else {
            area.width
        },
        height: if area.y + area.height > u16::MAX {
            (u16::MAX - area.y) as u16
        } else {
            area.height
        },
        ..area
    }
}

/// Cuts `area` back to the grid.
pub fn hold_to_grid(area: Rect) -> (rect: Rect)
    ensures
        rect == held_to_grid(area),
        on_grid(rect),
{
    Rect {
        x: area.x,
        y: area.y,
        width: if area.width > u16::MAX - area.x {
            u16::MAX - area.x
        } else {
            area.width
        },
        height: if area.height > u16::MAX - area.y {
            u16::MAX - area.y
        } else {
            area.height
        },
    }
}

/// What a part of a divided area is asked to be.
#[derive(Clone, Copy, Debug, PartialEq, Eq, Hash, Structural)]
pub enum Constraint {
    /// A share of the area, in percent.
    Percentage(u16),
    /// So many cells.
    Length(u16),
    /// At most so many cells.
    Max(u16),
    /// At least so many cells.
    Min(u16),
}

/// The length of `area` along `direction`.
pub open spec fn extent(area: Rect, direction: Direction) -> u16 {
    match direction {
        Direction::Horizontal => area.width,
        Direction::Vertical => area.height,
    }
}

/// Whether the layout solver can take each of `constraints` for `area`: it
/// works out a share of so many percent of a length as their product, which
/// a `u16` has to hold.
pub open spec fn computable(area: Rect, constraints: Seq<Constraint>, direction: Direction) -> bool {
    forall|i: int|
        0 <= i < constraints.len() ==> match #[trigger] constraints[i] {
            Constraint::Percentage(share) => share * extent(area, direction) <= u16::MAX,
            _ => true,
        }
}

/// Divides `area` along `direction` into one part for each of
/// `constraints`, with `tui::layout::Layout::split`.
///
/// Trusted: there are as many parts as constraints. Where the parts lie is
/// the layout solver's choice, of which nothing is claimed. Left out are
/// areas that reach past the grid and shares that the solver cannot work
/// out, on which it stops the program.
#[verifier::external_body]
pub(crate) fn split(area: Rect, constraints: &Vec<Constraint>, vertical: bool) -> (parts: Vec<Rect>)
    requires
        on_grid(area),
        computable(area, constraints@, direction_of(vertical)),
    ensures
        parts@.len() == constraints@.len(),
{
    let asked = constraints.iter().map(|c| match *c {
        Constraint::Percentage(v) => Ask::Percentage(v),
        Constraint::Length(v) => Ask::Length(v),
        Constraint::Max(v) => Ask::Max(v),
        Constraint::Min(v) => Ask::Min(v),
    }).collect::<Vec<Ask>>();
    let Rect { x, y, width, height } = area;
    let layout = Layout::default().direction(if vertical { Way::Vertical } else { Way::Horizontal });
    let parts = layout.constraints(asked).split(Area { x, y, width, height });
    parts.iter().map(|r| Rect { x: r.x, y: r.y, width: r.width, height: r.height }).collect()
}

/// The direction that is vertical or not.
pub open spec fn direction_of(vertical: bool) -> Direction {
    if vertical {
        Direction::Vertical
    } else {
        Direction::Horizontal
    }
}

/// Whether `direction` is the vertical one.
pub fn is_vertical(direction: Direction) -> (vertical: bool)
    ensures
        direction_of(vertical) == direction,
{
    match direction {
        Direction::Vertical => true,
        Direction::Horizontal => false,
    }
}

/// Whether the layout solver can take each of `constraints` for `area`.
pub fn is_computable(area: Rect, constraints: &Vec<Constraint>, direction: Direction) -> (fits: bool)
    ensures
        fits == computable(area, constraints@, direction),
{
    let length = match direction {
        Direction::Horizontal => area.width,
        Direction::Vertical => area.height,
    };
    let mut i: usize = 0;
    while i < constraints.len()
        invariant
            i <= constraints.len(),
            length == extent(area, direction),
            forall|j: int|
                0 <= j < i ==> match #[trigger] constraints@[j] {
                    Constraint::Percentage(share) => share * length <= u16::MAX,
                    _ => true,
                },
        decreases constraints.len() - i,
    {
        if let Constraint::Percentage(share) = constraints[i] {
            assert(share * length <= 65535 * 65535) by (nonlinear_arith)
                requires
                    0 <= share <= 65535,
                    0 <= length <= 65535,
            ;
            if share as u64 * length as u64 > 65535 {
                return false;
            }
        }
        i += 1;
    }
    true
}

/// The constraints that ask for parts of the given lengths.
pub open spec fn length_constraints(lengths: Seq<u16>) -> Seq<Constraint> {
    Seq::new(lengths.len(), |i: int| Constraint::Length(lengths[i]))
}

/// Whether `parts` may be what comes of dividing `area` along `direction`
/// for `constraints`. Where the parts lie is the layout solver's choice: all
/// that is known of them is that there is one for each constraint.
pub closed spec fn divided(
    area: Rect,
    constraints: Seq<Constraint>,
    direction: Direction,
    parts: Seq<Rect>,
) -> bool {
    parts.len() == constraints.len()
}

/// Dividing an area gives one part for each constraint.
pub proof fn lemma_divided(area: Rect, constraints: Seq<Constraint>, direction: Direction, parts: Seq<Rect>)
    requires
        divided(area, constraints, direction, parts),
    ensures
        parts.len() == constraints.len(),
{
}

/// Divides `area` along `direction` into one part for each of
/// `constraints`. An area that reaches past the grid is cut back to it
/// first. Gives nothing where the layout solver cannot take a constraint.
pub fn split_by(area: Rect, constraints: &Vec<Constraint>, direction: Direction) -> (parts: Option<
    Vec<Rect>,
>)
    ensures
        parts is Some == computable(held_to_grid(area), constraints@, direction),
        parts is Some ==> divided(area, constraints@, direction, parts->0@),
        parts is Some ==> parts->0@.len() == constraints@.len(),
{
    let area = hold_to_grid(area);
    if is_computable(area, constraints, direction) {
        Some(split(area, constraints, is_vertical(direction)))
    } else {
        None
    }
}

/// Divides `area` along `direction` into one part for each of `lengths`,
/// each asked to be as long as its length says. An area that reaches past
/// the grid is cut back to it first.
pub fn split_area(area: Rect, lengths: Vec<u16>, direction: Direction) -> (parts: Vec<Rect>)
    ensures
        divided(area, length_constraints(lengths@), direction, parts@),
        parts@.len() == lengths@.len(),
{
    let mut constraints: Vec<Constraint> = Vec::new();
    let mut i: usize = 0;
    while i < lengths.len()
        invariant
            i <= lengths.len(),
            constraints@.len() == i,
            forall|j: int| 0 <= j < i ==> #[trigger] constraints@[j] == Constraint::Length(lengths@[j]),
        decreases lengths.len() - i,
    {
        constraints.push(Constraint::Length(lengths[i]));
        i += 1;
    }
    assert(constraints@ =~= length_constraints(lengths@));
    split(hold_to_grid(area), &constraints, is_vertical(direction))
}

} // verus!
