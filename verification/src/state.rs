//! The hover/drag state machine: pointer events go in, shape and
//! selection mutations happen, and a requested cursor icon comes out.
//! Key events drive deletion and route text editing to the caller's
//! text collaborator.

use vstd::prelude::*;
use crate::geom::{clip, max_i, min_i, pt_mid, pt_minus, pt_ok, pt_plus, rect_contains, sat64,
    Point, Rect};
use crate::angle::deg_ok;
use crate::assoc::{assoc_get, assoc_has, assoc_insert, assoc_ok, assoc_value};
use crate::drawlist::{dl_has, dl_ok, lemma_retained_lookup, lemma_surviving_step,
    surviving_shapes, survives, top_hit_from, DrawList, ShapeID};
use crate::response::{BarAction, ParentCallback};
use crate::select::{box_hover_spec, line_hover_spec, BoxHover, DragVertex, LineHover, SelectLine,
    Selection};
use crate::shapes::{line_ok, shape_ok, Color, DrawLine, DrawPolygon, PrimType, Shape};
use crate::transform::{key_of, p2m_spec, rr_ok, transform_of, RotateRect};

verus! {

/// The cursor icons the engine can request.
#[derive(Clone, Copy, Debug, PartialEq, Eq, Structural)]
pub enum CursorIcon {
    Arrow,
    Hand,
    Crosshair,
    TextBeam,
    ResizeNS,
    ResizeWE,
    ResizeNWSE,
    ResizeNESW,
}

/// The kinds of pointer events the engine consumes.
#[derive(Clone, Copy, Debug, PartialEq, Eq, Structural)]
pub enum PointerEventKind {
    Down,
    Up,
    Move,
}

/// The keys the engine reacts to; printable input arrives as `Char`.
#[derive(Clone, Copy, Debug, PartialEq, Eq, Structural)]
pub enum Key {
    Char(char),
    Left,
    Right,
    Up,
    Down,
    Backspace,
    Delete,
    Escape,
}

/// A direction for moving the text cursor.
#[derive(Clone, Copy, Debug, PartialEq, Eq, Structural)]
pub enum TextCursorDirection {
    Up,
    Down,
    Left,
    Right,
}

/// A text-editing request routed to the caller's text collaborator.
#[derive(Clone, Copy, Debug, PartialEq, Eq, Structural)]
pub enum TextAction {
    Insert(ShapeID, char),
    MoveCursor(ShapeID, TextCursorDirection),
    Backspace(ShapeID),
}

/// Whether keyboard input is routed to a text shape.
#[derive(Clone, Copy, Debug, PartialEq, Eq, Structural)]
pub enum KeyboardMode {
    KeyboardNone,
    TextEdit(ShapeID),
}

/// The shapes the palette bar offers.
#[derive(Clone, Copy, Debug, PartialEq, Eq, Structural, Hash)]
pub enum ShapeBarShape {
    Circle,
    Triangle,
    Rect,
    TextBox,
    Line,
    ColorPicker,
}

/// Side length of a freshly previewed palette shape, and the fallback
/// size for a degenerate creation drag.
pub const DEFAULT_SHAPE_SIZE: i64 = 30;

/// The cursor shown while hovering a resize handle: the axis or
/// diagonal the handle moves along.
pub open spec fn drag_hover_cursor(dv: DragVertex) -> CursorIcon {
    match dv {
        DragVertex::Left => CursorIcon::ResizeWE,
        DragVertex::Right => CursorIcon::ResizeWE,
        DragVertex::TopCenter => CursorIcon::ResizeNS,
        DragVertex::BottomCenter => CursorIcon::ResizeNS,
        DragVertex::TopLeft => CursorIcon::ResizeNWSE,
        DragVertex::BottomRight => CursorIcon::ResizeNWSE,
        DragVertex::TopRight => CursorIcon::ResizeNESW,
        DragVertex::BottomLeft => CursorIcon::ResizeNESW,
    }
}

/// The cursor shown while hovering a resize handle.
pub fn get_drag_hover_cursor(dv: &DragVertex) -> (r: CursorIcon)
    ensures
        r == drag_hover_cursor(*dv),
{
    match dv {
        DragVertex::Left | DragVertex::Right => CursorIcon::ResizeWE,
        DragVertex::TopCenter | DragVertex::BottomCenter => CursorIcon::ResizeNS,
        DragVertex::TopLeft | DragVertex::BottomRight => CursorIcon::ResizeNWSE,
        DragVertex::TopRight | DragVertex::BottomLeft => CursorIcon::ResizeNESW,
    }
}

/// The text-cursor direction an arrow key asks for.
pub fn get_dir_from_key(k: &Key) -> (r: Option<TextCursorDirection>)
    ensures
        r == match *k {
            Key::Left => Some(TextCursorDirection::Left),
            Key::Right => Some(TextCursorDirection::Right),
            Key::Up => Some(TextCursorDirection::Up),
            Key::Down => Some(TextCursorDirection::Down),
            _ => None::<TextCursorDirection>,
        },
{
    match k {
        Key::Left => Some(TextCursorDirection::Left),
        Key::Right => Some(TextCursorDirection::Right),
        Key::Up => Some(TextCursorDirection::Up),
        Key::Down => Some(TextCursorDirection::Down),
        _ => None,
    }
}

/// The primitive a palette shape renders as.
pub open spec fn bar_prim(kind: ShapeBarShape) -> PrimType {
    match kind {
        ShapeBarShape::Circle => PrimType::Circle,
        ShapeBarShape::Triangle => PrimType::Triangle,
        ShapeBarShape::Rect => PrimType::Rect,
        ShapeBarShape::TextBox => PrimType::Rect,
        ShapeBarShape::Line => PrimType::Line,
        ShapeBarShape::ColorPicker => PrimType::Rect,
    }
}

/// The color a palette shape is created with: text boxes are white,
/// everything else red.
pub open spec fn bar_color(kind: ShapeBarShape) -> Color {
    match kind {
        ShapeBarShape::TextBox => Color { r: 255, g: 255, b: 255 },
        _ => Color { r: 255, g: 0, b: 0 },
    }
}

impl ShapeBarShape {
    /// The primitive this palette shape renders as.
    pub fn prim_type(&self) -> (r: PrimType)
        ensures
            r == bar_prim(*self),
    {
        match self {
            ShapeBarShape::Circle => PrimType::Circle,
            ShapeBarShape::Triangle => PrimType::Triangle,
            ShapeBarShape::Rect => PrimType::Rect,
            ShapeBarShape::TextBox => PrimType::Rect,
            ShapeBarShape::Line => PrimType::Line,
            ShapeBarShape::ColorPicker => PrimType::Rect,
        }
    }
}

/// The shape a palette kind places into a pixel rectangle.
pub open spec fn bar_shape_spec(kind: ShapeBarShape, r: Rect, fill: bool) -> Shape {
    if kind is Line {
        Shape::Line(
            DrawLine {
                p1: Point {
                    x: min_i(r.c1.x as int, r.c2.x as int) as i64,
                    y: clip(
                        (min_i(r.c1.y as int, r.c2.y as int) + crate::geom::max_i(
                            r.c1.y as int,
                            r.c2.y as int,
                        )) / 2,
                    ) as i64,
                },
                p2: Point {
                    x: crate::geom::max_i(r.c1.x as int, r.c2.x as int) as i64,
                    y: clip(
                        (min_i(r.c1.y as int, r.c2.y as int) + crate::geom::max_i(
                            r.c1.y as int,
                            r.c2.y as int,
                        )) / 2,
                    ) as i64,
                },
                line_width: 3,
                color: bar_color(kind),
            },
        )
    } else if kind is ColorPicker {
        Shape::Polygon(
            DrawPolygon {
                prim: PrimType::Triangle,
                fill: true,
                rect: RotateRect {
                    offset: Point { x: 0, y: 0 },
                    size: Point { x: 5, y: 5 },
                    rot: 0,
                    trans: crate::transform::TransformCache { entry: None },
                },
                color: Color { r: 0, g: 0, b: 0 },
            },
        )
    } else {
        let prim = if !fill && bar_prim(kind) is Circle {
            PrimType::Ring
        } else {
            bar_prim(kind)
        };
        Shape::Polygon(
            DrawPolygon {
                prim,
                fill,
                rect: rect_placement_spec(r),
                color: bar_color(kind),
            },
        )
    }
}

/// The placement `RotateRect::from_rect` gives an unrotated pixel
/// rectangle.
pub open spec fn rect_placement_spec(r: Rect) -> RotateRect {
    RotateRect {
        offset: Point {
            x: min_i(r.c1.x as int, r.c2.x as int) as i64,
            y: min_i(r.c1.y as int, r.c2.y as int) as i64,
        },
        size: Point {
            x: crate::select::max_of(
                1,
                clip(
                    crate::geom::max_i(r.c1.x as int, r.c2.x as int) - min_i(
                        r.c1.x as int,
                        r.c2.x as int,
                    ),
                ),
            ) as i64,
            y: crate::select::max_of(
                1,
                clip(
                    crate::geom::max_i(r.c1.y as int, r.c2.y as int) - min_i(
                        r.c1.y as int,
                        r.c2.y as int,
                    ),
                ),
            ) as i64,
        },
        rot: 0,
        trans: crate::transform::TransformCache { entry: None },
    }
}


/// The lower-right corner of the palette bar over a viewport.
pub open spec fn bar_corner(offset: Point, vp: Point) -> Point {
    Point {
        x: clip(offset.x + 3 * vp.x / 5) as i64,
        y: clip(offset.y + vp.y / 12) as i64,
    }
}

/// The top-left corner of the icon row: the bar inset by a quarter of
/// its width and a fifth of its height.
pub open spec fn bar_icons_c1(offset: Point, vp: Point) -> Point {
    let c2 = bar_corner(offset, vp);
    let w4 = clip(max_i(offset.x as int, c2.x as int) - min_i(offset.x as int, c2.x as int)) / 4;
    let h5 = clip(max_i(offset.y as int, c2.y as int) - min_i(offset.y as int, c2.y as int)) / 5;
    Point { x: clip(offset.x + w4) as i64, y: clip(offset.y + h5) as i64 }
}

/// The width of the icon row.
pub open spec fn bar_icons_width(offset: Point, vp: Point) -> int {
    let c2 = bar_corner(offset, vp);
    let w4 = clip(max_i(offset.x as int, c2.x as int) - min_i(offset.x as int, c2.x as int)) / 4;
    let h5 = clip(max_i(offset.y as int, c2.y as int) - min_i(offset.y as int, c2.y as int)) / 5;
    let c1x = clip(offset.x + w4);
    let c2x = clip(c2.x - w4);
    clip(max_i(c1x, c2x) - min_i(c1x, c2x))
}

/// The vertical center of the icon row.
pub open spec fn bar_icons_cy(offset: Point, vp: Point) -> int {
    let c2 = bar_corner(offset, vp);
    let w4 = clip(max_i(offset.x as int, c2.x as int) - min_i(offset.x as int, c2.x as int)) / 4;
    let h5 = clip(max_i(offset.y as int, c2.y as int) - min_i(offset.y as int, c2.y as int)) / 5;
    let c1y = clip(offset.y + h5);
    let c2y = clip(c2.y - h5);
    clip((c1y + c2y) / 2)
}

/// The click region of the `i`-th palette icon: a default-size square
/// centered on the icon row, the centers spaced a fifth of the row
/// width apart.
pub open spec fn bar_icon_rect(offset: Point, vp: Point, i: int) -> Rect {
    let cx = clip(bar_icons_c1(offset, vp).x + i * bar_icons_width(offset, vp) / 5);
    let center = Point { x: cx as i64, y: bar_icons_cy(offset, vp) as i64 };
    Rect {
        c1: pt_minus(center, Point { x: 15, y: 15 }),
        c2: pt_plus(center, Point { x: 15, y: 15 }),
    }
}

/// The palette bar: a row of shape icons with their click regions.
pub struct ShapeBar {
    pub click_rects: Vec<(ShapeBarShape, Rect)>,
    pub draw_rect: Rect,
}

/// The palette kind at position `i` of the bar.
pub open spec fn bar_kind(i: int) -> ShapeBarShape {
    if i == 0 {
        ShapeBarShape::Circle
    } else if i == 1 {
        ShapeBarShape::Triangle
    } else if i == 2 {
        ShapeBarShape::Rect
    } else if i == 3 {
        ShapeBarShape::TextBox
    } else if i == 4 {
        ShapeBarShape::Line
    } else {
        ShapeBarShape::ColorPicker
    }
}

/// Well-formed palette: six icons, in the fixed order.
pub open spec fn bar_ok(b: ShapeBar) -> bool {
    b.click_rects@.len() == 6 && forall|i: int|
        0 <= i < 6 ==> (#[trigger] b.click_rects@[i]).0 == bar_kind(i)
}

/// The position of the first palette icon whose click region holds
/// `p`, scanning from `i`.
pub open spec fn bar_hit_from(b: ShapeBar, p: Point, i: int) -> Option<int>
    decreases 6 - i,
{
    if i < 0 || i >= 6 || b.click_rects@.len() != 6 {
        None
    } else if rect_contains(b.click_rects@[i].1, p) {
        Some(i)
    } else {
        bar_hit_from(b, p, i + 1)
    }
}

impl ShapeBar {
    /// Lay the six palette icons out in a row across the bar.
    pub fn new(offset: Point, viewport: &Point) -> (b: ShapeBar)
        requires
            0 <= offset.x <= crate::geom::COORD_MAX as int,
            0 <= offset.y <= crate::geom::COORD_MAX as int,
            1 <= viewport.x <= crate::geom::COORD_MAX as int,
            1 <= viewport.y <= crate::geom::COORD_MAX as int,
        ensures
            bar_ok(b),
            b.draw_rect == (Rect { c1: offset, c2: bar_corner(offset, *viewport) }),
            forall|i: int|
                0 <= i < 6 ==> (#[trigger] b.click_rects@[i]).1 == bar_icon_rect(
                    offset,
                    *viewport,
                    i,
                ),
    {
        let c2 = Point {
            x: sat64(offset.x as i128 + 3 * viewport.x as i128 / 5),
            y: sat64(offset.y as i128 + viewport.y as i128 / 12),
        };
        let draw_rect = Rect::new(offset, c2);
        let w4 = draw_rect.width() / 4;
        let h5 = draw_rect.height() / 5;
        let shapes_c1 = Point { x: sat64(offset.x as i128 + w4 as i128), y: sat64(
            offset.y as i128 + h5 as i128,
        ) };
        let shapes_c2 = Point { x: sat64(c2.x as i128 - w4 as i128), y: sat64(
            c2.y as i128 - h5 as i128,
        ) };
        let shapes_rect = Rect::new(shapes_c1, shapes_c2);
        let sw = shapes_rect.width();
        let cy = shapes_rect.center().y;
        let half: i64 = DEFAULT_SHAPE_SIZE / 2;
        let mut click_rects: Vec<(ShapeBarShape, Rect)> = Vec::new();
        let kinds: [ShapeBarShape; 6] = [
            ShapeBarShape::Circle,
            ShapeBarShape::Triangle,
            ShapeBarShape::Rect,
            ShapeBarShape::TextBox,
            ShapeBarShape::Line,
            ShapeBarShape::ColorPicker,
        ];
        let mut i: usize = 0;
        while i < 6
            invariant
                0 <= i <= 6,
                click_rects@.len() == i,
                -(0x2000_0000 as int) <= sw as int <= 0x2000_0000 as int,
                pt_ok(shapes_c1),
                shapes_c1 == bar_icons_c1(offset, *viewport),
                sw as int == bar_icons_width(offset, *viewport),
                cy as int == bar_icons_cy(offset, *viewport),
                half == 15,
                kinds@.len() == 6,
                forall|j: int| 0 <= j < 6 ==> kinds@[j] == bar_kind(j),
                forall|j: int| 0 <= j < i ==> (#[trigger] click_rects@[j]).0 == bar_kind(j),
                forall|j: int|
                    0 <= j < i ==> (#[trigger] click_rects@[j]).1 == bar_icon_rect(
                        offset,
                        *viewport,
                        j,
                    ),
            decreases 6 - i,
        {
            proof {
                crate::geom::lemma_mul_bound(i as int, sw as int, 6, 0x2000_0000);
            }
            let cx = sat64(shapes_c1.x as i128 + (i as i128) * sw as i128 / 5);
            let center = Point { x: cx, y: cy };
            let rect = Rect::new(
                center.minus(&Point { x: half, y: half }),
                center.plus(&Point { x: half, y: half }),
            );
            click_rects.push((kinds[i], rect));
            i = i + 1;
        }
        ShapeBar { click_rects, draw_rect }
    }

    /// The shape a palette kind places into `r`.
    pub fn get_shape(&self, kind: &ShapeBarShape, r: &Rect, fill: bool) -> (s: Shape)
        requires
            pt_ok(r.c1),
            pt_ok(r.c2),
        ensures
            s == bar_shape_spec(*kind, *r, fill),
            shape_ok(s),
    {
        match kind {
            ShapeBarShape::Line => {
                let min_x = if r.c1.x < r.c2.x {
                    r.c1.x
                } else {
                    r.c2.x
                };
                let max_x = if r.c1.x < r.c2.x {
                    r.c2.x
                } else {
                    r.c1.x
                };
                let min_y = if r.c1.y < r.c2.y {
                    r.c1.y
                } else {
                    r.c2.y
                };
                let max_y = if r.c1.y < r.c2.y {
                    r.c2.y
                } else {
                    r.c1.y
                };
                let my = sat64(crate::geom::fdiv(min_y as i128 + max_y as i128, 2));
                Shape::Line(
                    DrawLine {
                        p1: Point { x: min_x, y: my },
                        p2: Point { x: max_x, y: my },
                        line_width: 3,
                        color: Color { r: 255, g: 0, b: 0 },
                    },
                )
            },
            ShapeBarShape::ColorPicker => {
                Shape::Polygon(
                    DrawPolygon {
                        prim: PrimType::Triangle,
                        fill: true,
                        rect: RotateRect {
                            offset: Point { x: 0, y: 0 },
                            size: Point { x: 5, y: 5 },
                            rot: 0,
                            trans: crate::transform::TransformCache { entry: None },
                        },
                        color: Color { r: 0, g: 0, b: 0 },
                    },
                )
            },
            _ => {
                let prim0 = kind.prim_type();
                let prim = if !fill && matches!(prim0, PrimType::Circle) {
                    PrimType::Ring
                } else {
                    prim0
                };
                let rect = RotateRect::from_rect(r, 0);
                let color = match kind {
                    ShapeBarShape::TextBox => Color { r: 255, g: 255, b: 255 },
                    _ => Color { r: 255, g: 0, b: 0 },
                };
                Shape::Polygon(DrawPolygon { prim, fill, rect, color })
            },
        }
    }

    /// A click on the bar: the shape icon under the pointer becomes a
    /// preview request for the parent; the color picker and empty bar
    /// space pass the click on.
    pub fn click(&self, p: &Point) -> (r: Option<ParentCallback>)
        requires
            bar_ok(*self),
            pt_ok(*p),
        ensures
            ({
                let hit = bar_hit_from(*self, *p, 0);
                match hit {
                    Some(i) => {
                        if bar_kind(i) is ColorPicker {
                            r is None
                        } else {
                            r matches Some(cb) && cb.action matches BarAction::PickShape(k, s)
                                && k == bar_kind(i) && s == bar_shape_spec(
                                bar_kind(i),
                                preview_rect(*p),
                                false,
                            )
                        }
                    },
                    None => r is None,
                }
            }),
    {
        let mut i: usize = 0;
        while i < 6
            invariant
                0 <= i <= 6,
                bar_ok(*self),
                pt_ok(*p),
                bar_hit_from(*self, *p, 0) == bar_hit_from(*self, *p, i as int),
            decreases 6 - i,
        {
            let e = self.click_rects[i];
            if e.1.in_bounds(p) {
                match e.0 {
                    ShapeBarShape::ColorPicker => {
                        return None;
                    },
                    _ => {
                        let half: i64 = DEFAULT_SHAPE_SIZE / 2;
                        let r = Rect::new(
                            p.minus(&Point { x: half, y: half }),
                            p.plus(&Point { x: half, y: half }),
                        );
                        let s = self.get_shape(&e.0, &r, false);
                        return Some(
                            ParentCallback { action: BarAction::PickShape(e.0, s) },
                        );
                    },
                }
            }
            i = i + 1;
        }
        None
    }
}

/// The square a palette preview shape is placed in, centered on the
/// pointer.
pub open spec fn preview_rect(p: Point) -> Rect {
    Rect {
        c1: pt_minus(p, Point { x: 15, y: 15 }),
        c2: pt_plus(p, Point { x: 15, y: 15 }),
    }
}

/// What the pointer is currently over.  At most one hover target is
/// active at a time; it is recomputed from scratch on every move that
/// happens outside a drag.
#[derive(Clone, Copy, Debug)]
pub enum HoverItem {
    HoverNone,
    HoverVertex(ShapeID, DragVertex),
    HoverLineVertex(ShapeID, crate::shapes::LineVertex),
    HoverRotate(ShapeID),
    HoverShape(ShapeBarShape, Shape),
    HoverText(ShapeID, Point),
    HoverRect(ShapeID),
    HoverLine(ShapeID),
    HoverCreateLine { start_pt: Point, last_pt: Point, color: Color },
}

/// The multi-event gesture in progress.  At most one drag mode is
/// active at a time; releasing the button always returns to
/// `DragNone`.
#[derive(Clone, Copy, Debug)]
pub enum DragMode {
    DragNone,
    SelectBox { start_pt: Point, last_pt: Point },
    CreateShape { shape_id: ShapeBarShape, start_pt: Point, last_pt: Point },
    DragShapes { last_pt: Point, click_shape: ShapeID, clear_select: bool },
    DragResize { click_box: ShapeID, drag_vertex: DragVertex },
    DragRotate { click_box: ShapeID, last_angle: i64 },
    DragLineVertex { shape_id: ShapeID, line_vertex: crate::shapes::LineVertex },
}

/// Well-formed hover target.
pub open spec fn hover_ok(h: HoverItem) -> bool {
    match h {
        HoverItem::HoverShape(_, s) => shape_ok(s),
        HoverItem::HoverCreateLine { start_pt, last_pt, .. } => pt_ok(start_pt) && pt_ok(last_pt),
        _ => true,
    }
}

/// Well-formed drag mode.
pub open spec fn drag_mode_ok(d: DragMode) -> bool {
    match d {
        DragMode::SelectBox { start_pt, last_pt } => pt_ok(start_pt) && pt_ok(last_pt),
        DragMode::CreateShape { start_pt, last_pt, .. } => pt_ok(start_pt) && pt_ok(last_pt),
        DragMode::DragShapes { last_pt, .. } => pt_ok(last_pt),
        DragMode::DragRotate { last_angle, .. } => deg_ok(last_angle as int),
        _ => true,
    }
}

/// Every selection box on the map is well formed.
pub open spec fn sels_ok(s: Seq<(u32, Selection)>) -> bool {
    forall|i: int| 0 <= i < s.len() ==> crate::select::sel_ok((#[trigger] s[i]).1)
}

/// Every selected-line overlay on the map is well formed.
pub open spec fn slines_ok(s: Seq<(u32, SelectLine)>) -> bool {
    forall|i: int| 0 <= i < s.len() ==> line_ok((#[trigger] s[i]).1.line)
}

/// The editor state: the draw list, the derived selection maps, the
/// palette, and the single-slot hover and drag process state.
pub struct AppState {
    pub viewport: Point,
    pub draw_list: DrawList,
    pub selection: Vec<(ShapeID, Selection)>,
    pub line_select: Vec<(ShapeID, SelectLine)>,
    pub text_boxes: Vec<ShapeID>,
    pub shape_bar: ShapeBar,
    pub drag_mode: DragMode,
    pub hover_item: HoverItem,
    pub key_mode: KeyboardMode,
}

/// Well-formed editor state.
pub open spec fn app_ok(a: AppState) -> bool {
    &&& dl_ok(a.draw_list)
    &&& assoc_ok(a.selection@)
    &&& sels_ok(a.selection@)
    &&& assoc_ok(a.line_select@)
    &&& slines_ok(a.line_select@)
    &&& bar_ok(a.shape_bar)
    &&& hover_ok(a.hover_item)
    &&& drag_mode_ok(a.drag_mode)
    &&& pt_ok(a.viewport)
}

impl AppState {
    /// A fresh editor over a viewport, with the palette laid out along
    /// the top and nothing placed or selected.
    pub fn new(viewport: &Point) -> (a: AppState)
        requires
            1 <= viewport.x <= crate::geom::COORD_MAX as int,
            1 <= viewport.y <= crate::geom::COORD_MAX as int,
        ensures
            app_ok(a),
            a.viewport == *viewport,
            a.draw_list.shapes@.len() == 0,
            a.selection@.len() == 0,
            a.line_select@.len() == 0,
            a.text_boxes@.len() == 0,
            a.drag_mode is DragNone,
            a.hover_item is HoverNone,
            a.key_mode is KeyboardNone,
    {
        let bar_offset = Point { x: viewport.x / 5, y: 0 };
        let shape_bar = ShapeBar::new(bar_offset, viewport);
        AppState {
            viewport: *viewport,
            draw_list: DrawList::new(),
            selection: Vec::new(),
            line_select: Vec::new(),
            text_boxes: Vec::new(),
            shape_bar,
            drag_mode: DragMode::DragNone,
            hover_item: HoverItem::HoverNone,
            key_mode: KeyboardMode::KeyboardNone,
        }
    }

    /// Empty both selection maps and leave text-edit mode.
    pub fn clear_selection(&mut self)
        requires
            app_ok(*old(self)),
        ensures
            app_ok(*final(self)),
            final(self).selection@ == Seq::<(u32, Selection)>::empty(),
            final(self).line_select@ == Seq::<(u32, SelectLine)>::empty(),
            final(self).key_mode is KeyboardNone,
            final(self).draw_list == old(self).draw_list,
            final(self).viewport == old(self).viewport,
            final(self).text_boxes == old(self).text_boxes,
            final(self).shape_bar == old(self).shape_bar,
            final(self).drag_mode == old(self).drag_mode,
            final(self).hover_item == old(self).hover_item,
    {
        self.selection = Vec::new();
        self.line_select = Vec::new();
        self.key_mode = KeyboardMode::KeyboardNone;
        proof {
            assert(self.selection@ =~= Seq::<(u32, Selection)>::empty());
            assert(self.line_select@ =~= Seq::<(u32, SelectLine)>::empty());
        }
    }

    /// Remove every selected shape from the draw list, its text entry
    /// with it, and empty both selection maps.  Unselected shapes
    /// survive untouched, in their old relative draw order.
    #[verifier::rlimit(60)]
    pub fn delete_selection(&mut self)
        requires
            app_ok(*old(self)),
        ensures
            app_ok(*final(self)),
            final(self).selection@.len() == 0,
            final(self).line_select@.len() == 0,
            final(self).draw_list.shapes@ == surviving_shapes(
                old(self).selection@,
                old(self).line_select@,
                old(self).draw_list.shapes@,
            ),
            final(self).draw_list.next_id == old(self).draw_list.next_id,
            forall|o: ShapeID|
                #![trigger crate::drawlist::dl_get(final(self).draw_list, o)]
                crate::drawlist::dl_get(final(self).draw_list, o) == if assoc_has(
                    old(self).selection@,
                    o,
                ) || assoc_has(old(self).line_select@, o) {
                    None::<Shape>
                } else {
                    crate::drawlist::dl_get(old(self).draw_list, o)
                },
            forall|o: ShapeID|
                #![trigger final(self).text_boxes@.contains(o)]
                final(self).text_boxes@.contains(o) == (old(self).text_boxes@.contains(o)
                    && !assoc_has(old(self).selection@, o)),
            final(self).viewport == old(self).viewport,
            final(self).shape_bar == old(self).shape_bar,
            final(self).drag_mode == old(self).drag_mode,
            final(self).hover_item == old(self).hover_item,
            final(self).key_mode == old(self).key_mode,
    {
        self.retain_unselected();
        let m = self.selection.len();
        let mut t: usize = 0;
        while t < m
            invariant
                0 <= t <= m,
                m == self.selection@.len(),
                app_ok(*self),
                app_ok(*old(self)),
                self.selection == old(self).selection,
                self.line_select == old(self).line_select,
                self.draw_list.shapes@ == surviving_shapes(
                    old(self).selection@,
                    old(self).line_select@,
                    old(self).draw_list.shapes@,
                ),
                self.draw_list.next_id == old(self).draw_list.next_id,
                forall|o: ShapeID|
                    #![trigger crate::drawlist::dl_get(self.draw_list, o)]
                    crate::drawlist::dl_get(self.draw_list, o) == if assoc_has(
                        old(self).selection@,
                        o,
                    ) || assoc_has(old(self).line_select@, o) {
                        None::<Shape>
                    } else {
                        crate::drawlist::dl_get(old(self).draw_list, o)
                    },
                self.viewport == old(self).viewport,
                self.shape_bar == old(self).shape_bar,
                self.drag_mode == old(self).drag_mode,
                self.hover_item == old(self).hover_item,
                self.key_mode == old(self).key_mode,
                forall|o: ShapeID|
                    #![trigger self.text_boxes@.contains(o)]
                    self.text_boxes@.contains(o) == (old(self).text_boxes@.contains(o)
                        && !assoc_has_upto(old(self).selection@, o, t as int)),
            decreases m - t,
        {
            let id = self.selection[t].0;
            proof {
                lemma_upto_all(old(self).selection@, t as int);
            }
            remove_id(&mut self.text_boxes, id);
            t = t + 1;
        }
        proof {
            lemma_upto_full(old(self).selection@);
        }
        self.selection = Vec::new();
        self.line_select = Vec::new();
    }

    /// Rebuild the draw list without the selected shapes, keeping the
    /// relative order of the survivors.
    #[verifier::rlimit(100)]
    #[verifier::spinoff_prover]
    #[verifier::rlimit(100)]
    #[verifier::spinoff_prover]
    fn retain_unselected(&mut self)
        requires
            app_ok(*old(self)),
        ensures
            app_ok(*final(self)),
            final(self).draw_list.shapes@ == surviving_shapes(
                old(self).selection@,
                old(self).line_select@,
                old(self).draw_list.shapes@,
            ),
            final(self).draw_list.next_id == old(self).draw_list.next_id,
            forall|o: ShapeID|
                #![trigger crate::drawlist::dl_get(final(self).draw_list, o)]
                crate::drawlist::dl_get(final(self).draw_list, o) == if assoc_has(
                    old(self).selection@,
                    o,
                ) || assoc_has(old(self).line_select@, o) {
                    None::<Shape>
                } else {
                    crate::drawlist::dl_get(old(self).draw_list, o)
                },
            final(self).selection == old(self).selection,
            final(self).line_select == old(self).line_select,
            final(self).text_boxes == old(self).text_boxes,
            final(self).viewport == old(self).viewport,
            final(self).shape_bar == old(self).shape_bar,
            final(self).drag_mode == old(self).drag_mode,
            final(self).hover_item == old(self).hover_item,
            final(self).key_mode == old(self).key_mode,
    {
        let n = self.draw_list.shapes.len();
        let mut kept: Vec<(ShapeID, Shape)> = Vec::new();
        let mut i: usize = 0;
        proof {
            assert(self.draw_list.shapes@.subrange(0, 0) =~= Seq::<(ShapeID, Shape)>::empty());
            reveal_with_fuel(vstd::seq::Seq::<_>::filter, 2);
            assert(kept@ =~= surviving_shapes(
                old(self).selection@,
                old(self).line_select@,
                self.draw_list.shapes@.subrange(0, 0),
            ));
        }
        while i < n
            invariant
                0 <= i <= n,
                n == self.draw_list.shapes@.len(),
                app_ok(*old(self)),
                *self == *old(self),
                kept@ == surviving_shapes(
                    old(self).selection@,
                    old(self).line_select@,
                    old(self).draw_list.shapes@.subrange(0, i as int),
                ),
                forall|k: int|
                    #![trigger crate::drawlist::from_prefix(kept@, old(self).draw_list.shapes@, k, i as int)]
                    0 <= k < kept@.len() ==> crate::drawlist::from_prefix(
                        kept@,
                        old(self).draw_list.shapes@,
                        k,
                        i as int,
                    ),
                forall|jj: int|
                    #![trigger survives(old(self).selection@, old(self).line_select@, old(self).draw_list.shapes@[jj])]
                    0 <= jj < i && survives(
                        old(self).selection@,
                        old(self).line_select@,
                        old(self).draw_list.shapes@[jj],
                    ) ==> crate::drawlist::appears(kept@, old(self).draw_list.shapes@[jj]),
                forall|a: int, b: int|
                    0 <= a < b < kept@.len() ==> (#[trigger] kept@[a].0) != (#[trigger] kept@[b].0),
                forall|k: int|
                    #![trigger kept@[k]]
                    0 <= k < kept@.len() ==> shape_ok(kept@[k].1) && kept@[k].0
                        < old(self).draw_list.next_id && survives(
                        old(self).selection@,
                        old(self).line_select@,
                        kept@[k],
                    ),
            decreases n - i,
        {
            let e = self.draw_list.shapes[i];
            let ghost kept0 = kept@;
            let in_sel = assoc_get(&self.selection, e.0);
            let in_line = assoc_get(&self.line_select, e.0);
            if in_sel.is_none() && in_line.is_none() {
                kept.push(e);
            }
            proof {
                assert(e == old(self).draw_list.shapes@[i as int]);
                lemma_surviving_step(
                    old(self).selection@,
                    old(self).line_select@,
                    old(self).draw_list.shapes@,
                    i as int,
                );
                crate::drawlist::lemma_keep_step(
                    old(self).draw_list.shapes@,
                    i as int,
                    kept0,
                    kept@,
                    in_sel.is_none() && in_line.is_none(),
                );
                crate::drawlist::lemma_complete_step(
                    old(self).selection@,
                    old(self).line_select@,
                    old(self).draw_list.shapes@,
                    i as int,
                    kept0,
                    kept@,
                    in_sel.is_none() && in_line.is_none(),
                );
            }
            i = i + 1;
        }
        proof {
            assert(old(self).draw_list.shapes@.subrange(0, n as int) =~= old(
                self,
            ).draw_list.shapes@);
        }
        self.draw_list.shapes = kept;
        proof {
            lemma_retained_lookup(
                old(self).selection@,
                old(self).line_select@,
                old(self).draw_list,
                self.draw_list,
            );
        }
    }
}


/// Whether one of the first `n` entries carries key `id`.
pub open spec fn assoc_has_upto<T>(s: Seq<(u32, T)>, id: u32, n: int) -> bool {
    exists|k: int| 0 <= k < n && k < s.len() && (#[trigger] s[k].0) == id
}

/// Extending the scanned prefix by one entry adds exactly its key.
proof fn lemma_upto_all<T>(s: Seq<(u32, T)>, n: int)
    requires
        0 <= n < s.len(),
    ensures
        forall|id: u32|
            #![trigger assoc_has_upto(s, id, n + 1)]
            assoc_has_upto(s, id, n + 1) == (assoc_has_upto(s, id, n) || s[n].0 == id),
{
    assert forall|id: u32|
        #![trigger assoc_has_upto(s, id, n + 1)]
        assoc_has_upto(s, id, n + 1) == (assoc_has_upto(s, id, n) || s[n].0 == id) by {
        if assoc_has_upto(s, id, n + 1) {
            let k = choose|k: int| 0 <= k < n + 1 && k < s.len() && (#[trigger] s[k].0) == id;
            if k < n {
                assert(assoc_has_upto(s, id, n));
            }
        }
        if s[n].0 == id {
            assert(0 <= n < n + 1 && n < s.len() && s[n].0 == id);
            assert(assoc_has_upto(s, id, n + 1));
        }
        if assoc_has_upto(s, id, n) {
            let k = choose|k: int| 0 <= k < n && k < s.len() && (#[trigger] s[k].0) == id;
            assert(assoc_has_upto(s, id, n + 1));
        }
    }
}

/// Scanning the whole vector is ordinary membership.
proof fn lemma_upto_full<T>(s: Seq<(u32, T)>)
    ensures
        forall|id: u32|
            #![trigger assoc_has(s, id)]
            assoc_has(s, id) == assoc_has_upto(s, id, s.len() as int),
{
}

/// Drop every occurrence of `id` from a list of ids, keeping the order
/// of the rest.
pub fn remove_id(v: &mut Vec<ShapeID>, id: ShapeID)
    ensures
        forall|o: ShapeID|
            #![trigger final(v)@.contains(o)]
            final(v)@.contains(o) == (old(v)@.contains(o) && o != id),
{
    let mut out: Vec<ShapeID> = Vec::new();
    let n = v.len();
    let mut i: usize = 0;
    while i < n
        invariant
            0 <= i <= n,
            n == v@.len(),
            v@ == old(v)@,
            forall|o: ShapeID|
                #![trigger out@.contains(o)]
                out@.contains(o) == (v@.subrange(0, i as int).contains(o) && o != id),
        decreases n - i,
    {
        let e = v[i];
        let ghost pre = v@.subrange(0, i as int);
        let ghost post = v@.subrange(0, i as int + 1);
        let ghost out0 = out@;
        if e != id {
            out.push(e);
        }
        proof {
            assert forall|o: ShapeID| #![trigger out@.contains(o)] out@.contains(o) == (
            post.contains(o) && o != id) by {
                if post.contains(o) && o != id {
                    let k = choose|k: int| 0 <= k < post.len() && post[k] == o;
                    if k < i {
                        assert(pre[k] == o);
                        assert(pre.contains(o));
                        assert(out0.contains(o));
                        let k2 = choose|k2: int| 0 <= k2 < out0.len() && out0[k2] == o;
                        assert(out@[k2] == o);
                        assert(out@.contains(o));
                    } else {
                        assert(o == e);
                        assert(out@[out@.len() - 1] == e);
                        assert(out@.contains(o));
                    }
                }
                if out@.contains(o) {
                    let k = choose|k: int| 0 <= k < out@.len() && out@[k] == o;
                    if k < out0.len() {
                        assert(out0[k] == o);
                        assert(out0.contains(o));
                        assert(pre.contains(o) && o != id);
                        let k2 = choose|k2: int| 0 <= k2 < pre.len() && pre[k2] == o;
                        assert(post[k2] == o);
                        assert(post.contains(o));
                    } else {
                        assert(e != id && o == e);
                        assert(post[i as int] == e);
                        assert(post.contains(o));
                    }
                }
            }
        }
        i = i + 1;
    }
    proof {
        assert(v@.subrange(0, n as int) =~= v@);
    }
    *v = out;
}

/// The palette kind a click at `p` picks, if any: a bar icon other
/// than the color picker.
pub open spec fn bar_pick(b: ShapeBar, p: Point) -> Option<ShapeBarShape> {
    match bar_hit_from(b, p, 0) {
        Some(i) => if bar_kind(i) is ColorPicker {
            None
        } else {
            Some(bar_kind(i))
        },
        None => None,
    }
}



/// The selection map after the optional clear that a fresh pick
/// begins with.
pub open spec fn cleared_sel(pre: AppState, clear_select: bool) -> Seq<(u32, Selection)> {
    if clear_select {
        Seq::empty()
    } else {
        pre.selection@
    }
}

/// The line-selection map after the optional clear.
pub open spec fn cleared_lines(pre: AppState, clear_select: bool) -> Seq<(u32, SelectLine)> {
    if clear_select {
        Seq::empty()
    } else {
        pre.line_select@
    }
}

/// The keyboard mode after the optional clear.
pub open spec fn cleared_key(pre: AppState, clear_select: bool) -> KeyboardMode {
    if clear_select {
        KeyboardMode::KeyboardNone
    } else {
        pre.key_mode
    }
}

/// The full effect of a pointer-down that performs fresh picking: an
/// optional selection clear, then the palette, then shape picking,
/// then an empty-canvas select-box start.
pub open spec fn select_effect(
    pre: AppState,
    post: AppState,
    pt: Point,
    clear_select: bool,
    cur: CursorIcon,
) -> bool {
    &&& post.viewport == pre.viewport
    &&& post.shape_bar == pre.shape_bar
    &&& post.text_boxes == pre.text_boxes
    &&& ({
        let pick = bar_pick(pre.shape_bar, pt);
        let hit = top_hit_from(
            pre.draw_list.shapes@,
            pt,
            pre.draw_list.shapes@.len() as int,
        );
        &&& (pick matches Some(k) ==> post.hover_item matches HoverItem::HoverShape(k2, s) && k2
            == k && s == bar_shape_spec(k, preview_rect(pt), false) && cur
            == CursorIcon::Crosshair && post.draw_list == pre.draw_list && post.drag_mode
            == pre.drag_mode && post.selection@ == cleared_sel(pre, clear_select)
            && post.line_select@ == cleared_lines(pre, clear_select) && post.key_mode
            == cleared_key(pre, clear_select))
        &&& (pick is None ==> (hit matches Some(i) ==> {
            let id = pre.draw_list.shapes@[i].0;
            let shape = pre.draw_list.shapes@[i].1;
            let base_sel = cleared_sel(pre, clear_select);
            let base_line = cleared_lines(pre, clear_select);
            &&& post.drag_mode == (DragMode::DragShapes {
                last_pt: pt,
                click_shape: id,
                clear_select,
            })
            &&& cur == CursorIcon::Hand
            &&& post.draw_list.shapes@ == pre.draw_list.shapes@.remove(i).push(
                pre.draw_list.shapes@[i],
            )
            &&& post.key_mode == cleared_key(pre, clear_select)
            &&& (shape matches Shape::Polygon(dp) ==> post.line_select@ == base_line
                && post.selection@ == (if assoc_has(base_sel, id) {
                base_sel.update(
                    crate::assoc::assoc_index_of(base_sel, id),
                    (id, Selection { rect: dp.rect }),
                )
            } else {
                base_sel.push((id, Selection { rect: dp.rect }))
            }))
            &&& (shape matches Shape::Line(l) ==> post.selection@ == base_sel
                && post.line_select@ == (if assoc_has(base_line, id) {
                base_line.update(
                    crate::assoc::assoc_index_of(base_line, id),
                    (id, SelectLine { line: l }),
                )
            } else {
                base_line.push((id, SelectLine { line: l }))
            }))
            &&& (shape is Polygon ==> assoc_has(post.selection@, id) && key_of(
                assoc_value(post.selection@, id).rect,
            ) == key_of(shape->Polygon_0.rect))
            &&& (shape is Line ==> assoc_has(post.line_select@, id) && assoc_value(
                post.line_select@,
                id,
            ).line == shape->Line_0)
        }))
        &&& (pick is None && hit is None && clear_select ==> post.selection@.len() == 0
            && post.line_select@.len() == 0 && post.key_mode is KeyboardNone && post.drag_mode
            == (DragMode::SelectBox { start_pt: pt, last_pt: pt }) && post.draw_list
            == pre.draw_list)
        &&& (pick is None && hit is None && !clear_select ==> post == pre && cur
            == CursorIcon::Arrow)
    })
}

impl AppState {
    /// A pointer-down with no active hover target: an optional
    /// selection clear, then the palette, then shape picking, then an
    /// empty-canvas select-box start.
    pub fn handle_select(&mut self, pt: &Point, clear_select: bool) -> (cur: CursorIcon)
        requires
            app_ok(*old(self)),
            pt_ok(*pt),
        ensures
            app_ok(*final(self)),
            select_effect(*old(self), *final(self), *pt, clear_select, cur),
    {
        let mut cursor = CursorIcon::Arrow;
        if clear_select {
            self.clear_selection();
        }
        match self.shape_bar.click(pt) {
            Some(cb) => {
                match cb.action {
                    BarAction::PickShape(k, s) => {
                        self.hover_item = HoverItem::HoverShape(k, s);
                        cursor = CursorIcon::Crosshair;
                    },
                    BarAction::NoOp => {},
                }
            },
            None => {
                let clicked = self.draw_list.click_shape(pt);
                match clicked {
                    Some(id) => {
                        proof {
                            let s0 = old(self).draw_list.shapes@;
                            crate::drawlist::lemma_top_hit_bounds(s0, *pt, s0.len() as int);
                            let i = top_hit_from(s0, *pt, s0.len() as int)->0;
                            assert(self.draw_list.shapes@[self.draw_list.shapes@.len() - 1]
                                == s0[i]);
                            assert(dl_has(self.draw_list, id));
                            assert(crate::drawlist::dl_index_of(self.draw_list, id)
                                == self.draw_list.shapes@.len() - 1);
                        }
                        let got = self.draw_list.get(id);
                        match got {
                            Some(Shape::Polygon(dp)) => {
                                assoc_insert(
                                    &mut self.selection,
                                    id,
                                    Selection::new(dp.rect),
                                );
                            },
                            Some(Shape::Line(l)) => {
                                assoc_insert(&mut self.line_select, id, SelectLine::from_line(&l));
                            },
                            None => {},
                        }
                        self.drag_mode = DragMode::DragShapes {
                            last_pt: *pt,
                            click_shape: id,
                            clear_select,
                        };
                        cursor = CursorIcon::Hand;
                    },
                    None => {
                        if clear_select {
                            self.drag_mode = DragMode::SelectBox { start_pt: *pt, last_pt: *pt };
                        }
                    },
                }
            },
        }
        cursor
    }
}

/// The pixel rectangle a creation drag commits: the dragged span, or
/// a default-size square when the drag was degenerate on either axis.
pub open spec fn created_rect(start: Point, last: Point) -> Rect {
    if start.x == last.x || start.y == last.y {
        Rect { c1: start, c2: pt_plus(start, Point { x: DEFAULT_SHAPE_SIZE, y: DEFAULT_SHAPE_SIZE }) }
    } else {
        Rect { c1: start, c2: last }
    }
}


/// The full effect of a pointer-down with an active hover target:
/// the target promotes into the matching drag mode and the hover item
/// clears, a pending line is committed, or — when the hovered id is
/// gone from its map or the pointer misses the target — nothing
/// changes.
/// Everything a hover-click promotion leaves untouched: the canvas
/// itself — draw list, both selection maps and the text list.
pub open spec fn hover_promote_frame(pre: AppState, post: AppState) -> bool {
    &&& post.draw_list == pre.draw_list
    &&& post.selection == pre.selection
    &&& post.line_select == pre.line_select
    &&& post.text_boxes == pre.text_boxes
}

pub open spec fn hover_click_effect(
    pre: AppState,
    post: AppState,
    pt: Point,
    clear_select: bool,
    cur: CursorIcon,
) -> bool {
    &&& post.viewport == pre.viewport
    &&& post.shape_bar == pre.shape_bar
    &&& (pre.hover_item matches HoverItem::HoverRect(id) ==> (if assoc_has(pre.selection@, id)
        && crate::transform::rr_contains(key_of(assoc_value(pre.selection@, id).rect), pt) {
        post.drag_mode == (DragMode::DragShapes { last_pt: pt, click_shape: id, clear_select })
            && post.hover_item is HoverNone && cur == CursorIcon::Hand && hover_promote_frame(
            pre,
            post,
        ) && post.key_mode == pre.key_mode
    } else {
        post == pre && cur == CursorIcon::Arrow
    }))
    &&& (pre.hover_item matches HoverItem::HoverLine(id) ==> (if assoc_has(pre.line_select@, id)
        && crate::shapes::line_hit(assoc_value(pre.line_select@, id).line, pt) {
        post.drag_mode == (DragMode::DragShapes { last_pt: pt, click_shape: id, clear_select })
            && post.hover_item is HoverNone && cur == CursorIcon::Hand && hover_promote_frame(
            pre,
            post,
        ) && post.key_mode == pre.key_mode
    } else {
        post == pre && cur == CursorIcon::Arrow
    }))
    &&& (pre.hover_item matches HoverItem::HoverRotate(id) ==> (if assoc_has(pre.selection@, id) {
        post.drag_mode == (DragMode::DragRotate {
            click_box: id,
            last_angle: crate::select::rotate_angle_spec(
                key_of(assoc_value(pre.selection@, id).rect),
                pt,
            ) as i64,
        }) && post.hover_item is HoverNone && cur == CursorIcon::Hand && hover_promote_frame(
            pre,
            post,
        ) && post.key_mode == pre.key_mode
    } else {
        post == pre && cur == CursorIcon::Arrow
    }))
    &&& (pre.hover_item matches HoverItem::HoverVertex(id, dv) ==> post.drag_mode == (
    DragMode::DragResize { click_box: id, drag_vertex: dv }) && post.hover_item is HoverNone
        && cur == drag_hover_cursor(dv) && hover_promote_frame(pre, post) && post.key_mode
        == pre.key_mode)
    &&& (pre.hover_item matches HoverItem::HoverLineVertex(id, v) ==> post.drag_mode == (
    DragMode::DragLineVertex { shape_id: id, line_vertex: v }) && post.hover_item is HoverNone
        && cur == CursorIcon::Hand && hover_promote_frame(pre, post) && post.key_mode
        == pre.key_mode)
    &&& (pre.hover_item matches HoverItem::HoverShape(k, s) ==> cur == CursorIcon::Crosshair && (k
        is Line ==> (post.hover_item matches HoverItem::HoverCreateLine {
        start_pt,
        last_pt,
        color,
    } && start_pt == pt && last_pt == pt) && post.drag_mode == pre.drag_mode) && (!(k is Line)
        ==> post.drag_mode == (DragMode::CreateShape { shape_id: k, start_pt: pt, last_pt: pt })
        && post.hover_item is HoverNone) && hover_promote_frame(pre, post) && post.key_mode
        == pre.key_mode)
    &&& (pre.hover_item matches HoverItem::HoverText(id, _) ==> post.key_mode
        == KeyboardMode::TextEdit(id) && post.hover_item is HoverNone && cur
        == CursorIcon::TextBeam && hover_promote_frame(pre, post) && post.drag_mode
        == pre.drag_mode)
    &&& (pre.hover_item matches HoverItem::HoverCreateLine { start_pt, last_pt, color }
        ==> post.hover_item is HoverNone && post.selection == pre.selection && post.text_boxes
        == pre.text_boxes && post.key_mode == pre.key_mode && post.drag_mode == pre.drag_mode && (
    pre.draw_list.next_id < ShapeID::MAX ==> {
        let nid = pre.draw_list.next_id;
        let nl = DrawLine { p1: start_pt, p2: last_pt, line_width: 3, color };
        let sl = SelectLine {
            line: DrawLine {
                p1: start_pt,
                p2: last_pt,
                line_width: 3,
                color: Color { r: 0, g: 0, b: 0 },
            },
        };
        &&& post.draw_list.shapes@ == pre.draw_list.shapes@.push((nid, Shape::Line(nl)))
        &&& post.draw_list.next_id == nid + 1
        &&& crate::drawlist::dl_get(post.draw_list, nid) == Some(Shape::Line(nl))
        &&& post.line_select@ == if assoc_has(pre.line_select@, nid) {
            pre.line_select@.update(
                crate::assoc::assoc_index_of(pre.line_select@, nid),
                (nid, sl),
            )
        } else {
            pre.line_select@.push((nid, sl))
        }
    }) && (pre.draw_list.next_id == ShapeID::MAX ==> post.draw_list == pre.draw_list
        && post.line_select == pre.line_select))
    &&& (pre.hover_item is HoverNone ==> post == pre && cur == CursorIcon::Arrow)
}


/// The full effect of a pointer release: the gesture in progress is
/// committed and the drag mode always returns to none.  A release that
/// commits nothing leaves everything else exactly as it was.
pub open spec fn release_effect(pre: AppState, post: AppState, cur: CursorIcon) -> bool {
    &&& post.drag_mode is DragNone
    &&& cur == CursorIcon::Arrow
    &&& post.viewport == pre.viewport
    &&& post.shape_bar == pre.shape_bar
    &&& post.hover_item == pre.hover_item
    &&& (pre.drag_mode is DragShapes ==> post.draw_list == pre.draw_list && post.text_boxes
        == pre.text_boxes && post.key_mode == pre.key_mode)
    &&& (pre.drag_mode matches DragMode::DragShapes { click_shape, clear_select, .. } ==> (
    clear_select && assoc_has(pre.selection@, click_shape) ==> post.selection@ == seq![
        (click_shape, assoc_value(pre.selection@, click_shape)),
    ] && post.line_select@.len() == 0))
    &&& (pre.drag_mode matches DragMode::DragShapes { click_shape, clear_select, .. } ==> (
    clear_select && !assoc_has(pre.selection@, click_shape) && assoc_has(
        pre.line_select@,
        click_shape,
    ) ==> post.line_select@ == seq![
        (click_shape, assoc_value(pre.line_select@, click_shape)),
    ] && post.selection@.len() == 0))
    &&& (pre.drag_mode matches DragMode::DragShapes { click_shape, clear_select, .. } ==> (!(
    clear_select && (assoc_has(pre.selection@, click_shape) || assoc_has(
        pre.line_select@,
        click_shape,
    ))) ==> post == (AppState { drag_mode: DragMode::DragNone, ..pre })))
    &&& (pre.drag_mode matches DragMode::CreateShape { shape_id, start_pt, last_pt } ==> (
    pre.draw_list.next_id < ShapeID::MAX ==> {
        let nid = pre.draw_list.next_id;
        let r = created_rect(start_pt, last_pt);
        let fill = !(shape_id is TextBox);
        &&& post.draw_list.shapes@ == pre.draw_list.shapes@.push(
            (nid, bar_shape_spec(shape_id, r, fill)),
        )
        &&& post.draw_list.next_id == nid + 1
        &&& crate::drawlist::dl_get(post.draw_list, nid) == Some(
            bar_shape_spec(shape_id, r, fill),
        )
        &&& post.selection == pre.selection
        &&& post.line_select == pre.line_select
        &&& (shape_id is TextBox ==> post.text_boxes@ == pre.text_boxes@.push(nid)
            && post.key_mode == KeyboardMode::TextEdit(nid))
        &&& (!(shape_id is TextBox) ==> post.text_boxes == pre.text_boxes && post.key_mode
            == pre.key_mode)
    }))
    &&& (pre.drag_mode is CreateShape ==> post.selection == pre.selection && post.line_select
        == pre.line_select)
    &&& (!(pre.drag_mode is DragShapes) && !(pre.drag_mode is CreateShape) ==> post == (
    AppState { drag_mode: DragMode::DragNone, ..pre }))
}

impl AppState {
    /// A pointer-down with an active hover target: promote the target
    /// into the matching drag mode (or commit a pending line).
    pub fn handle_hover_click(&mut self, pt: &Point, clear_select: bool) -> (cur: CursorIcon)
        requires
            app_ok(*old(self)),
            pt_ok(*pt),
        ensures
            app_ok(*final(self)),
            hover_click_effect(*old(self), *final(self), *pt, clear_select, cur),
    {
        let mut cursor = CursorIcon::Arrow;
        let h = self.hover_item;
        match h {
            HoverItem::HoverRect(id) => {
                if let Some(sel) = assoc_get(&self.selection, id) {
                    if sel.in_bounds(pt) {
                        self.drag_mode = DragMode::DragShapes {
                            last_pt: *pt,
                            click_shape: id,
                            clear_select,
                        };
                        self.hover_item = HoverItem::HoverNone;
                        cursor = CursorIcon::Hand;
                    }
                }
            },
            HoverItem::HoverLine(id) => {
                if let Some(sl) = assoc_get(&self.line_select, id) {
                    if sl.in_bounds(pt) {
                        self.drag_mode = DragMode::DragShapes {
                            last_pt: *pt,
                            click_shape: id,
                            clear_select,
                        };
                        self.hover_item = HoverItem::HoverNone;
                        cursor = CursorIcon::Hand;
                    }
                }
            },
            HoverItem::HoverRotate(id) => {
                if let Some(sel) = assoc_get(&self.selection, id) {
                    let a = sel.get_rotate_angle(pt);
                    self.drag_mode = DragMode::DragRotate { click_box: id, last_angle: a };
                    self.hover_item = HoverItem::HoverNone;
                    cursor = CursorIcon::Hand;
                }
            },
            HoverItem::HoverVertex(id, dv) => {
                self.drag_mode = DragMode::DragResize { click_box: id, drag_vertex: dv };
                self.hover_item = HoverItem::HoverNone;
                cursor = get_drag_hover_cursor(&dv);
            },
            HoverItem::HoverShape(k, s) => {
                match k {
                    ShapeBarShape::Line => {
                        self.hover_item = HoverItem::HoverCreateLine {
                            start_pt: *pt,
                            last_pt: *pt,
                            color: s.rgb(),
                        };
                    },
                    _ => {
                        self.drag_mode = DragMode::CreateShape {
                            shape_id: k,
                            start_pt: *pt,
                            last_pt: *pt,
                        };
                        self.hover_item = HoverItem::HoverNone;
                    },
                }
                cursor = CursorIcon::Crosshair;
            },
            HoverItem::HoverText(id, _) => {
                self.key_mode = KeyboardMode::TextEdit(id);
                self.hover_item = HoverItem::HoverNone;
                cursor = CursorIcon::TextBeam;
            },
            HoverItem::HoverLineVertex(id, v) => {
                self.drag_mode = DragMode::DragLineVertex { shape_id: id, line_vertex: v };
                self.hover_item = HoverItem::HoverNone;
                cursor = CursorIcon::Hand;
            },
            HoverItem::HoverCreateLine { start_pt, last_pt, color } => {
                let l = DrawLine::new(start_pt, last_pt, 3, color);
                let added = self.draw_list.add(Shape::Line(l));
                if let Some(id) = added {
                    assoc_insert(&mut self.line_select, id, SelectLine::new(start_pt, last_pt));
                    proof {
                        let d = self.draw_list;
                        assert(d.shapes@[d.shapes@.len() - 1] == (id, Shape::Line(l)));
                        assert(dl_has(d, id));
                        assert(crate::drawlist::dl_index_of(d, id) == d.shapes@.len() - 1);
                    }
                }
                self.hover_item = HoverItem::HoverNone;
            },
            HoverItem::HoverNone => {},
        }
        cursor
    }

    /// A pointer release: commit the gesture in progress and return to
    /// no drag mode, whatever the state was.
    pub fn handle_release(&mut self) -> (cur: CursorIcon)
        requires
            app_ok(*old(self)),
        ensures
            app_ok(*final(self)),
            release_effect(*old(self), *final(self), cur),
    {
        let dm = self.drag_mode;
        match dm {
            DragMode::DragShapes { click_shape, clear_select, .. } => {
                if clear_select {
                    if let Some(s) = assoc_get(&self.selection, click_shape) {
                        let mut only: Vec<(ShapeID, Selection)> = Vec::new();
                        only.push((click_shape, s));
                        self.selection = only;
                        self.line_select = Vec::new();
                    } else {
                        if let Some(l) = assoc_get(&self.line_select, click_shape) {
                            let mut only: Vec<(ShapeID, SelectLine)> = Vec::new();
                            only.push((click_shape, l));
                            self.selection = Vec::new();
                            self.line_select = only;
                        }
                    }
                }
            },
            DragMode::CreateShape { shape_id, start_pt, last_pt } => {
                let r0 = Rect::new(start_pt, last_pt);
                let r = if r0.width() < 1 || r0.height() < 1 {
                    Rect::new(
                        start_pt,
                        start_pt.plus(
                            &Point { x: DEFAULT_SHAPE_SIZE, y: DEFAULT_SHAPE_SIZE },
                        ),
                    )
                } else {
                    r0
                };
                let fill = !matches!(shape_id, ShapeBarShape::TextBox);
                let s = self.shape_bar.get_shape(&shape_id, &r, fill);
                let added = self.draw_list.add(s);
                if let Some(id) = added {
                    proof {
                        let d = self.draw_list;
                        assert(d.shapes@[d.shapes@.len() - 1] == (id, s));
                        assert(dl_has(d, id));
                        assert(crate::drawlist::dl_index_of(d, id) == d.shapes@.len() - 1);
                    }
                    if matches!(shape_id, ShapeBarShape::TextBox) {
                        self.text_boxes.push(id);
                        self.key_mode = KeyboardMode::TextEdit(id);
                        proof {
                            assert(self.text_boxes@[self.text_boxes@.len() - 1] == id);
                            assert(self.text_boxes@.contains(id));
                        }
                    }
                }
            },
            _ => {},
        }
        self.drag_mode = DragMode::DragNone;
        CursorIcon::Arrow
    }
}

/// The shape a draw-list entry holds after a move of all selected
/// shapes by `delta`: dragged once per selection map it appears in.
pub open spec fn dragged_entry(
    sel: Seq<(u32, Selection)>,
    lines: Seq<(u32, SelectLine)>,
    id: u32,
    s: Shape,
    delta: Point,
) -> Shape {
    let once = if assoc_has(sel, id) {
        crate::shapes::shape_dragged(s, delta)
    } else {
        s
    };
    if assoc_has(lines, id) {
        crate::shapes::shape_dragged(once, delta)
    } else {
        once
    }
}


/// The data effect of moving every selected shape by `delta`: both
/// selection maps keep their keys with dragged geometry, and each
/// draw-list entry is dragged once per selection map it appears in.
pub open spec fn drag_shapes_effect(pre: AppState, post: AppState, delta: Point) -> bool {
    &&& post.selection@.len() == pre.selection@.len()
    &&& forall|k: int|
        #![trigger post.selection@[k]]
        0 <= k < pre.selection@.len() ==> post.selection@[k].0 == pre.selection@[k].0 && key_of(
            post.selection@[k].1.rect,
        ) == (crate::transform::RectKey {
            offset: pt_plus(pre.selection@[k].1.rect.offset, delta),
            ..key_of(pre.selection@[k].1.rect)
        })
    &&& post.line_select@.len() == pre.line_select@.len()
    &&& forall|k: int|
        #![trigger post.line_select@[k]]
        0 <= k < pre.line_select@.len() ==> post.line_select@[k].0 == pre.line_select@[k].0
            && post.line_select@[k].1.line == (DrawLine {
            p1: pt_plus(pre.line_select@[k].1.line.p1, delta),
            p2: pt_plus(pre.line_select@[k].1.line.p2, delta),
            ..pre.line_select@[k].1.line
        })
    &&& post.draw_list.shapes@.len() == pre.draw_list.shapes@.len()
    &&& post.draw_list.next_id == pre.draw_list.next_id
    &&& forall|j: int|
        #![trigger post.draw_list.shapes@[j]]
        0 <= j < pre.draw_list.shapes@.len() ==> post.draw_list.shapes@[j].0
            == pre.draw_list.shapes@[j].0 && post.draw_list.shapes@[j].1 == dragged_entry(
            pre.selection@,
            pre.line_select@,
            pre.draw_list.shapes@[j].0,
            pre.draw_list.shapes@[j].1,
            delta,
        )
    &&& post.viewport == pre.viewport
    &&& post.shape_bar == pre.shape_bar
    &&& post.text_boxes == pre.text_boxes
}

impl AppState {
    /// Translate every selected shape, with its selection overlay, by
    /// `delta`: the box on the map and the shape on the draw list move
    /// together.
    pub fn drag_selected(&mut self, delta: &Point)
        requires
            app_ok(*old(self)),
        ensures
            app_ok(*final(self)),
            drag_shapes_effect(*old(self), *final(self), *delta),
            final(self).drag_mode == old(self).drag_mode,
            final(self).hover_item == old(self).hover_item,
            final(self).key_mode == old(self).key_mode,
    {
        let n = self.selection.len();
        let mut i: usize = 0;
        while i < n
            invariant
                0 <= i <= n,
                n == self.selection@.len(),
                app_ok(*self),
                app_ok(*old(self)),
                self.selection@.len() == old(self).selection@.len(),
                self.line_select == old(self).line_select,
                self.viewport == old(self).viewport,
                self.shape_bar == old(self).shape_bar,
                self.text_boxes == old(self).text_boxes,
                self.drag_mode == old(self).drag_mode,
                self.hover_item == old(self).hover_item,
                self.key_mode == old(self).key_mode,
                forall|k: int|
                    #![trigger self.selection@[k]]
                    0 <= k < i ==> self.selection@[k].0 == old(self).selection@[k].0 && key_of(
                        self.selection@[k].1.rect,
                    ) == (crate::transform::RectKey {
                        offset: pt_plus(old(self).selection@[k].1.rect.offset, *delta),
                        ..key_of(old(self).selection@[k].1.rect)
                    }),
                forall|k: int|
                    #![trigger self.selection@[k]]
                    i <= k < n ==> self.selection@[k] == old(self).selection@[k],
                self.draw_list.shapes@.len() == old(self).draw_list.shapes@.len(),
                self.draw_list.next_id == old(self).draw_list.next_id,
                forall|j: int|
                    #![trigger self.draw_list.shapes@[j]]
                    0 <= j < old(self).draw_list.shapes@.len() ==> self.draw_list.shapes@[j].0
                        == old(self).draw_list.shapes@[j].0 && self.draw_list.shapes@[j].1 == (
                    if assoc_has_upto(old(self).selection@, old(self).draw_list.shapes@[j].0, i as int) {
                        crate::shapes::shape_dragged(old(self).draw_list.shapes@[j].1, *delta)
                    } else {
                        old(self).draw_list.shapes@[j].1
                    }),
            decreases n - i,
        {
            let e = self.selection[i];
            let id = e.0;
            let mut sel = e.1;
            proof {
                lemma_upto_all(old(self).selection@, i as int);
                assert(old(self).selection@[i as int].0 == id);
                assert(!assoc_has_upto(old(self).selection@, id, i as int)) by {
                    if assoc_has_upto(old(self).selection@, id, i as int) {
                        let k = choose|k: int|
                            0 <= k < i && k < old(self).selection@.len() && (#[trigger] old(self).selection@[k].0) == id;
                        assert(old(self).selection@[k].0 != old(self).selection@[i as int].0);
                    }
                }
            }
            self.draw_list.drag_shape(id, delta);
            sel.drag(delta);
            self.selection.set(i, (id, sel));
            i = i + 1;
        }
        proof {
            lemma_upto_full(old(self).selection@);
        }
        let m = self.line_select.len();
        let mut j: usize = 0;
        while j < m
            invariant
                0 <= j <= m,
                m == self.line_select@.len(),
                app_ok(*self),
                app_ok(*old(self)),
                self.selection@.len() == old(self).selection@.len(),
                forall|k: int|
                    #![trigger self.selection@[k]]
                    0 <= k < self.selection@.len() ==> self.selection@[k].0 == old(self).selection@[k].0 && key_of(self.selection@[k].1.rect) == (
                    crate::transform::RectKey {
                        offset: pt_plus(old(self).selection@[k].1.rect.offset, *delta),
                        ..key_of(old(self).selection@[k].1.rect)
                    }),
                self.line_select@.len() == old(self).line_select@.len(),
                self.viewport == old(self).viewport,
                self.shape_bar == old(self).shape_bar,
                self.text_boxes == old(self).text_boxes,
                self.drag_mode == old(self).drag_mode,
                self.hover_item == old(self).hover_item,
                self.key_mode == old(self).key_mode,
                forall|k: int|
                    #![trigger self.line_select@[k]]
                    0 <= k < j ==> self.line_select@[k].0 == old(self).line_select@[k].0
                        && self.line_select@[k].1.line == (DrawLine {
                        p1: pt_plus(old(self).line_select@[k].1.line.p1, *delta),
                        p2: pt_plus(old(self).line_select@[k].1.line.p2, *delta),
                        ..old(self).line_select@[k].1.line
                    }),
                forall|k: int|
                    #![trigger self.line_select@[k]]
                    j <= k < m ==> self.line_select@[k] == old(self).line_select@[k],
                self.draw_list.shapes@.len() == old(self).draw_list.shapes@.len(),
                self.draw_list.next_id == old(self).draw_list.next_id,
                forall|jj: int|
                    #![trigger self.draw_list.shapes@[jj]]
                    0 <= jj < old(self).draw_list.shapes@.len() ==> self.draw_list.shapes@[jj].0
                        == old(self).draw_list.shapes@[jj].0 && self.draw_list.shapes@[jj].1 == ({
                        let base = if assoc_has(
                            old(self).selection@,
                            old(self).draw_list.shapes@[jj].0,
                        ) {
                            crate::shapes::shape_dragged(old(self).draw_list.shapes@[jj].1, *delta)
                        } else {
                            old(self).draw_list.shapes@[jj].1
                        };
                        if assoc_has_upto(
                            old(self).line_select@,
                            old(self).draw_list.shapes@[jj].0,
                            j as int,
                        ) {
                            crate::shapes::shape_dragged(base, *delta)
                        } else {
                            base
                        }
                    }),
            decreases m - j,
        {
            let e = self.line_select[j];
            let id = e.0;
            let mut sl = e.1;
            proof {
                lemma_upto_all(old(self).line_select@, j as int);
                assert(old(self).line_select@[j as int].0 == id);
                assert(!assoc_has_upto(old(self).line_select@, id, j as int)) by {
                    if assoc_has_upto(old(self).line_select@, id, j as int) {
                        let k = choose|k: int|
                            0 <= k < j && k < old(self).line_select@.len() && (#[trigger] old(self).line_select@[k].0) == id;
                        assert(old(self).line_select@[k].0 != old(self).line_select@[j as int].0);
                    }
                }
            }
            self.draw_list.drag_shape(id, delta);
            sl.drag(delta);
            self.line_select.set(j, (id, sl));
            j = j + 1;
        }
        proof {
            lemma_upto_full(old(self).line_select@);
        }
    }
}


/// The data effect of a select-box drag over `r`: a shape is on the
/// matching selection map exactly when one of its pick vertices lies
/// inside `r`, with a box snapshotting its geometry.
pub open spec fn select_box_effect(pre: AppState, post: AppState, r: Rect) -> bool {
    &&& forall|j: int|
        #![trigger pre.draw_list.shapes@[j]]
        0 <= j < pre.draw_list.shapes@.len() ==> {
            let id = pre.draw_list.shapes@[j].0;
            let s = pre.draw_list.shapes@[j].1;
            &&& (s is Polygon && crate::shapes::shape_touches(s, r) <==> assoc_has(
                post.selection@,
                id,
            ))
            &&& (s is Line && crate::shapes::shape_touches(s, r) <==> assoc_has(
                post.line_select@,
                id,
            ))
            &&& (s is Polygon && crate::shapes::shape_touches(s, r) ==> key_of(
                assoc_value(post.selection@, id).rect,
            ) == key_of(s->Polygon_0.rect))
            &&& (s is Line && crate::shapes::shape_touches(s, r) ==> assoc_value(
                post.line_select@,
                id,
            ).line == s->Line_0)
        }
    &&& forall|o: u32|
        #![trigger assoc_has(post.selection@, o)]
        assoc_has(post.selection@, o) ==> dl_has(pre.draw_list, o)
    &&& forall|o: u32|
        #![trigger assoc_has(post.line_select@, o)]
        assoc_has(post.line_select@, o) ==> dl_has(pre.draw_list, o)
    &&& post.draw_list == pre.draw_list
    &&& post.viewport == pre.viewport
    &&& post.shape_bar == pre.shape_bar
    &&& post.text_boxes == pre.text_boxes
}


/// The data effect of one rotation-drag move: the angle from the box
/// center to the pointer replaces the remembered angle, and its delta
/// is added to the rotation of the box and of the underlying shape,
/// canonicalized.
pub open spec fn rotate_effect(
    pre: AppState,
    post: AppState,
    click_box: ShapeID,
    last_angle: i64,
    pt: Point,
) -> bool {
    &&& (assoc_has(pre.selection@, click_box) ==> ({
        let k0 = key_of(assoc_value(pre.selection@, click_box).rect);
        let a = crate::select::rotate_angle_spec(k0, pt);
        let nk = key_of(assoc_value(post.selection@, click_box).rect);
        &&& nk.rot as int == (k0.rot + a - last_angle) % 360
        &&& nk.offset == k0.offset
        &&& nk.size == k0.size
        &&& post.drag_mode == (DragMode::DragRotate { click_box, last_angle: a as i64 })
        &&& forall|j: int|
            #![trigger post.draw_list.shapes@[j]]
            0 <= j < pre.draw_list.shapes@.len() && pre.draw_list.shapes@[j].0 == click_box
                && pre.draw_list.shapes@[j].1 is Polygon ==> (post.draw_list.shapes@[j].1 matches
            Shape::Polygon(dp) && key_of(dp.rect) == nk)
        &&& assoc_has(post.selection@, click_box)
        &&& post.selection@.len() == pre.selection@.len()
        &&& forall|k: int|
            #![trigger post.selection@[k]]
            0 <= k < pre.selection@.len() && k != crate::assoc::assoc_index_of(
                pre.selection@,
                click_box,
            ) ==> post.selection@[k] == pre.selection@[k]
        &&& forall|k: int|
            #![trigger post.selection@[k]]
            0 <= k < pre.selection@.len() ==> post.selection@[k].0 == pre.selection@[k].0
        &&& post.line_select == pre.line_select
        &&& post.draw_list.shapes@.len() == pre.draw_list.shapes@.len()
        &&& post.draw_list.next_id == pre.draw_list.next_id
        &&& forall|j: int|
            #![trigger post.draw_list.shapes@[j]]
            0 <= j < pre.draw_list.shapes@.len() ==> post.draw_list.shapes@[j].0
                == pre.draw_list.shapes@[j].0 && (pre.draw_list.shapes@[j].0 != click_box
                ==> post.draw_list.shapes@[j] == pre.draw_list.shapes@[j]) && (
            pre.draw_list.shapes@[j].1 is Line ==> post.draw_list.shapes@[j]
                == pre.draw_list.shapes@[j])
    }))
    &&& (!assoc_has(pre.selection@, click_box) ==> post == pre)
    &&& post.viewport == pre.viewport
    &&& post.shape_bar == pre.shape_bar
    &&& post.text_boxes == pre.text_boxes
}

/// The data effect of one resize-drag move: the pointer's model image
/// drives the swap algorithm; the box and the underlying shape take
/// the resized placement together, never degenerate, and the active
/// handle flips to the opposite one exactly on a crossing.
pub open spec fn resize_effect(
    pre: AppState,
    post: AppState,
    click_box: ShapeID,
    drag_vertex: DragVertex,
    pt: Point,
) -> bool {
    &&& (assoc_has(pre.selection@, click_box) ==> ({
        let k0 = key_of(assoc_value(pre.selection@, click_box).rect);
        let m = p2m_spec(transform_of(k0), pt);
        let nk = key_of(assoc_value(post.selection@, click_box).rect);
        &&& nk == crate::transform::resize_spec(
            k0,
            crate::select::drag_model_rect(drag_vertex, m),
        )
        &&& post.drag_mode == (DragMode::DragResize {
            click_box,
            drag_vertex: crate::select::drag_result_vertex(drag_vertex, m),
        })
        &&& nk.size.x >= 1 && nk.size.y >= 1
        &&& forall|j: int|
            #![trigger post.draw_list.shapes@[j]]
            0 <= j < pre.draw_list.shapes@.len() && pre.draw_list.shapes@[j].0 == click_box
                && pre.draw_list.shapes@[j].1 is Polygon ==> (post.draw_list.shapes@[j].1 matches
            Shape::Polygon(dp) && key_of(dp.rect) == nk)
        &&& assoc_has(post.selection@, click_box)
        &&& post.selection@.len() == pre.selection@.len()
        &&& forall|k: int|
            #![trigger post.selection@[k]]
            0 <= k < pre.selection@.len() && k != crate::assoc::assoc_index_of(
                pre.selection@,
                click_box,
            ) ==> post.selection@[k] == pre.selection@[k]
        &&& forall|k: int|
            #![trigger post.selection@[k]]
            0 <= k < pre.selection@.len() ==> post.selection@[k].0 == pre.selection@[k].0
        &&& post.line_select == pre.line_select
        &&& post.draw_list.shapes@.len() == pre.draw_list.shapes@.len()
        &&& post.draw_list.next_id == pre.draw_list.next_id
        &&& forall|j: int|
            #![trigger post.draw_list.shapes@[j]]
            0 <= j < pre.draw_list.shapes@.len() ==> post.draw_list.shapes@[j].0
                == pre.draw_list.shapes@[j].0 && (pre.draw_list.shapes@[j].0 != click_box
                ==> post.draw_list.shapes@[j] == pre.draw_list.shapes@[j]) && (
            pre.draw_list.shapes@[j].1 is Line ==> post.draw_list.shapes@[j]
                == pre.draw_list.shapes@[j])
    }))
    &&& (!assoc_has(pre.selection@, click_box) ==> post == pre)
    &&& post.viewport == pre.viewport
    &&& post.shape_bar == pre.shape_bar
    &&& post.text_boxes == pre.text_boxes
}

impl AppState {
    /// Rebuild both selection maps from a select-box drag: a shape is
    /// selected exactly when one of its pick vertices lies inside the
    /// dragged rectangle.
    pub fn update_select_box(&mut self, r: &Rect)
        requires
            app_ok(*old(self)),
        ensures
            app_ok(*final(self)),
            select_box_effect(*old(self), *final(self), *r),
            final(self).drag_mode == old(self).drag_mode,
            final(self).hover_item == old(self).hover_item,
            final(self).key_mode == old(self).key_mode,
    {
        self.selection = Vec::new();
        self.line_select = Vec::new();
        let n = self.draw_list.shapes.len();
        let mut i: usize = 0;
        while i < n
            invariant
                0 <= i <= n,
                n == self.draw_list.shapes@.len(),
                app_ok(*self),
                app_ok(*old(self)),
                self.draw_list == old(self).draw_list,
                self.viewport == old(self).viewport,
                self.shape_bar == old(self).shape_bar,
                self.text_boxes == old(self).text_boxes,
                self.drag_mode == old(self).drag_mode,
                self.hover_item == old(self).hover_item,
                self.key_mode == old(self).key_mode,
                forall|j: int|
                    #![trigger self.draw_list.shapes@[j]]
                    0 <= j < i ==> {
                        let id = self.draw_list.shapes@[j].0;
                        let s = self.draw_list.shapes@[j].1;
                        &&& (s is Polygon && crate::shapes::shape_touches(s, *r) <==> assoc_has(
                            self.selection@,
                            id,
                        ))
                        &&& (s is Line && crate::shapes::shape_touches(s, *r) <==> assoc_has(
                            self.line_select@,
                            id,
                        ))
                        &&& (s is Polygon && crate::shapes::shape_touches(s, *r) ==> key_of(
                            assoc_value(self.selection@, id).rect,
                        ) == key_of(s->Polygon_0.rect))
                        &&& (s is Line && crate::shapes::shape_touches(s, *r) ==> assoc_value(
                            self.line_select@,
                            id,
                        ).line == s->Line_0)
                    },
                forall|o: u32|
                    #![trigger assoc_has(self.selection@, o)]
                    assoc_has(self.selection@, o) ==> exists|j: int|
                        0 <= j < i && (#[trigger] self.draw_list.shapes@[j]).0 == o,
                forall|o: u32|
                    #![trigger assoc_has(self.line_select@, o)]
                    assoc_has(self.line_select@, o) ==> exists|j: int|
                        0 <= j < i && (#[trigger] self.draw_list.shapes@[j]).0 == o,
            decreases n - i,
        {
            let e = self.draw_list.shapes[i];
            let id = e.0;
            proof {
                assert forall|j: int| 0 <= j < i implies (#[trigger] self.draw_list.shapes@[j]).0
                    != id by {
                    assert(self.draw_list.shapes@[j].0 != self.draw_list.shapes@[i as int].0);
                }
            }
            if e.1.in_select_box(r) {
                match e.1 {
                    Shape::Polygon(dp) => {
                        assoc_insert(&mut self.selection, id, Selection::new(dp.rect));
                    },
                    Shape::Line(l) => {
                        assoc_insert(&mut self.line_select, id, SelectLine::from_line(&l));
                    },
                }
            }
            i = i + 1;
        }
    }

    /// One move of a rotation drag: apply the angle delta since the
    /// previous move to the selected box and to the underlying shape,
    /// together, and remember the new angle.
    pub fn rotate_selected(&mut self, click_box: ShapeID, last_angle: i64, pt: &Point)
        requires
            app_ok(*old(self)),
            pt_ok(*pt),
            deg_ok(last_angle as int),
        ensures
            app_ok(*final(self)),
            rotate_effect(*old(self), *final(self), click_box, last_angle, *pt),
            final(self).hover_item == old(self).hover_item,
            final(self).key_mode == old(self).key_mode,
    {
        if let Some(sel) = assoc_get(&self.selection, click_box) {
            let a = sel.get_rotate_angle(pt);
            let mut s2 = sel;
            let target = s2.rect.rot + a - last_angle;
            s2.rect.set_rotation(target);
            assoc_insert(&mut self.selection, click_box, s2);
            self.draw_list.set_shape_rect(click_box, &s2.rect);
            self.drag_mode = DragMode::DragRotate { click_box, last_angle: a };
        }
    }

    /// One move of a resize drag: apply the swap algorithm to the
    /// selected box, write the new placement to the underlying shape
    /// in the same step, and remember the handle that stays active.
    pub fn resize_selected(&mut self, click_box: ShapeID, drag_vertex: DragVertex, pt: &Point)
        requires
            app_ok(*old(self)),
            pt_ok(*pt),
        ensures
            app_ok(*final(self)),
            resize_effect(*old(self), *final(self), click_box, drag_vertex, *pt),
            final(self).hover_item == old(self).hover_item,
            final(self).key_mode == old(self).key_mode,
    {
        if let Some(sel) = assoc_get(&self.selection, click_box) {
            let mut s2 = sel;
            let nv = s2.drag_side(&drag_vertex, pt);
            assoc_insert(&mut self.selection, click_box, s2);
            self.draw_list.set_shape_rect(click_box, &s2.rect);
            self.drag_mode = DragMode::DragResize { click_box, drag_vertex: nv };
        }
    }

    /// One move of a line-endpoint drag: move the endpoint on the
    /// overlay and on the underlying line shape together.
    pub fn drag_selected_line_vertex(
        &mut self,
        shape_id: ShapeID,
        line_vertex: crate::shapes::LineVertex,
        pt: &Point,
    )
        requires
            app_ok(*old(self)),
            pt_ok(*pt),
        ensures
            app_ok(*final(self)),
            line_vertex_effect(*old(self), *final(self), shape_id, line_vertex, *pt),
            final(self).drag_mode == old(self).drag_mode,
            final(self).hover_item == old(self).hover_item,
            final(self).key_mode == old(self).key_mode,
    {
        if let Some(sl) = assoc_get(&self.line_select, shape_id) {
            let mut l2 = sl;
            l2.drag_vertex(&line_vertex, pt);
            assoc_insert(&mut self.line_select, shape_id, l2);
            self.draw_list.drag_shape_vertex(shape_id, &line_vertex, pt);
        }
    }
}

/// The data effect of one line-endpoint drag move: the dragged
/// endpoint moves to the pointer on the overlay and on the underlying
/// line in the same step; every other map entry and every other shape
/// stays exactly as it was.
pub open spec fn line_vertex_effect(
    pre: AppState,
    post: AppState,
    shape_id: ShapeID,
    line_vertex: crate::shapes::LineVertex,
    pt: Point,
) -> bool {
    &&& (assoc_has(pre.line_select@, shape_id) ==> ({
        let l0 = assoc_value(pre.line_select@, shape_id).line;
        let nl = if line_vertex is P1 {
            DrawLine { p1: pt, ..l0 }
        } else {
            DrawLine { p2: pt, ..l0 }
        };
        &&& post.line_select@ == pre.line_select@.update(
            crate::assoc::assoc_index_of(pre.line_select@, shape_id),
            (shape_id, SelectLine { line: nl }),
        )
        &&& post.selection == pre.selection
        &&& post.draw_list.shapes@.len() == pre.draw_list.shapes@.len()
        &&& post.draw_list.next_id == pre.draw_list.next_id
        &&& forall|j: int|
            #![trigger post.draw_list.shapes@[j]]
            0 <= j < pre.draw_list.shapes@.len() ==> post.draw_list.shapes@[j].0
                == pre.draw_list.shapes@[j].0 && (pre.draw_list.shapes@[j].0 != shape_id
                ==> post.draw_list.shapes@[j] == pre.draw_list.shapes@[j]) && (
            pre.draw_list.shapes@[j].0 == shape_id ==> ((pre.draw_list.shapes@[j].1 matches
            Shape::Line(pl) ==> post.draw_list.shapes@[j].1 == (if line_vertex is P1 {
                Shape::Line(DrawLine { p1: pt, ..pl })
            } else {
                Shape::Line(DrawLine { p2: pt, ..pl })
            })) && (pre.draw_list.shapes@[j].1 is Polygon ==> post.draw_list.shapes@[j]
                == pre.draw_list.shapes@[j])))
    }))
    &&& (!assoc_has(pre.line_select@, shape_id) ==> post == pre)
    &&& post.viewport == pre.viewport
    &&& post.shape_bar == pre.shape_bar
    &&& post.text_boxes == pre.text_boxes
}


/// How a palette preview follows the pointer: a polygon recenters its
/// placement on the pointer, a line moves so its midpoint lands there.
pub open spec fn preview_moved(s: Shape, pt: Point, s2: Shape) -> bool {
    match s {
        Shape::Polygon(dp) => {
            let noff = Point {
                x: clip(pt.x - dp.rect.size.x as int / 2) as i64,
                y: clip(pt.y - dp.rect.size.y as int / 2) as i64,
            };
            match s2 {
                Shape::Polygon(dp2) => dp2.prim == dp.prim && dp2.fill == dp.fill && dp2.color
                    == dp.color && key_of(dp2.rect) == (crate::transform::RectKey {
                    offset: noff,
                    ..key_of(dp.rect)
                }),
                Shape::Line(_) => false,
            }
        },
        Shape::Line(l) => {
            let off = pt_minus(pt, pt_mid(l.p1, l.p2));
            s2 == Shape::Line(DrawLine { p1: pt_plus(l.p1, off), p2: pt_plus(l.p2, off), ..l })
        },
    }
}

/// The first selection box, in map order, that the pointer is over,
/// with what part of it, scanning from position `i`.
pub open spec fn first_sel_hover(s: Seq<(u32, Selection)>, p: Point, i: int) -> Option<
    (u32, BoxHover),
>
    decreases s.len() - i,
{
    if i < 0 || i >= s.len() {
        None
    } else {
        match box_hover_spec(key_of(s[i].1.rect), p) {
            Some(bh) => Some((s[i].0, bh)),
            None => first_sel_hover(s, p, i + 1),
        }
    }
}

/// The first selected line, in map order, that the pointer is over,
/// with what part of it, scanning from position `i`.
pub open spec fn first_line_hover(s: Seq<(u32, SelectLine)>, p: Point, i: int) -> Option<
    (u32, LineHover),
>
    decreases s.len() - i,
{
    if i < 0 || i >= s.len() {
        None
    } else {
        match line_hover_spec(s[i].1.line, p) {
            Some(lh) => Some((s[i].0, lh)),
            None => first_line_hover(s, p, i + 1),
        }
    }
}

/// The placement a shape's text is laid out in: a polygon's own
/// placement; a line reports the default placement as a stand-in.
pub open spec fn shape_rect_key(s: Shape) -> crate::transform::RectKey {
    match s {
        Shape::Polygon(dp) => key_of(dp.rect),
        Shape::Line(_) => crate::transform::RectKey {
            offset: Point { x: 0, y: 0 },
            size: Point { x: 5, y: 5 },
            rot: 0,
        },
    }
}

/// The first text shape, in list order, whose footprint holds the
/// pointer, with the pointer's model-space image in that shape: the
/// caller's text collaborator turns the model point into a character
/// offset.
pub open spec fn first_text_hover(
    texts: Seq<u32>,
    d: DrawList,
    p: Point,
    i: int,
) -> Option<(u32, Point)>
    decreases texts.len() - i,
{
    if i < 0 || i >= texts.len() {
        None
    } else {
        match crate::drawlist::dl_get(d, texts[i]) {
            Some(s) => if crate::shapes::shape_hit(s, p) {
                Some((texts[i], p2m_spec(transform_of(shape_rect_key(s)), p)))
            } else {
                first_text_hover(texts, d, p, i + 1)
            },
            None => first_text_hover(texts, d, p, i + 1),
        }
    }
}

/// The hover target and cursor a fresh scan of the pointer position
/// yields: precise handle tests first, then selected lines, then text,
/// else nothing.
pub open spec fn scan_hover_spec(a: AppState, p: Point) -> (HoverItem, CursorIcon) {
    match first_sel_hover(a.selection@, p, 0) {
        Some((id, bh)) => match bh {
            BoxHover::Rect => (HoverItem::HoverRect(id), CursorIcon::Hand),
            BoxHover::RotateVert => (HoverItem::HoverRotate(id), CursorIcon::Hand),
            BoxHover::Drag(dv) => (HoverItem::HoverVertex(id, dv), drag_hover_cursor(dv)),
        },
        None => match first_line_hover(a.line_select@, p, 0) {
            Some((id, lh)) => match lh {
                LineHover::Line => (HoverItem::HoverLine(id), CursorIcon::Hand),
                LineHover::Vertex(v) => (HoverItem::HoverLineVertex(id, v), CursorIcon::Hand),
            },
            None => match first_text_hover(a.text_boxes@, a.draw_list, p, 0) {
                Some((id, mp)) => (HoverItem::HoverText(id, mp), CursorIcon::TextBeam),
                None => (HoverItem::HoverNone, CursorIcon::Arrow),
            },
        },
    }
}


/// The full effect of a pointer move during a drag: the active
/// gesture's mutation.
pub open spec fn drag_move_effect(pre: AppState, post: AppState, pt: Point, cur: CursorIcon) -> bool {
    &&& (pre.drag_mode is DragNone ==> post == pre && cur == CursorIcon::Arrow)
    &&& (pre.drag_mode matches DragMode::DragShapes { last_pt, click_shape, .. } ==> ({
        &&& drag_shapes_effect(pre, post, pt_minus(pt, last_pt))
        &&& post.drag_mode == (DragMode::DragShapes {
            last_pt: pt,
            click_shape,
            clear_select: false,
        })
        &&& cur == CursorIcon::Hand
    }))
    &&& (pre.drag_mode matches DragMode::SelectBox { start_pt, .. } ==> ({
        &&& select_box_effect(pre, post, Rect { c1: start_pt, c2: pt })
        &&& post.drag_mode == (DragMode::SelectBox { start_pt, last_pt: pt })
    }))
    &&& (pre.drag_mode matches DragMode::DragRotate { click_box, last_angle } ==> ({
        &&& rotate_effect(pre, post, click_box, last_angle, pt)
        &&& cur == CursorIcon::Hand
    }))
    &&& (pre.drag_mode matches DragMode::DragResize { click_box, drag_vertex } ==> ({
        &&& resize_effect(pre, post, click_box, drag_vertex, pt)
        &&& cur == drag_hover_cursor(drag_vertex)
    }))
    &&& (pre.drag_mode matches DragMode::DragLineVertex { shape_id, line_vertex }
        ==> line_vertex_effect(pre, post, shape_id, line_vertex, pt))
    &&& (pre.drag_mode matches DragMode::CreateShape { shape_id, start_pt, .. } ==> ({
        &&& post == (AppState {
            drag_mode: DragMode::CreateShape { shape_id, start_pt, last_pt: pt },
            ..pre
        })
        &&& cur == CursorIcon::Crosshair
    }))
    &&& post.viewport == pre.viewport
    &&& post.shape_bar == pre.shape_bar
    &&& post.hover_item == pre.hover_item
    &&& post.key_mode == pre.key_mode
}


/// The full effect of a pointer move outside a drag: an active
/// palette preview follows the pointer, otherwise the hover target is
/// recomputed from scratch.
pub open spec fn hover_move_effect(pre: AppState, post: AppState, pt: Point, cur: CursorIcon) -> bool {
    &&& (pre.hover_item matches HoverItem::HoverShape(k, s) ==> cur == CursorIcon::Crosshair && (
    post.hover_item matches HoverItem::HoverShape(k2, s2) && k2 == k && preview_moved(s, pt, s2)))
    &&& (pre.hover_item matches HoverItem::HoverCreateLine { start_pt, color, .. } ==> cur
        == CursorIcon::Crosshair && post.hover_item == (HoverItem::HoverCreateLine {
        start_pt,
        last_pt: pt,
        color,
    }))
    &&& (!(pre.hover_item is HoverShape) && !(pre.hover_item is HoverCreateLine) ==> (
    post.hover_item, cur) == scan_hover_spec(pre, pt))
    &&& post.viewport == pre.viewport
    &&& post.draw_list == pre.draw_list
    &&& post.selection == pre.selection
    &&& post.line_select == pre.line_select
    &&& post.text_boxes == pre.text_boxes
    &&& post.shape_bar == pre.shape_bar
    &&& post.drag_mode == pre.drag_mode
    &&& post.key_mode == pre.key_mode
}

impl AppState {
    /// A pointer move during a drag: apply the active gesture's
    /// mutation.
    pub fn handle_drag(&mut self, pt: &Point) -> (cur: CursorIcon)
        requires
            app_ok(*old(self)),
            pt_ok(*pt),
        ensures
            app_ok(*final(self)),
            drag_move_effect(*old(self), *final(self), *pt, cur),
    {
        let dm = self.drag_mode;
        match dm {
            DragMode::DragShapes { last_pt, click_shape, .. } => {
                let delta = pt.minus(&last_pt);
                self.drag_selected(&delta);
                self.drag_mode = DragMode::DragShapes {
                    last_pt: *pt,
                    click_shape,
                    clear_select: false,
                };
                CursorIcon::Hand
            },
            DragMode::SelectBox { start_pt, .. } => {
                let r = Rect::new(start_pt, *pt);
                self.update_select_box(&r);
                self.drag_mode = DragMode::SelectBox { start_pt, last_pt: *pt };
                CursorIcon::Arrow
            },
            DragMode::DragRotate { click_box, last_angle } => {
                self.rotate_selected(click_box, last_angle, pt);
                CursorIcon::Hand
            },
            DragMode::DragResize { click_box, drag_vertex } => {
                self.resize_selected(click_box, drag_vertex, pt);
                get_drag_hover_cursor(&drag_vertex)
            },
            DragMode::DragLineVertex { shape_id, line_vertex } => {
                self.drag_selected_line_vertex(shape_id, line_vertex, pt);
                CursorIcon::Arrow
            },
            DragMode::CreateShape { shape_id, start_pt, .. } => {
                self.drag_mode = DragMode::CreateShape { shape_id, start_pt, last_pt: *pt };
                CursorIcon::Crosshair
            },
            DragMode::DragNone => CursorIcon::Arrow,
        }
    }

    /// A pointer move outside a drag: move an active palette preview
    /// with the pointer, or recompute the hover target from scratch.
    pub fn handle_hover(&mut self, pt: &Point) -> (cur: CursorIcon)
        requires
            app_ok(*old(self)),
            pt_ok(*pt),
        ensures
            app_ok(*final(self)),
            hover_move_effect(*old(self), *final(self), *pt, cur),
    {
        let h = self.hover_item;
        match h {
            HoverItem::HoverShape(k, s) => {
                let s2 = match s {
                    Shape::Polygon(dp) => {
                        let mut dp2 = dp;
                        dp2.rect.set_center(pt);
                        Shape::Polygon(dp2)
                    },
                    Shape::Line(l) => {
                        let mut l2 = l;
                        let c = l.p1.midpoint(&l.p2);
                        let off = pt.minus(&c);
                        l2.drag(&off);
                        Shape::Line(l2)
                    },
                };
                self.hover_item = HoverItem::HoverShape(k, s2);
                CursorIcon::Crosshair
            },
            HoverItem::HoverCreateLine { start_pt, color, .. } => {
                self.hover_item = HoverItem::HoverCreateLine {
                    start_pt,
                    last_pt: *pt,
                    color,
                };
                CursorIcon::Crosshair
            },
            _ => {
                let sel_hit = self.scan_selection_hover(pt);
                match sel_hit {
                    Some((id, bh)) => {
                        match bh {
                            BoxHover::Rect => {
                                self.hover_item = HoverItem::HoverRect(id);
                                CursorIcon::Hand
                            },
                            BoxHover::RotateVert => {
                                self.hover_item = HoverItem::HoverRotate(id);
                                CursorIcon::Hand
                            },
                            BoxHover::Drag(dv) => {
                                self.hover_item = HoverItem::HoverVertex(id, dv);
                                get_drag_hover_cursor(&dv)
                            },
                        }
                    },
                    None => {
                        let line_hit = self.scan_line_hover(pt);
                        match line_hit {
                            Some((id, lh)) => {
                                match lh {
                                    LineHover::Line => {
                                        self.hover_item = HoverItem::HoverLine(id);
                                    },
                                    LineHover::Vertex(v) => {
                                        self.hover_item = HoverItem::HoverLineVertex(id, v);
                                    },
                                }
                                CursorIcon::Hand
                            },
                            None => {
                                let text_hit = self.scan_text_hover(pt);
                                match text_hit {
                                    Some((id, mp)) => {
                                        self.hover_item = HoverItem::HoverText(id, mp);
                                        CursorIcon::TextBeam
                                    },
                                    None => {
                                        self.hover_item = HoverItem::HoverNone;
                                        CursorIcon::Arrow
                                    },
                                }
                            },
                        }
                    },
                }
            },
        }
    }

    /// The first selection box the pointer is over, with what part.
    fn scan_selection_hover(&self, pt: &Point) -> (r: Option<(ShapeID, BoxHover)>)
        requires
            app_ok(*self),
            pt_ok(*pt),
        ensures
            r == first_sel_hover(self.selection@, *pt, 0),
    {
        let n = self.selection.len();
        let mut i: usize = 0;
        while i < n
            invariant
                0 <= i <= n,
                n == self.selection@.len(),
                app_ok(*self),
                pt_ok(*pt),
                first_sel_hover(self.selection@, *pt, 0) == first_sel_hover(
                    self.selection@,
                    *pt,
                    i as int,
                ),
            decreases n - i,
        {
            let e = self.selection[i];
            if let Some(bh) = e.1.get_hover(pt) {
                return Some((e.0, bh));
            }
            i = i + 1;
        }
        None
    }

    /// The first selected line the pointer is over, with what part.
    fn scan_line_hover(&self, pt: &Point) -> (r: Option<(ShapeID, LineHover)>)
        requires
            app_ok(*self),
            pt_ok(*pt),
        ensures
            r == first_line_hover(self.line_select@, *pt, 0),
    {
        let n = self.line_select.len();
        let mut i: usize = 0;
        while i < n
            invariant
                0 <= i <= n,
                n == self.line_select@.len(),
                app_ok(*self),
                pt_ok(*pt),
                first_line_hover(self.line_select@, *pt, 0) == first_line_hover(
                    self.line_select@,
                    *pt,
                    i as int,
                ),
            decreases n - i,
        {
            let e = self.line_select[i];
            if let Some(lh) = e.1.get_hover(pt) {
                return Some((e.0, lh));
            }
            i = i + 1;
        }
        None
    }

    /// The first text shape whose footprint holds the pointer, with
    /// the pointer's model-space image inside it.
    fn scan_text_hover(&self, pt: &Point) -> (r: Option<(ShapeID, Point)>)
        requires
            app_ok(*self),
            pt_ok(*pt),
        ensures
            r == first_text_hover(self.text_boxes@, self.draw_list, *pt, 0),
    {
        let n = self.text_boxes.len();
        let mut i: usize = 0;
        while i < n
            invariant
                0 <= i <= n,
                n == self.text_boxes@.len(),
                app_ok(*self),
                pt_ok(*pt),
                first_text_hover(self.text_boxes@, self.draw_list, *pt, 0) == first_text_hover(
                    self.text_boxes@,
                    self.draw_list,
                    *pt,
                    i as int,
                ),
            decreases n - i,
        {
            let id = self.text_boxes[i];
            if let Some(s) = self.draw_list.get(id) {
                if s.in_bounds(pt) {
                    let rect = s.rect();
                    let t = rect.transform_fresh();
                    let mp = t.pixel_to_model(pt);
                    proof {
                        assert(key_of(rect) == shape_rect_key(s));
                    }
                    return Some((id, mp));
                }
            }
            i = i + 1;
        }
        None
    }
}

/// The pointer position clamped into the coordinate range.
pub open spec fn clamp_pt(x: i64, y: i64) -> Point {
    Point { x: clip(x as int) as i64, y: clip(y as int) as i64 }
}

impl AppState {
    /// The engine's pointer entry point: consume one pointer event and
    /// answer with the cursor icon to show.  A press promotes the
    /// hover target into a drag or performs fresh picking; a release
    /// always commits the gesture and returns to no drag mode; a move
    /// either recomputes the hover target or applies the active drag.
    /// Clicking empty canvas space without the keep-selection modifier
    /// clears the whole selection.
    pub fn handle_pointer_event(
        &mut self,
        kind: PointerEventKind,
        x: i64,
        y: i64,
        keep_selection: bool,
    ) -> (cur: CursorIcon)
        requires
            app_ok(*old(self)),
        ensures
            app_ok(*final(self)),
            kind is Up ==> final(self).drag_mode is DragNone,
            ({
                let pt = clamp_pt(x, y);
                &&& (kind is Down && old(self).hover_item is HoverNone ==> select_effect(
                    *old(self),
                    *final(self),
                    pt,
                    !keep_selection,
                    cur,
                ))
                &&& (kind is Down && !(old(self).hover_item is HoverNone) ==> hover_click_effect(
                    *old(self),
                    *final(self),
                    pt,
                    !keep_selection,
                    cur,
                ))
                &&& (kind is Up ==> release_effect(*old(self), *final(self), cur))
                &&& (kind is Move && old(self).drag_mode is DragNone ==> hover_move_effect(
                    *old(self),
                    *final(self),
                    pt,
                    cur,
                ))
                &&& (kind is Move && !(old(self).drag_mode is DragNone) ==> drag_move_effect(
                    *old(self),
                    *final(self),
                    pt,
                    cur,
                ))
                &&& (kind is Down && !keep_selection && old(self).hover_item is HoverNone
                    && bar_pick(old(self).shape_bar, pt) is None && top_hit_from(
                    old(self).draw_list.shapes@,
                    pt,
                    old(self).draw_list.shapes@.len() as int,
                ) is None ==> final(self).selection@.len() == 0 && final(self).line_select@.len()
                    == 0 && final(self).drag_mode == (DragMode::SelectBox {
                    start_pt: pt,
                    last_pt: pt,
                }))
            }),
    {
        let pt = Point { x: sat64(x as i128), y: sat64(y as i128) };
        match kind {
            PointerEventKind::Down => {
                let clear_select = !keep_selection;
                if matches!(self.hover_item, HoverItem::HoverNone) {
                    self.handle_select(&pt, clear_select)
                } else {
                    self.handle_hover_click(&pt, clear_select)
                }
            },
            PointerEventKind::Up => self.handle_release(),
            PointerEventKind::Move => {
                if matches!(self.drag_mode, DragMode::DragNone) {
                    self.handle_hover(&pt)
                } else {
                    self.handle_drag(&pt)
                }
            },
        }
    }

    /// The engine's keyboard entry point.  The delete key removes the
    /// whole selection; escape cancels any gesture in progress; while
    /// a text shape is the edit target, printable characters, arrows
    /// and backspace become text-editing requests for the caller's
    /// text collaborator.
    pub fn handle_key_event(&mut self, key: Key, is_down: bool) -> (act: Option<TextAction>)
        requires
            app_ok(*old(self)),
        ensures
            app_ok(*final(self)),
            !is_down ==> *final(self) == *old(self) && act is None,
            is_down ==> act == (match old(self).key_mode {
                KeyboardMode::TextEdit(id) => match key {
                    Key::Char(c) => Some(TextAction::Insert(id, c)),
                    Key::Backspace => Some(TextAction::Backspace(id)),
                    Key::Left => Some(TextAction::MoveCursor(id, TextCursorDirection::Left)),
                    Key::Right => Some(TextAction::MoveCursor(id, TextCursorDirection::Right)),
                    Key::Up => Some(TextAction::MoveCursor(id, TextCursorDirection::Up)),
                    Key::Down => Some(TextAction::MoveCursor(id, TextCursorDirection::Down)),
                    Key::Delete => None::<TextAction>,
                    Key::Escape => None::<TextAction>,
                },
                KeyboardMode::KeyboardNone => None::<TextAction>,
            }),
            is_down && key is Delete ==> final(self).selection@.len() == 0 && final(self).line_select@.len() == 0 && final(self).draw_list.shapes@ == surviving_shapes(
                old(self).selection@,
                old(self).line_select@,
                old(self).draw_list.shapes@,
            ) && forall|o: ShapeID|
                #![trigger crate::drawlist::dl_get(final(self).draw_list, o)]
                crate::drawlist::dl_get(final(self).draw_list, o) == if assoc_has(
                    old(self).selection@,
                    o,
                ) || assoc_has(old(self).line_select@, o) {
                    None::<Shape>
                } else {
                    crate::drawlist::dl_get(old(self).draw_list, o)
                },
            is_down && key is Escape ==> *final(self) == (AppState {
                drag_mode: DragMode::DragNone,
                ..*old(self)
            }),
            is_down && !(key is Delete) && !(key is Escape) ==> *final(self) == *old(self),
    {
        if !is_down {
            return None;
        }
        let mut act: Option<TextAction> = None;
        if let KeyboardMode::TextEdit(id) = self.key_mode {
            match key {
                Key::Char(c) => {
                    act = Some(TextAction::Insert(id, c));
                },
                Key::Backspace => {
                    act = Some(TextAction::Backspace(id));
                },
                _ => {
                    if let Some(d) = get_dir_from_key(&key) {
                        act = Some(TextAction::MoveCursor(id, d));
                    }
                },
            }
        }
        if matches!(key, Key::Delete) {
            self.delete_selection();
        }
        if matches!(key, Key::Escape) {
            self.drag_mode = DragMode::DragNone;
        }
        act
    }
}

/// Box selection is vertex-touch, not full containment: a shape with
/// even one pick vertex inside the dragged rectangle lands in the
/// selection.
pub proof fn lemma_box_selection_vertex_touch(pre: AppState, post: AppState, r: Rect, j: int)
    requires
        select_box_effect(pre, post, r),
        0 <= j < pre.draw_list.shapes@.len(),
        exists|i: int|
            0 <= i < crate::shapes::shape_nverts(pre.draw_list.shapes@[j].1) && rect_contains(
                r,
                #[trigger] crate::shapes::shape_vert(pre.draw_list.shapes@[j].1, i),
            ),
    ensures
        pre.draw_list.shapes@[j].1 is Polygon ==> assoc_has(
            post.selection@,
            pre.draw_list.shapes@[j].0,
        ),
        pre.draw_list.shapes@[j].1 is Line ==> assoc_has(
            post.line_select@,
            pre.draw_list.shapes@[j].0,
        ),
{
    assert(crate::shapes::shape_touches(pre.draw_list.shapes@[j].1, r));
}

/// Rotation-drag moves compose by summing their angle deltas: after
/// two consecutive moves, the box's rotation is the starting rotation
/// plus the signed difference between the last and the first grab
/// angle, canonicalized once — the wrap boundary introduces no jump,
/// however the pointer crossed it in between.
pub proof fn lemma_rotation_moves_compose(
    s0: AppState,
    s1: AppState,
    s2: AppState,
    click_box: ShapeID,
    a0: i64,
    p1: Point,
    p2: Point,
)
    requires
        assoc_has(s0.selection@, click_box),
        rotate_effect(s0, s1, click_box, a0, p1),
        rotate_effect(
            s1,
            s2,
            click_box,
            crate::select::rotate_angle_spec(
                key_of(assoc_value(s0.selection@, click_box).rect),
                p1,
            ) as i64,
            p2,
        ),
    ensures
        ({
            let k0 = key_of(assoc_value(s0.selection@, click_box).rect);
            let k1 = key_of(assoc_value(s1.selection@, click_box).rect);
            let a2 = crate::select::rotate_angle_spec(k1, p2);
            key_of(assoc_value(s2.selection@, click_box).rect).rot as int == (k0.rot + a2 - a0)
                % 360
        }),
{
    let k0 = key_of(assoc_value(s0.selection@, click_box).rect);
    let k1 = key_of(assoc_value(s1.selection@, click_box).rect);
    let a1 = crate::select::rotate_angle_spec(k0, p1);
    let a2 = crate::select::rotate_angle_spec(k1, p2);
    assert(k1.rot as int == (k0.rot + a1 - a0) % 360);
    assert(key_of(assoc_value(s2.selection@, click_box).rect).rot as int == (k1.rot + a2 - a1)
        % 360);
    crate::angle::lemma_delta_accumulation(k0.rot + a1 - a0, a2 - a1);
    assert((k0.rot + a1 - a0) % 360 + a2 - a1 == ((k0.rot + a1 - a0) % 360 + (a2 - a1)));
    assert((k0.rot + a1 - a0) + (a2 - a1) == k0.rot + a2 - a0);
}

/// Radius of a resize-handle or rotation-handle marker.
pub const HANDLE_MARKER_RADIUS: i64 = 5;

/// Radius of a selected line's endpoint marker.
pub const ENDPOINT_MARKER_RADIUS: i64 = 7;

/// The overlay drawing requests of one selection box: the outline,
/// the eight handle markers, then the four rotation-handle markers.
pub open spec fn box_overlay_spec(k: crate::transform::RectKey) -> Seq<crate::shapes::DrawCmd> {
    seq![
        crate::shapes::DrawCmd::Polygon {
            prim: PrimType::Rect,
            key: k,
            fill: false,
            color: Color { r: 255, g: 255, b: 255 },
        },
    ] + Seq::new(
        8,
        |i: int|
            crate::shapes::DrawCmd::CircleMarker {
                center: crate::select::handle_point(k, i),
                radius: HANDLE_MARKER_RADIUS,
                color: Color { r: 255, g: 255, b: 255 },
                fill: true,
            },
    ) + Seq::new(
        4,
        |i: int|
            crate::shapes::DrawCmd::CircleMarker {
                center: crate::transform::m2p_spec(
                    transform_of(crate::select::rotate_key(k)),
                    crate::transform::unit_corner(i),
                ),
                radius: HANDLE_MARKER_RADIUS,
                color: Color { r: 0, g: 0, b: 255 },
                fill: false,
            },
    )
}

/// The overlay drawing requests of one selected line: its two endpoint
/// markers.
pub open spec fn line_overlay_spec(l: DrawLine) -> Seq<crate::shapes::DrawCmd> {
    seq![
        crate::shapes::DrawCmd::CircleMarker {
            center: l.p1,
            radius: ENDPOINT_MARKER_RADIUS,
            color: Color { r: 255, g: 255, b: 255 },
            fill: false,
        },
        crate::shapes::DrawCmd::CircleMarker {
            center: l.p2,
            radius: ENDPOINT_MARKER_RADIUS,
            color: Color { r: 255, g: 255, b: 255 },
            fill: false,
        },
    ]
}

/// The overlays of every selection box on the map, in map order.
pub open spec fn sel_overlays_spec(s: Seq<(u32, Selection)>) -> Seq<crate::shapes::DrawCmd>
    decreases s.len(),
{
    if s.len() == 0 {
        Seq::empty()
    } else {
        sel_overlays_spec(s.drop_last()) + box_overlay_spec(key_of(s.last().1.rect))
    }
}

/// The overlays of every selected line on the map, in map order.
pub open spec fn line_overlays_spec(s: Seq<(u32, SelectLine)>) -> Seq<crate::shapes::DrawCmd>
    decreases s.len(),
{
    if s.len() == 0 {
        Seq::empty()
    } else {
        line_overlays_spec(s.drop_last()) + line_overlay_spec(s.last().1.line)
    }
}

/// The drawing requests of the hover target: a palette preview shape
/// or an in-progress line.
pub open spec fn hover_overlay_spec(h: HoverItem) -> Seq<crate::shapes::DrawCmd> {
    match h {
        HoverItem::HoverShape(_, s) => seq![crate::shapes::cmd_of(s)],
        HoverItem::HoverCreateLine { start_pt, last_pt, color } => seq![
            crate::shapes::DrawCmd::Line { p1: start_pt, p2: last_pt, line_width: 3, color },
        ],
        _ => Seq::empty(),
    }
}

/// The drawing requests of the gesture in progress: the select box
/// outline or the shape-creation preview.
pub open spec fn drag_overlay_spec(d: DragMode) -> Seq<crate::shapes::DrawCmd> {
    match d {
        DragMode::SelectBox { start_pt, last_pt } => seq![
            crate::shapes::DrawCmd::Polygon {
                prim: PrimType::Rect,
                key: key_of(rect_placement_spec(Rect { c1: start_pt, c2: last_pt })),
                fill: false,
                color: Color { r: 0, g: 0, b: 0 },
            },
        ],
        DragMode::CreateShape { shape_id, start_pt, last_pt } => seq![
            crate::shapes::cmd_of(
                bar_shape_spec(shape_id, Rect { c1: start_pt, c2: last_pt }, false),
            ),
        ],
        _ => Seq::empty(),
    }
}

/// Everything the render pass draws on top of the shapes: selection
/// boxes with their handles, selected-line endpoints, the hover
/// preview, and the in-progress gesture.
pub open spec fn overlay_spec(a: AppState) -> Seq<crate::shapes::DrawCmd> {
    sel_overlays_spec(a.selection@) + line_overlays_spec(a.line_select@) + hover_overlay_spec(
        a.hover_item,
    ) + drag_overlay_spec(a.drag_mode)
}

impl AppState {
    /// The overlay drawing requests the render pass hands to the
    /// rendering collaborator after the shapes themselves: selection
    /// boxes, handles, endpoint markers, previews and the in-progress
    /// gesture.
    pub fn render_overlays(&self) -> (v: Vec<crate::shapes::DrawCmd>)
        requires
            app_ok(*self),
        ensures
            v@ == overlay_spec(*self),
    {
        let mut v: Vec<crate::shapes::DrawCmd> = Vec::new();
        let n = self.selection.len();
        let mut i: usize = 0;
        proof {
            assert(self.selection@.subrange(0, 0) =~= Seq::<(u32, Selection)>::empty());
            assert(v@ =~= sel_overlays_spec(self.selection@.subrange(0, 0)));
        }
        while i < n
            invariant
                0 <= i <= n,
                n == self.selection@.len(),
                app_ok(*self),
                v@ == sel_overlays_spec(self.selection@.subrange(0, i as int)),
            decreases n - i,
        {
            let e = self.selection[i];
            push_box_overlay(&mut v, &e.1);
            proof {
                let pre = self.selection@.subrange(0, i as int);
                let post = self.selection@.subrange(0, i as int + 1);
                assert(post.drop_last() =~= pre);
                assert(post.last() == self.selection@[i as int]);
            }
            i = i + 1;
        }
        proof {
            assert(self.selection@.subrange(0, n as int) =~= self.selection@);
        }
        let m = self.line_select.len();
        let mut j: usize = 0;
        proof {
            assert(self.line_select@.subrange(0, 0) =~= Seq::<(u32, SelectLine)>::empty());
            assert(line_overlays_spec(self.line_select@.subrange(0, 0)) =~= Seq::<
                crate::shapes::DrawCmd,
            >::empty());
        }
        while j < m
            invariant
                0 <= j <= m,
                m == self.line_select@.len(),
                app_ok(*self),
                v@ == sel_overlays_spec(self.selection@) + line_overlays_spec(
                    self.line_select@.subrange(0, j as int),
                ),
            decreases m - j,
        {
            let e = self.line_select[j];
            let ghost v0 = v@;
            v.push(crate::shapes::DrawCmd::CircleMarker {
                center: e.1.line.p1,
                radius: ENDPOINT_MARKER_RADIUS,
                color: Color { r: 255, g: 255, b: 255 },
                fill: false,
            });
            v.push(crate::shapes::DrawCmd::CircleMarker {
                center: e.1.line.p2,
                radius: ENDPOINT_MARKER_RADIUS,
                color: Color { r: 255, g: 255, b: 255 },
                fill: false,
            });
            proof {
                let pre = self.line_select@.subrange(0, j as int);
                let post = self.line_select@.subrange(0, j as int + 1);
                assert(post.drop_last() =~= pre);
                assert(post.last() == self.line_select@[j as int]);
                assert(v@ =~= v0 + line_overlay_spec(self.line_select@[j as int].1.line));
                assert(v@ =~= sel_overlays_spec(self.selection@) + line_overlays_spec(post));
            }
            j = j + 1;
        }
        proof {
            assert(self.line_select@.subrange(0, m as int) =~= self.line_select@);
        }
        let ghost v1 = v@;
        match &self.hover_item {
            HoverItem::HoverShape(_, s) => {
                let c = s.to_cmd();
                v.push(c);
            },
            HoverItem::HoverCreateLine { start_pt, last_pt, color } => {
                v.push(crate::shapes::DrawCmd::Line {
                    p1: *start_pt,
                    p2: *last_pt,
                    line_width: 3,
                    color: *color,
                });
            },
            _ => {},
        }
        proof {
            assert(v@ =~= v1 + hover_overlay_spec(self.hover_item));
        }
        let ghost v2 = v@;
        match &self.drag_mode {
            DragMode::SelectBox { start_pt, last_pt } => {
                let r = Rect { c1: *start_pt, c2: *last_pt };
                let rr = RotateRect::from_rect(&r, 0);
                v.push(crate::shapes::DrawCmd::Polygon {
                    prim: PrimType::Rect,
                    key: crate::transform::RectKey {
                        offset: rr.offset,
                        size: rr.size,
                        rot: rr.rot,
                    },
                    fill: false,
                    color: Color { r: 0, g: 0, b: 0 },
                });
            },
            DragMode::CreateShape { shape_id, start_pt, last_pt } => {
                let r = Rect { c1: *start_pt, c2: *last_pt };
                let s = self.shape_bar.get_shape(shape_id, &r, false);
                let c = s.to_cmd();
                v.push(c);
            },
            _ => {},
        }
        proof {
            assert(v@ =~= v2 + drag_overlay_spec(self.drag_mode));
        }
        v
    }
}

/// Append the overlay of one selection box: the outline, the eight
/// handle markers, then the four rotation-handle markers.
fn push_box_overlay(v: &mut Vec<crate::shapes::DrawCmd>, sel: &Selection)
    requires
        crate::select::sel_ok(*sel),
    ensures
        final(v)@ == old(v)@ + box_overlay_spec(key_of(sel.rect)),
{
    let ghost k = key_of(sel.rect);
    let ghost base = v@;
    v.push(crate::shapes::DrawCmd::Polygon {
        prim: PrimType::Rect,
        key: crate::transform::RectKey {
            offset: sel.rect.offset,
            size: sel.rect.size,
            rot: sel.rect.rot,
        },
        fill: false,
        color: Color { r: 255, g: 255, b: 255 },
    });
    let handles = sel.get_drag_points();
    let mut i: usize = 0;
    while i < 8
        invariant
            0 <= i <= 8,
            handles@.len() == 8,
            forall|jj: int|
                #![trigger handles@[jj]]
                0 <= jj < 8 ==> handles@[jj] == crate::select::handle_point(k, jj),
            v@.len() == base.len() + 1 + i,
            forall|m: int| #![trigger v@[m]] 0 <= m < base.len() ==> v@[m] == base[m],
            v@[base.len() as int] == (crate::shapes::DrawCmd::Polygon {
                prim: PrimType::Rect,
                key: k,
                fill: false,
                color: Color { r: 255, g: 255, b: 255 },
            }),
            forall|jj: int|
                #![trigger v@[base.len() + 1 + jj]]
                0 <= jj < i ==> v@[base.len() + 1 + jj] == (crate::shapes::DrawCmd::CircleMarker {
                    center: crate::select::handle_point(k, jj),
                    radius: HANDLE_MARKER_RADIUS,
                    color: Color { r: 255, g: 255, b: 255 },
                    fill: true,
                }),
        decreases 8 - i,
    {
        v.push(crate::shapes::DrawCmd::CircleMarker {
            center: handles[i],
            radius: HANDLE_MARKER_RADIUS,
            color: Color { r: 255, g: 255, b: 255 },
            fill: true,
        });
        i = i + 1;
    }
    let rot_pts = sel.get_rotate_points();
    let mut j: usize = 0;
    while j < 4
        invariant
            0 <= j <= 4,
            rot_pts@.len() == 4,
            forall|jj: int|
                #![trigger rot_pts@[jj]]
                0 <= jj < 4 ==> rot_pts@[jj] == crate::transform::m2p_spec(
                    transform_of(crate::select::rotate_key(k)),
                    crate::transform::unit_corner(jj),
                ),
            v@.len() == base.len() + 9 + j,
            forall|m: int| #![trigger v@[m]] 0 <= m < base.len() ==> v@[m] == base[m],
            v@[base.len() as int] == (crate::shapes::DrawCmd::Polygon {
                prim: PrimType::Rect,
                key: k,
                fill: false,
                color: Color { r: 255, g: 255, b: 255 },
            }),
            forall|jj: int|
                #![trigger v@[base.len() + 1 + jj]]
                0 <= jj < 8 ==> v@[base.len() + 1 + jj] == (crate::shapes::DrawCmd::CircleMarker {
                    center: crate::select::handle_point(k, jj),
                    radius: HANDLE_MARKER_RADIUS,
                    color: Color { r: 255, g: 255, b: 255 },
                    fill: true,
                }),
            forall|jj: int|
                #![trigger v@[base.len() + 9 + jj]]
                0 <= jj < j ==> v@[base.len() + 9 + jj] == (crate::shapes::DrawCmd::CircleMarker {
                    center: crate::transform::m2p_spec(
                        transform_of(crate::select::rotate_key(k)),
                        crate::transform::unit_corner(jj),
                    ),
                    radius: HANDLE_MARKER_RADIUS,
                    color: Color { r: 0, g: 0, b: 255 },
                    fill: false,
                }),
        decreases 4 - j,
    {
        v.push(crate::shapes::DrawCmd::CircleMarker {
            center: rot_pts[j],
            radius: HANDLE_MARKER_RADIUS,
            color: Color { r: 0, g: 0, b: 255 },
            fill: false,
        });
        j = j + 1;
    }
    proof {
        let spec = box_overlay_spec(k);
        assert(spec.len() == 13);
        assert(v@.len() == base.len() + 13);
        assert forall|n: int| 0 <= n < v@.len() implies v@[n] == (base + spec)[n] by {
            let b = base.len() as int;
            if n < b {
                assert(v@[n] == base[n]);
            } else if n == b {
                assert((base + spec)[n] == spec[0]);
            } else if n < b + 9 {
                let jj = n - b - 1;
                assert(v@[b + 1 + jj] == (crate::shapes::DrawCmd::CircleMarker {
                    center: crate::select::handle_point(k, jj),
                    radius: HANDLE_MARKER_RADIUS,
                    color: Color { r: 255, g: 255, b: 255 },
                    fill: true,
                }));
                assert((base + spec)[n] == spec[1 + jj]);
            } else {
                let jj = n - b - 9;
                assert(v@[b + 9 + jj] == (crate::shapes::DrawCmd::CircleMarker {
                    center: crate::transform::m2p_spec(
                        transform_of(crate::select::rotate_key(k)),
                        crate::transform::unit_corner(jj),
                    ),
                    radius: HANDLE_MARKER_RADIUS,
                    color: Color { r: 0, g: 0, b: 255 },
                    fill: false,
                }));
                assert((base + spec)[n] == spec[9 + jj]);
            }
        }
        assert(v@ =~= base + spec);
    }
}

} // verus!
