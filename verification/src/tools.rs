//! The tool pane of the level editor: the layout of its buttons and text
//! fields, what each control does when clicked, and the texts the fields
//! show for the map being edited.
//!
//! Layout values model the engine's UI nodes as plain data: the engine
//! builds the real widget tree from them.

use vstd::prelude::*;

use crate::editor::EditorState;
use crate::editor::MapData;
use crate::editor::ParseTilesEvent;
use crate::level::GRID_LIMIT;
use crate::level::LevelAsset;
use crate::text::dec_digits;
use crate::text::usize_to_string;

verus! {

/// A UI length: unset, pixels, or percent of the parent.
#[derive(Clone, Copy, PartialEq, Eq, Structural, Debug)]
pub enum Val {
    Auto,
    Px(i64),
    Percent(i64),
}

#[derive(Clone, Copy, PartialEq, Eq, Structural, Debug)]
pub enum JustifyContent {
    Unset,
    Start,
    Center,
}

#[derive(Clone, Copy, PartialEq, Eq, Structural, Debug)]
pub enum AlignItems {
    Unset,
    Start,
    Center,
}

#[derive(Clone, Copy, PartialEq, Eq, Structural, Debug)]
pub enum FlexDirection {
    Row,
    Column,
}

/// The slice of the engine's UI node this library decides: sizes, uniform
/// margin and border, gaps, alignment and flow direction.
#[derive(Clone, Copy, PartialEq, Eq, Structural, Debug)]
pub struct UiNode {
    pub width: Val,
    pub height: Val,
    pub margin: Val,
    pub border: Val,
    pub column_gap: Val,
    pub row_gap: Val,
    pub justify_content: JustifyContent,
    pub align_items: AlignItems,
    pub flex_direction: FlexDirection,
}

/// The node every layout starts from: automatic size, no margin, border or
/// gaps, default alignment, row flow.
pub open spec fn default_node_spec() -> UiNode {
    UiNode {
        width: Val::Auto,
        height: Val::Auto,
        margin: Val::Px(0),
        border: Val::Px(0),
        column_gap: Val::Px(0),
        row_gap: Val::Px(0),
        justify_content: JustifyContent::Unset,
        align_items: AlignItems::Unset,
        flex_direction: FlexDirection::Row,
    }
}

impl Default for UiNode {
    fn default() -> (r: Self)
        ensures
            r == default_node_spec(),
    {
        UiNode {
            width: Val::Auto,
            height: Val::Auto,
            margin: Val::Px(0),
            border: Val::Px(0),
            column_gap: Val::Px(0),
            row_gap: Val::Px(0),
            justify_content: JustifyContent::Unset,
            align_items: AlignItems::Unset,
            flex_direction: FlexDirection::Row,
        }
    }
}

/// The layout of one full-width tool row.
pub open spec fn line_base_node_spec() -> UiNode {
    UiNode {
        width: Val::Percent(100),
        height: Val::Px(48),
        column_gap: Val::Percent(2),
        ..default_node_spec()
    }
}

/// The layout of one of the two buttons sharing a tool row.
pub open spec fn button_base_node_spec() -> UiNode {
    UiNode {
        width: Val::Percent(49),
        height: Val::Percent(100),
        margin: Val::Percent(1),
        border: Val::Px(2),
        justify_content: JustifyContent::Center,
        align_items: AlignItems::Center,
        ..default_node_spec()
    }
}

/// The lifecycle of the editor shell: asking for a level id, loading it,
/// editing, or asking where to save.
#[derive(Clone, Copy, PartialEq, Eq, Structural, Debug)]
pub enum UIState {
    Prepare,
    Loading,
    Running,
    Waiting,
}

impl Default for UIState {
    fn default() -> (r: Self)
        ensures
            r is Prepare,
    {
        UIState::Prepare
    }
}

/// The two file buttons of the tool pane.
#[derive(Clone, Copy, PartialEq, Eq, Structural, Debug)]
pub enum ButtonKind {
    Save,
    Load,
}

impl ButtonKind {
    /// The button's label.
    pub fn label(&self) -> (r: &'static str)
        ensures
            self is Save ==> r@ == "save"@,
            self is Load ==> r@ == "load"@,
    {
        match self {
            ButtonKind::Save => "save",
            ButtonKind::Load => "load",
        }
    }

    /// The shell state the button moves the editor to: saving asks where to
    /// save, loading starts over with a fresh id prompt.
    pub fn on_click(&self) -> (r: UIState)
        ensures
            self is Save ==> r is Waiting,
            self is Load ==> r is Prepare,
    {
        match self {
            ButtonKind::Save => UIState::Waiting,
            ButtonKind::Load => UIState::Prepare,
        }
    }
}

/// One button of the tool pane, with its layout.
#[derive(Clone, Copy, PartialEq, Eq, Structural, Debug)]
pub struct ButtonSpec {
    pub kind: ButtonKind,
    pub node: UiNode,
}

/// The text fields of the tool pane.
#[derive(Clone, Copy, PartialEq, Eq, Structural, Debug)]
pub enum EditField {
    Cols,
    Rows,
    NextId,
    Rotation,
}

impl EditField {
    /// The label shown beside the field.
    pub fn label(&self) -> (r: &'static str)
        ensures
            self is Cols ==> r@ == "cols"@,
            self is Rows ==> r@ == "rows"@,
            self is NextId ==> r@ == "next"@,
            self is Rotation ==> r@ == "rotation"@,
    {
        match self {
            EditField::Cols => "cols",
            EditField::Rows => "rows",
            EditField::NextId => "next",
            EditField::Rotation => "rotation",
        }
    }

    /// The text the field starts with.
    pub fn initial_text(&self) -> (r: &'static str)
        ensures
            self is Cols ==> r@ == "0"@,
            self is Rows ==> r@ == "0"@,
            self is NextId ==> r@ == "none"@,
            self is Rotation ==> r@ == "0"@,
    {
        match self {
            EditField::Cols => "0",
            EditField::Rows => "0",
            EditField::NextId => "none",
            EditField::Rotation => "0",
        }
    }
}

/// One text field of the tool pane: which field, and which tool row it sits
/// in.
#[derive(Clone, Copy, PartialEq, Eq, Structural, Debug)]
pub struct EditLineSpec {
    pub field: EditField,
    pub row: u32,
}

/// The panel a text field sits in, with its layout.
#[derive(Clone, Copy, PartialEq, Eq, Structural, Debug)]
pub struct EditLinePanel {
    pub field: EditField,
    pub node: UiNode,
}

/// The layout of a text-field panel: half a row, stacked vertically.
pub open spec fn editline_panel_node_spec() -> UiNode {
    UiNode {
        width: Val::Percent(49),
        height: Val::Percent(100),
        margin: Val::Percent(1),
        border: Val::Px(2),
        row_gap: Val::Px(2),
        flex_direction: FlexDirection::Column,
        ..default_node_spec()
    }
}

/// The outline shown around a tool: plain, or highlighted as selected.
#[derive(Clone, Copy, PartialEq, Eq, Structural, Debug)]
pub enum Outline {
    White,
    Green,
}

/// The camera-drag tool button: a plain white image with the unselected
/// outline; clicking it moves the editor cursor to camera tracking.
#[derive(Clone, Copy, PartialEq, Eq, Structural, Debug)]
pub struct ToolButton {
    pub outline: Outline,
    pub on_click: EditorState,
}

/// One widget's interaction state, as the engine reports it.
#[derive(Clone, Copy, PartialEq, Eq, Structural, Debug)]
pub enum Interaction {
    Pressed,
    Hovered,
    Nothing,
}

/// Asks the tool pane to refresh its text fields from the map.
#[derive(Clone, Copy, PartialEq, Eq, Structural, Debug)]
pub struct UpdateEditLine;

/// What the editor shell asks for after the map changed under it: rebuild
/// the placed tiles, and refresh the text fields.
#[derive(Clone, Copy, PartialEq, Eq, Structural, Debug)]
pub struct ShellRefresh {
    pub tiles: ParseTilesEvent,
    pub fields: UpdateEditLine,
}

/// The texts of the three map fields of the tool pane.
pub struct EditLineTexts {
    pub cols: String,
    pub rows: String,
    pub next: String,
}

/// The ids of the pressed widgets, in order.
pub open spec fn pressed_ids(s: Seq<(Interaction, u64)>) -> Seq<u64>
    decreases s.len(),
{
    if s.len() == 0 {
        Seq::empty()
    } else {
        pressed_ids(s.drop_last()) + (if s.last().0 is Pressed {
            seq![s.last().1]
        } else {
            Seq::empty()
        })
    }
}

/// The tool pane of the editor.
pub struct ToolsPlugin;

impl ToolsPlugin {
    /// The layout of one full-width tool row.
    #[inline(always)]
    pub fn line_base_node() -> (r: UiNode)
        ensures
            r == line_base_node_spec(),
    {
        UiNode {
            width: Val::Percent(100),
            height: Val::Px(48),
            column_gap: Val::Percent(2),
            ..UiNode::default()
        }
    }

    /// The layout of one of the two buttons sharing a tool row.
    #[inline(always)]
    pub fn button_base_node() -> (r: UiNode)
        ensures
            r == button_base_node_spec(),
    {
        UiNode {
            width: Val::Percent(49),
            height: Val::Percent(100),
            margin: Val::Percent(1),
            border: Val::Px(2),
            justify_content: JustifyContent::Center,
            align_items: AlignItems::Center,
            ..UiNode::default()
        }
    }

    /// The two file buttons of the tool pane: save, then load, each with
    /// the shared button layout.
    pub fn create_buttons() -> (r: Vec<ButtonSpec>)
        ensures
            r@.len() == 2,
            r@[0] == (ButtonSpec { kind: ButtonKind::Save, node: button_base_node_spec() }),
            r@[1] == (ButtonSpec { kind: ButtonKind::Load, node: button_base_node_spec() }),
    {
        let mut r: Vec<ButtonSpec> = Vec::new();
        r.push(ButtonSpec { kind: ButtonKind::Save, node: Self::button_base_node() });
        r.push(ButtonSpec { kind: ButtonKind::Load, node: Self::button_base_node() });
        r
    }

    /// The four text fields of the tool pane: the grid extent pair on the
    /// first row, the next-level id and the tile rotation on the second.
    pub fn craete_editlines() -> (r: Vec<EditLineSpec>)
        ensures
            r@.len() == 4,
            r@[0] == (EditLineSpec { field: EditField::Cols, row: 0 }),
            r@[1] == (EditLineSpec { field: EditField::Rows, row: 0 }),
            r@[2] == (EditLineSpec { field: EditField::NextId, row: 1 }),
            r@[3] == (EditLineSpec { field: EditField::Rotation, row: 1 }),
    {
        let mut r: Vec<EditLineSpec> = Vec::new();
        r.push(EditLineSpec { field: EditField::Cols, row: 0 });
        r.push(EditLineSpec { field: EditField::Rows, row: 0 });
        r.push(EditLineSpec { field: EditField::NextId, row: 1 });
        r.push(EditLineSpec { field: EditField::Rotation, row: 1 });
        r
    }

    /// The panel one text field sits in.
    pub fn create_editline_node(field: EditField) -> (r: EditLinePanel)
        ensures
            r.field == field,
            r.node == editline_panel_node_spec(),
    {
        EditLinePanel {
            field,
            node: UiNode {
                width: Val::Percent(49),
                height: Val::Percent(100),
                margin: Val::Percent(1),
                border: Val::Px(2),
                row_gap: Val::Px(2),
                flex_direction: FlexDirection::Column,
                ..UiNode::default()
            },
        }
    }

    /// The camera-drag tool button.
    pub fn create_tracking() -> (r: ToolButton)
        ensures
            r.outline is White,
            r.on_click is Tracking,
    {
        ToolButton { outline: Outline::White, on_click: EditorState::Tracking }
    }

    /// The ids of the tool widgets that were pressed this tick, in the
    /// order they were reported; each gets the button-down signal.
    pub fn handle_clicked(interactions: &Vec<(Interaction, u64)>) -> (r: Vec<u64>)
        ensures
            r@ == pressed_ids(interactions@),
    {
        let mut r: Vec<u64> = Vec::new();
        let mut idx: usize = 0;
        proof {
            assert(interactions@.take(0).len() == 0);
        }
        while idx < interactions.len()
            invariant
                idx <= interactions@.len(),
                r@ == pressed_ids(interactions@.take(idx as int)),
            decreases interactions@.len() - idx,
        {
            let ghost i0 = idx as int;
            let entry = interactions[idx];
            proof {
                assert(interactions@.take(i0 + 1).drop_last() =~= interactions@.take(i0));
                assert(interactions@.take(i0 + 1).last() == entry);
            }
            if matches!(entry.0, Interaction::Pressed) {
                r.push(entry.1);
                proof {
                    assert(r@ =~= pressed_ids(interactions@.take(i0 + 1)));
                }
            } else {
                proof {
                    assert(r@ =~= pressed_ids(interactions@.take(i0 + 1)));
                }
            }
            idx = idx + 1;
        }
        proof {
            assert(interactions@.take(interactions@.len() as int) =~= interactions@);
        }
        r
    }

    /// The texts the three map fields show: the grid extent in decimal and
    /// the next-level id, or the word `none` when there is no next level.
    pub fn update_editlines(map: &MapData) -> (r: EditLineTexts)
        ensures
            r.cols@ == dec_digits(map.cols as nat),
            r.rows@ == dec_digits(map.rows as nat),
            map.next matches Some(id) ==> r.next@ == dec_digits(id as nat),
            map.next is None ==> r.next@ == "none"@,
    {
        let next = match map.next {
            Some(id) => usize_to_string(id),
            None => String::from_str("none"),
        };
        EditLineTexts { cols: usize_to_string(map.cols), rows: usize_to_string(map.rows), next }
    }
}

/// The editor shell around the tool pane.
pub struct UIPlugin;

impl UIPlugin {
    /// The id prompt was answered: remember the id; when no level file of
    /// that id exists, start editing an empty map (the returned refresh
    /// reparses, which clears the tiles, and redraws the fields), otherwise
    /// load the file first.
    pub fn init(map: &mut MapData, id: usize, file_exists: bool) -> (r: (
        UIState,
        Option<ShellRefresh>,
    ))
        requires
            old(map).wf(),
        ensures
            final(map).wf(),
            final(map).id == id,
            final(map).data@ == old(map).data@,
            final(map).keys@ == old(map).keys@,
            final(map).entry == old(map).entry,
            file_exists ==> final(map).rows == old(map).rows && final(map).cols == old(map).cols
                && final(map).next == old(map).next && r.0 is Loading && r.1 is None,
            !file_exists ==> final(map).rows == 0 && final(map).cols == 0 && final(map).next
                is None && r.0 is Running && r.1 == Some(
                ShellRefresh { tiles: ParseTilesEvent, fields: UpdateEditLine },
            ),
    {
        map.id = id;
        if !file_exists {
            map.cols = 0;
            map.rows = 0;
            map.next = None;
            (UIState::Running, Some(ShellRefresh { tiles: ParseTilesEvent, fields: UpdateEditLine }))
        } else {
            (UIState::Loading, None)
        }
    }

    /// The loaded level fills the map's extent, entry point and next-level
    /// pointer; the returned refresh reparses the tiles and redraws the
    /// fields, and editing starts.
    pub fn ready(map: &mut MapData, level: &LevelAsset) -> (r: (UIState, ShellRefresh))
        requires
            old(map).wf(),
            level.wf(),
        ensures
            final(map).wf(),
            final(map).id == old(map).id,
            final(map).data@ == old(map).data@,
            final(map).keys@ == old(map).keys@,
            final(map).rows == level.rows,
            final(map).cols == level.cols,
            final(map).entry == level.entry,
            final(map).next == level.next,
            r.0 is Running,
            r.1 == (ShellRefresh { tiles: ParseTilesEvent, fields: UpdateEditLine }),
    {
        map.rows = level.rows;
        map.cols = level.cols;
        map.entry = level.entry;
        map.next = level.next;
        (UIState::Running, ShellRefresh { tiles: ParseTilesEvent, fields: UpdateEditLine })
    }
}

} // verus!
