//! The mouse of a page, what is highlighted on it, and what it is printed to.
use vstd::prelude::*;

use crate::base64_text::{base64_of, decode_data};
use crate::error::{CdpError, CdpErrorView};
use crate::page::call::{call, Call, CallView, Page, Param, ParamView, Rgba, Step, StepView};
use crate::protocol::opt_text;

verus! {

/// A button of the mouse.
#[derive(Debug, Clone, Copy, PartialEq, Eq, Structural)]
pub enum MouseButton {
    NoButton,
    Left,
    Middle,
    Right,
    Back,
    Forward,
}

impl MouseButton {
    /// The name of the button.
    pub open spec fn name(self) -> Seq<char> {
        match self {
            MouseButton::NoButton => "none"@,
            MouseButton::Left => "left"@,
            MouseButton::Middle => "middle"@,
            MouseButton::Right => "right"@,
            MouseButton::Back => "back"@,
            MouseButton::Forward => "forward"@,
        }
    }

    /// The name of the button.
    pub fn into_text(self) -> (text: String)
        ensures
            text@ == self.name(),
    {
        match self {
            MouseButton::NoButton => "none".to_owned(),
            MouseButton::Left => "left".to_owned(),
            MouseButton::Middle => "middle".to_owned(),
            MouseButton::Right => "right".to_owned(),
            MouseButton::Back => "back".to_owned(),
            MouseButton::Forward => "forward".to_owned(),
        }
    }
}

/// A point of a page. Its coordinates are floating-point numbers, which are held by their
/// bits.
#[derive(Debug, Clone, Copy, PartialEq, Eq, Structural)]
pub struct Point {
    pub x: u64,
    pub y: u64,
}

/// The command that presses or releases a button.
pub open spec fn mouse_call(
    kind: Seq<char>,
    point: Point,
    button: MouseButton,
    modifiers: i64,
    click_count: i64,
) -> CallView {
    call("Input.dispatchMouseEvent"@).with("type"@, ParamView::Text(kind)).with(
        "x"@,
        ParamView::Number(point.x),
    ).with("y"@, ParamView::Number(point.y)).with(
        "modifiers"@,
        ParamView::Int(modifiers as int),
    ).with("button"@, ParamView::Text(button.name())).with(
        "clickCount"@,
        ParamView::Int(click_count as int),
    )
}

/// What is done with the mouse.
#[derive(Debug)]
pub enum MouseAction {
    /// The mouse is moved to a point.
    Move(Point),
    /// The mouse is clicked at a point.
    Click(Point),
    /// A command is run.
    Run(Step),
}

/// The view of [`MouseAction`].
pub enum MouseActionView {
    Move(Point),
    Click(Point),
    Run(StepView),
}

impl View for MouseAction {
    type V = MouseActionView;

    open spec fn view(&self) -> MouseActionView {
        match *self {
            MouseAction::Move(point) => MouseActionView::Move(point),
            MouseAction::Click(point) => MouseActionView::Click(point),
            MouseAction::Run(step) => MouseActionView::Run(step@),
        }
    }
}

/// The views of what is done with the mouse.
pub open spec fn mouse_views(actions: Seq<MouseAction>) -> Seq<MouseActionView> {
    actions.map_values(|a: MouseAction| a@)
}

/// The mouse is moved to a point, and a button is then pressed or released there.
pub open spec fn moved_and(
    kind: Seq<char>,
    point: Point,
    button: MouseButton,
    modifiers: i64,
    click_count: i64,
) -> Seq<MouseActionView> {
    seq![
        MouseActionView::Move(point),
        MouseActionView::Run(
            StepView::Execute(mouse_call(kind, point, button, modifiers, click_count)),
        ),
    ]
}

fn mouse_event(
    kind: &str,
    point: Point,
    button: MouseButton,
    modifiers: i64,
    click_count: i64,
) -> (actions: Vec<MouseAction>)
    ensures
        mouse_views(actions@) == moved_and(kind@, point, button, modifiers, click_count),
{
    let command = Call::new("Input.dispatchMouseEvent").with(
        "type",
        Param::Text(kind.to_owned()),
    ).with("x", Param::Number(point.x)).with("y", Param::Number(point.y)).with(
        "modifiers",
        Param::Int(modifiers),
    ).with("button", Param::Text(button.into_text())).with("clickCount", Param::Int(click_count));
    let actions = vec![MouseAction::Move(point), MouseAction::Run(Step::Execute(command))];
    proof {
        assert(mouse_views(actions@) =~= moved_and(kind@, point, button, modifiers, click_count));
    }
    actions
}

/// The command that highlights a square of 15 pixels with a white outline, from a
/// point on.
pub open spec fn highlight_call(x: i64, y: i64, color: Rgba) -> CallView {
    call("Overlay.highlightRect"@).with("x"@, ParamView::Int(x as int)).with(
        "y"@,
        ParamView::Int(y as int),
    ).with("width"@, ParamView::Int(15)).with("height"@, ParamView::Int(15)).with(
        "color"@,
        ParamView::Color(color),
    ).with("outlineColor"@, ParamView::Color(Rgba { r: 255, g: 255, b: 255, a: None }))
}

/// The command that gets the accessibility tree, down to a depth.
pub open spec fn full_tree_call(depth: Option<i64>, frame: Option<Seq<char>>) -> CallView {
    call("Accessibility.getFullAXTree"@).with_int("depth"@, depth).with_text("frameId"@, frame)
}

/// The command that gets the part of the accessibility tree around a node.
pub open spec fn partial_tree_call(
    node: Option<i64>,
    backend_node: Option<i64>,
    object: Option<Seq<char>>,
    relatives: Option<bool>,
) -> CallView {
    call("Accessibility.getPartialAXTree"@).with_int("nodeId"@, node).with_int(
        "backendNodeId"@,
        backend_node,
    ).with_text("objectId"@, object).with_bool("fetchRelatives"@, relatives)
}

/// The bits of the floating-point number one.
pub const ONE_BITS: u64 = 0x3FF0_0000_0000_0000;

/// Red that covers all that lies behind it.
pub open spec fn opaque_red() -> Rgba {
    Rgba { r: 255, g: 0, b: 0, a: Some(ONE_BITS) }
}

impl Page {
    /// Presses a button, once the mouse has been moved to the point.
    pub fn mouse_down(
        &self,
        point: Point,
        button: MouseButton,
        modifiers: i64,
        click_count: i64,
    ) -> (actions: Vec<MouseAction>)
        ensures
            mouse_views(actions@) == moved_and(
                "mousePressed"@,
                point,
                button,
                modifiers,
                click_count,
            ),
    {
        mouse_event("mousePressed", point, button, modifiers, click_count)
    }

    /// Releases a button, once the mouse has been moved to the point.
    pub fn mouse_up(
        &self,
        point: Point,
        button: MouseButton,
        modifiers: i64,
        click_count: i64,
    ) -> (actions: Vec<MouseAction>)
        ensures
            mouse_views(actions@) == moved_and(
                "mouseReleased"@,
                point,
                button,
                modifiers,
                click_count,
            ),
    {
        mouse_event("mouseReleased", point, button, modifiers, click_count)
    }

    /// Clicks at a point and highlights it, in a colour and with an outline in white. Both
    /// are done at a time. The highlight is at the pixel that is nearest to the point.
    pub fn click_with_highlight_base(&self, point: Point, x: i64, y: i64, color: Rgba) -> (actions:
        Vec<MouseAction>)
        ensures
            mouse_views(actions@) == seq![
                MouseActionView::Click(point),
                MouseActionView::Run(StepView::Execute(highlight_call(x, y, color))),
            ],
    {
        let highlight = Call::new("Overlay.highlightRect").with("x", Param::Int(x)).with(
            "y",
            Param::Int(y),
        ).with("width", Param::Int(15)).with("height", Param::Int(15)).with(
            "color",
            Param::Color(color),
        ).with("outlineColor", Param::Color(Rgba::new(255, 255, 255)));
        let actions = vec![
            MouseAction::Click(point),
            MouseAction::Run(Step::Execute(highlight)),
        ];
        proof {
            assert(mouse_views(actions@) =~= seq![
                MouseActionView::Click(point),
                MouseActionView::Run(StepView::Execute(highlight_call(x, y, color))),
            ]);
        }
        actions
    }

    /// Clicks at a point and highlights it in red.
    pub fn click_with_highlight(&self, point: Point, x: i64, y: i64) -> (actions: Vec<MouseAction>)
        ensures
            mouse_views(actions@) == seq![
                MouseActionView::Click(point),
                MouseActionView::Run(StepView::Execute(highlight_call(x, y, opaque_red()))),
            ],
    {
        let mut color = Rgba::new(255, 0, 0);
        color.a = Some(ONE_BITS);
        self.click_with_highlight_base(point, x, y, color)
    }

    /// Clicks at a point and highlights it in a colour.
    pub fn click_with_highlight_color(&self, point: Point, x: i64, y: i64, color: Rgba) -> (actions:
        Vec<MouseAction>)
        ensures
            mouse_views(actions@) == seq![
                MouseActionView::Click(point),
                MouseActionView::Run(StepView::Execute(highlight_call(x, y, color))),
            ],
    {
        self.click_with_highlight_base(point, x, y, color)
    }

    /// Gets the accessibility tree, down to a depth.
    pub fn get_full_ax_tree(&self, depth: Option<i64>, frame_id: Option<String>) -> (c: Call)
        ensures
            c@ == full_tree_call(depth, opt_text(frame_id)),
    {
        Call::new("Accessibility.getFullAXTree").with_int("depth", depth).with_text(
            "frameId",
            frame_id,
        )
    }

    /// Gets the part of the accessibility tree around a node.
    pub fn get_partial_ax_tree(
        &self,
        node_id: Option<i64>,
        backend_node_id: Option<i64>,
        object_id: Option<String>,
        fetch_relatives: Option<bool>,
    ) -> (c: Call)
        ensures
            c@ == partial_tree_call(
                node_id,
                backend_node_id,
                opt_text(object_id),
                fetch_relatives,
            ),
    {
        Call::new("Accessibility.getPartialAXTree").with_int("nodeId", node_id).with_int(
            "backendNodeId",
            backend_node_id,
        ).with_text("objectId", object_id).with_bool("fetchRelatives", fetch_relatives)
    }

    /// The file that a page was printed to, by the data of the response.
    pub fn pdf(data: &str) -> (file: Result<Vec<u8>, CdpError>)
        ensures
            match file {
                Ok(bytes) => base64_of(bytes@) == data@,
                Err(error) => error@ == CdpErrorView::Decode && forall|b: Seq<u8>| #[trigger]
                    base64_of(b) != data@,
            },
    {
        decode_data(data)
    }
}

} // verus!
