use n8sight::canvas::{Canvas, Ink, NodeBox, NodeLook};
use n8sight::domain::json::{Json, JsonNumber};
use n8sight::domain::workflow::WorkflowNode;

fn node(name: &str, node_type: &str, disabled: bool) -> WorkflowNode {
    WorkflowNode {
        name: name.into(),
        node_type: node_type.into(),
        position: vec![JsonNumber::PosInt(0), JsonNumber::PosInt(0)],
        parameters: Json::Object(vec![]),
        credentials: None,
        disabled,
        type_version: None,
    }
}

fn row_text(canvas: &Canvas, y: usize) -> String {
    canvas.rows()[y].iter().map(|(c, _)| *c).collect()
}

#[test]
fn new_canvas_is_blank() {
    let canvas = Canvas::new(3, 2);
    assert_eq!(canvas.rows().len(), 2);
    assert!(canvas.rows().iter().all(|r| r.len() == 3 && r.iter().all(|c| *c == (' ', Ink::Blank))));
}

#[test]
fn put_outside_the_grid_changes_nothing() {
    let mut canvas = Canvas::new(2, 2);
    canvas.put(-1, 0, 'x', Ink::Line);
    canvas.put(2, 1, 'x', Ink::Line);
    canvas.put(0, 5, 'x', Ink::Line);
    assert_eq!(row_text(&canvas, 0), "  ");
    assert_eq!(row_text(&canvas, 1), "  ");
    canvas.put(1, 1, 'x', Ink::Line);
    assert_eq!(canvas.rows()[1][1], ('x', Ink::Line));
}

#[test]
fn straight_connection_runs_right_to_an_arrow() {
    let mut canvas = Canvas::new(12, 3);
    let src = NodeBox { x: 0, y: 0, w: 2, h: 3 };
    let tgt = NodeBox { x: 8, y: 0, w: 2, h: 3 };
    canvas.draw_connection(&src, &tgt);
    assert_eq!(row_text(&canvas, 1), "  ─────▶    ");
    assert_eq!(canvas.rows()[1][7], ('▶', Ink::Arrow));
    assert_eq!(canvas.rows()[1][2], ('─', Ink::Line));
}

#[test]
fn connection_downwards_turns_at_the_middle() {
    let mut canvas = Canvas::new(12, 6);
    let src = NodeBox { x: 0, y: 0, w: 2, h: 3 };
    let tgt = NodeBox { x: 9, y: 3, w: 2, h: 3 };
    canvas.draw_connection(&src, &tgt);
    // from (2,1) to the middle column 5, down to row 4, then on to the arrow at 8
    assert_eq!(row_text(&canvas, 1), "  ───┐      ");
    assert_eq!(row_text(&canvas, 2), "     │      ");
    assert_eq!(row_text(&canvas, 3), "     │      ");
    // the run to the arrow starts on the lower corner and draws over it
    assert_eq!(row_text(&canvas, 4), "     ───▶   ");
}

#[test]
fn connection_upwards_uses_the_other_corners() {
    let mut canvas = Canvas::new(12, 6);
    let src = NodeBox { x: 0, y: 3, w: 2, h: 3 };
    let tgt = NodeBox { x: 9, y: 0, w: 2, h: 3 };
    canvas.draw_connection(&src, &tgt);
    assert_eq!(row_text(&canvas, 1), "     ───▶   ");
    assert_eq!(row_text(&canvas, 4), "  ───┘      ");
}

#[test]
fn overlapping_boxes_get_a_lone_left_arrow() {
    let mut canvas = Canvas::new(10, 4);
    let src = NodeBox { x: 0, y: 0, w: 6, h: 3 };
    let tgt = NodeBox { x: 4, y: 0, w: 6, h: 3 };
    canvas.draw_connection(&src, &tgt);
    assert_eq!(row_text(&canvas, 1), "   ◀      ");
    assert_eq!(canvas.rows()[1][3], ('◀', Ink::Arrow));
}

#[test]
fn node_box_shows_name_and_short_type() {
    let mut canvas = Canvas::new(16, 4);
    let nb = NodeBox { x: 0, y: 0, w: 16, h: 3 };
    canvas.draw_node_box(&nb, &node("Send", "n8n-nodes-base.slack", false), false);
    assert_eq!(row_text(&canvas, 0), "┌──────────────┐");
    assert_eq!(row_text(&canvas, 1), "│Send          │");
    assert_eq!(row_text(&canvas, 2), "│slack         │");
    assert_eq!(row_text(&canvas, 3), "└──────────────┘");
    assert_eq!(canvas.rows()[0][0].1, Ink::Border(NodeLook::Plain));
    assert_eq!(canvas.rows()[1][1].1, Ink::Name(NodeLook::Plain));
    assert_eq!(canvas.rows()[2][1].1, Ink::TypeText);
}

#[test]
fn long_names_are_cut_with_an_ellipsis() {
    let mut canvas = Canvas::new(10, 4);
    let nb = NodeBox { x: 0, y: 0, w: 10, h: 3 };
    canvas.draw_node_box(&nb, &node("A very long name", "n8n-nodes-base.set", false), false);
    // 7 bytes fit: 6 of the name and the ellipsis
    assert_eq!(row_text(&canvas, 1), "│A very… │");
}

#[test]
fn node_looks_follow_selection_then_disabled_then_trigger() {
    let nb = NodeBox { x: 0, y: 0, w: 16, h: 3 };
    let mut canvas = Canvas::new(16, 4);
    canvas.draw_node_box(&nb, &node("Hook", "n8n-nodes-base.webhook", false), false);
    assert_eq!(canvas.rows()[0][0].1, Ink::Border(NodeLook::Trigger));
    assert_eq!(canvas.rows()[1][1].1, Ink::Name(NodeLook::Plain));

    canvas.draw_node_box(&nb, &node("Hook", "n8n-nodes-base.webhook", true), false);
    assert_eq!(canvas.rows()[0][0].1, Ink::Border(NodeLook::Disabled));
    assert_eq!(canvas.rows()[1][1].1, Ink::Name(NodeLook::Disabled));

    canvas.draw_node_box(&nb, &node("Hook", "n8n-nodes-base.webhook", true), true);
    assert_eq!(canvas.rows()[0][0].1, Ink::Border(NodeLook::Selected));
    assert_eq!(canvas.rows()[1][1].1, Ink::Name(NodeLook::Selected));
}

#[test]
fn node_box_is_clipped_at_the_grid_edge() {
    let mut canvas = Canvas::new(5, 2);
    let nb = NodeBox { x: -2, y: -1, w: 16, h: 3 };
    canvas.draw_node_box(&nb, &node("Send", "n8n-nodes-base.slack", false), false);
    assert_eq!(row_text(&canvas, 0), "end  ");
    assert_eq!(row_text(&canvas, 1), "lack ");
}
