use lineview::document::{Direction, Document};

fn doc(lines: &[&str]) -> Document {
    Document::from_lines(lines.iter().map(|s| s.to_string()).collect())
}

fn point(d: &Document) -> (usize, usize) {
    let p = d.point_location();
    (p.x, p.y)
}

#[test]
fn from_lines_round_trip() {
    let d = doc(&["abc", "", "de"]);
    assert_eq!(d.line_count(), 3);
    assert_eq!(d.width_at(0), 3);
    assert_eq!(d.width_at(1), 0);
    assert_eq!(d.width_at(2), 2);
    assert!(!d.is_empty());
    assert_eq!(point(&d), (0, 0));
}

#[test]
fn default_document_is_empty() {
    let d = Document::default();
    assert!(d.is_empty());
    assert_eq!(d.line_count(), 0);
    assert_eq!(point(&d), (0, 0));
    assert!(Document::from_lines(Vec::new()).is_empty());
}

#[test]
fn end_of_line_then_right_wraps_to_virtual_row() {
    let mut d = doc(&["hello"]);
    d.move_point(Direction::EndOfLine);
    assert_eq!(point(&d), (5, 0));
    d.move_point(Direction::Right);
    assert_eq!(point(&d), (0, 1));
}

#[test]
fn empty_document_moves_stay_at_origin() {
    let mut d = Document::default();
    for dir in [Direction::Up(1), Direction::Down(1), Direction::Left, Direction::Right] {
        d.move_point(dir);
        assert_eq!(point(&d), (0, 0));
    }
}

#[test]
fn left_at_line_start_wraps_to_previous_line_end() {
    let mut d = doc(&["abc", "xy"]);
    d.move_point(Direction::Down(1));
    assert_eq!(point(&d), (0, 1));
    d.move_point(Direction::Left);
    assert_eq!(point(&d), (3, 0));

    // The wrap is Up(1) followed by EndOfLine, by definition.
    let mut e = doc(&["abc", "xy"]);
    e.move_point(Direction::Down(1));
    e.move_point(Direction::Up(1));
    e.move_point(Direction::EndOfLine);
    assert_eq!(point(&e), point(&d));
}

#[test]
fn left_at_origin_is_a_no_op() {
    let mut d = doc(&["abc"]);
    d.move_point(Direction::Left);
    assert_eq!(point(&d), (0, 0));
}

#[test]
fn right_at_line_end_wraps_to_next_line_start() {
    let mut d = doc(&["abc", "xy"]);
    d.move_point(Direction::EndOfLine);
    assert_eq!(point(&d), (3, 0));
    d.move_point(Direction::Right);
    assert_eq!(point(&d), (0, 1));
}

#[test]
fn right_at_final_virtual_position_is_a_no_op() {
    let mut d = doc(&["ab"]);
    d.move_point(Direction::Down(1));
    assert_eq!(point(&d), (0, 1));
    d.move_point(Direction::Right);
    assert_eq!(point(&d), (0, 1));
}

#[test]
fn left_and_right_stay_in_bounds() {
    let mut d = doc(&["ab"]);
    let mut seen = Vec::new();
    for _ in 0..10 {
        d.move_point(Direction::Right);
        seen.push(point(&d));
    }
    for _ in 0..10 {
        d.move_point(Direction::Left);
        seen.push(point(&d));
    }
    for (x, y) in seen {
        assert!(y <= 1);
        let width = if y == 0 { 2 } else { 0 };
        assert!(x <= width);
    }
    assert_eq!(point(&d), (0, 0));
}

#[test]
fn vertical_moves_saturate() {
    let mut d = doc(&["ab", "cd", "ef"]);
    d.move_point(Direction::Up(5));
    assert_eq!(point(&d), (0, 0));
    d.move_point(Direction::Down(100));
    assert_eq!(point(&d), (0, 3));
    d.move_point(Direction::Down(1));
    assert_eq!(point(&d), (0, 3));
}

#[test]
fn down_snaps_column_to_shorter_line() {
    let mut d = doc(&["hello", "hi"]);
    d.move_point(Direction::EndOfLine);
    assert_eq!(point(&d), (5, 0));
    d.move_point(Direction::Down(1));
    assert_eq!(point(&d), (2, 1));
}

#[test]
fn up_snaps_column_to_shorter_line() {
    let mut d = doc(&["hi", "hello"]);
    d.move_point(Direction::Down(1));
    d.move_point(Direction::EndOfLine);
    assert_eq!(point(&d), (5, 1));
    d.move_point(Direction::Up(1));
    assert_eq!(point(&d), (2, 0));
}

#[test]
fn start_of_line_resets_column() {
    let mut d = doc(&["hello"]);
    d.move_point(Direction::EndOfLine);
    d.move_point(Direction::StartOfLine);
    assert_eq!(point(&d), (0, 0));
}

#[test]
fn repeat_counts_move_by_pages() {
    let lines: Vec<String> = (0..10).map(|i| format!("line{i}")).collect();
    let mut d = Document::from_lines(lines);
    d.move_point(Direction::Down(4));
    assert_eq!(point(&d), (0, 4));
    d.move_point(Direction::Down(4));
    assert_eq!(point(&d), (0, 8));
    d.move_point(Direction::Up(4));
    assert_eq!(point(&d), (0, 4));
}
