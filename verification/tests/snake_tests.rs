use snake::err::{BasicSnakeError, SnakeError, SnakeErrorRecoverable};
use snake::game::{segment_at, self_collision, SnakeGame};
use snake::input::InputKey;
use snake::point::{shift_positions, Point};
use snake::render::{DisplayRenderer, MyDisplay, SnakeRenderer};

fn game(positions: Vec<Point>, apple: Point) -> SnakeGame {
    SnakeGame { positions, apple }
}

fn p(x: i16, y: i16) -> Point {
    Point { x, y }
}

#[test]
fn shift_keeps_length_and_follows_the_leader() {
    let mut body = vec![p(3, 3), p(3, 4), p(4, 4), p(4, 5)];
    shift_positions(&mut body, |it: Point| Point { x: it.x, y: it.y - 1 });
    assert_eq!(body.len(), 4);
    assert_eq!(body[0], p(3, 2));
    assert_eq!(body[1], p(3, 3));
    assert_eq!(body[2], p(3, 4));
    assert_eq!(body[3], p(4, 4));
}

#[test]
fn shift_single_segment_moves_the_head_only() {
    let mut body = vec![p(0, 0)];
    shift_positions(&mut body, |it: Point| Point { x: it.x + 1, y: it.y });
    assert_eq!(body, vec![p(1, 0)]);
}

#[test]
fn out_of_bounds_on_each_side() {
    assert!(p(-1, 0).out_of_bounds(15));
    assert!(p(0, -1).out_of_bounds(15));
    assert!(p(15, 0).out_of_bounds(15));
    assert!(p(0, 15).out_of_bounds(15));
    assert!(!p(0, 0).out_of_bounds(15));
    assert!(!p(14, 14).out_of_bounds(15));
    assert!(p(0, 0).out_of_bounds(0));
}

#[test]
fn decode_is_total_over_the_five_keys() {
    assert_eq!(InputKey::from('w'), Ok(InputKey::W));
    assert_eq!(InputKey::from('s'), Ok(InputKey::S));
    assert_eq!(InputKey::from('a'), Ok(InputKey::A));
    assert_eq!(InputKey::from('d'), Ok(InputKey::D));
    assert_eq!(InputKey::from(' '), Ok(InputKey::Quit));
    assert_eq!(
        InputKey::from('x'),
        Err(BasicSnakeError::UnknownKey('x'))
    );
}

#[test]
fn first_char_of_a_line_decides() {
    assert_eq!(InputKey::from_first_char(Some('w')), Ok(InputKey::W));
    assert_eq!(InputKey::from_first_char(None), Err(BasicSnakeError::EmptyLine));
    assert_eq!(
        InputKey::from_first_char(Some('q')),
        Err(BasicSnakeError::UnknownKey('q'))
    );
}

#[test]
fn eating_the_apple_grows_by_the_post_shift_tail() {
    let mut g = game(vec![p(7, 7)], p(7, 6));
    let cont = g.tick(InputKey::W, 15);
    assert!(cont);
    assert_eq!(g.positions.len(), 2);
    assert_eq!(g.positions[0], p(7, 6));
    assert_eq!(g.positions[1], p(7, 6));
    assert!(!g.apple.out_of_bounds(15));
}

#[test]
fn leaving_the_grid_ends_the_game() {
    let mut g = game(vec![p(0, 0)], p(3, 3));
    let cont = g.tick(InputKey::A, 15);
    assert!(!cont);
    assert_eq!(g.positions, vec![p(-1, 0)]);
    assert!(g.positions[0].out_of_bounds(15));
    assert_eq!(g.apple, p(3, 3));
}

#[test]
fn head_on_a_trailing_segment_is_a_collision() {
    assert!(self_collision(&vec![p(5, 5), p(5, 5)]));
    assert!(self_collision(&vec![p(5, 5), p(4, 5), p(5, 5)]));
    assert!(!self_collision(&vec![p(5, 5), p(4, 5)]));
    assert!(!self_collision(&vec![p(5, 5)]));
}

#[test]
fn running_into_the_body_ends_the_game() {
    // A body folded so that moving up puts the head onto a later segment.
    let mut g = game(
        vec![p(2, 2), p(1, 2), p(1, 1), p(2, 1), p(3, 1)],
        p(9, 9),
    );
    let cont = g.tick(InputKey::W, 15);
    assert!(!cont);
    assert_eq!(g.positions[0], p(2, 1));
    assert_eq!(g.apple, p(9, 9));
}

#[test]
fn plain_move_keeps_length_and_apple() {
    let mut g = game(vec![p(4, 4), p(4, 5)], p(9, 9));
    let cont = g.tick(InputKey::D, 15);
    assert!(cont);
    assert_eq!(g.positions, vec![p(5, 4), p(4, 4)]);
    assert_eq!(g.apple, p(9, 9));
}

#[test]
fn quit_ends_play_and_touches_nothing() {
    let mut g = game(vec![p(4, 4), p(4, 5)], p(9, 9));
    let cont = g.tick(InputKey::Quit, 15);
    assert!(!cont);
    assert_eq!(g.positions, vec![p(4, 4), p(4, 5)]);
    assert_eq!(g.apple, p(9, 9));
}

#[test]
fn any_segment_on_the_apple_counts_as_eating() {
    // The apple sits under a tail segment, not the head.
    let mut g = game(vec![p(4, 4), p(4, 5), p(4, 6)], p(4, 5));
    let cont = g.tick(InputKey::D, 15);
    assert!(cont);
    assert_eq!(g.positions.len(), 4);
    assert_eq!(g.positions[0], p(5, 4));
    assert_eq!(g.positions[1], p(4, 4));
    assert_eq!(g.positions[2], p(4, 5));
    assert_eq!(g.positions[3], p(4, 5));
}

#[test]
fn frame_reads_back_the_expected_kinds() {
    let g = game(vec![p(1, 1), p(2, 1)], p(3, 3));
    let display: MyDisplay<SnakeRenderer> = g.create_snake_frame(5);
    assert_eq!(display.content.len(), 5);
    for row in &display.content {
        assert_eq!(row.len(), 5);
    }
    assert_eq!(display.content[1][1], 3); // head
    assert_eq!(display.content[1][2], 1); // body
    assert_eq!(display.content[3][3], 2); // apple
    assert_eq!(display.content[0][0], 0); // empty
}

#[test]
fn later_writes_take_precedence_in_the_frame() {
    // A tail segment on the apple's cell, and another on the head's cell:
    // body segments are written last, so both cells read as body.
    let g = game(vec![p(2, 2), p(3, 3), p(2, 2)], p(3, 3));
    let display: MyDisplay<SnakeRenderer> = g.create_snake_frame(5);
    assert_eq!(display.content[3][3], 1);
    assert_eq!(display.content[2][2], 1);
}

#[test]
fn glyphs_per_cell_kind() {
    assert_eq!(SnakeRenderer::render(&0), "[ ]");
    assert_eq!(SnakeRenderer::render(&1), "[@]");
    assert_eq!(SnakeRenderer::render(&2), "[a]");
    assert_eq!(SnakeRenderer::render(&3), "[%]");
    assert_eq!(SnakeRenderer::render(&77), "[ ]");
}

#[test]
fn draw_renders_one_line_per_row() {
    let g = game(vec![p(1, 0)], p(2, 1));
    let display: MyDisplay<SnakeRenderer> = g.create_snake_frame(3);
    let lines = display.draw();
    assert_eq!(lines.len(), 3);
    assert_eq!(lines[0], "[ ][%][ ]");
    assert_eq!(lines[1], "[ ][ ][a]");
    assert_eq!(lines[2], "[ ][ ][ ]");
}

#[test]
fn random_point_stays_inside_the_grid() {
    for _ in 0..50 {
        let q = Point::random_point(15);
        assert!(!q.out_of_bounds(15));
    }
    // With a one-cell grid the draw is forced, so a generator that handed
    // its bound back unchanged would be caught here.
    assert_eq!(Point::random_point(1), p(0, 0));
}

#[test]
fn relocated_apple_stays_inside_the_grid() {
    for _ in 0..20 {
        let mut g = game(vec![p(7, 7)], p(7, 6));
        assert!(g.tick(InputKey::W, 15));
        assert!(!g.apple.out_of_bounds(15));
    }
}

#[test]
fn segment_scan_respects_its_starting_index() {
    let body = vec![p(5, 5), p(4, 5)];
    assert!(segment_at(&body, 0, 5, 5));
    assert!(!segment_at(&body, 1, 5, 5));
    assert!(segment_at(&body, 1, 4, 5));
    assert!(!segment_at(&body, 2, 4, 5));
}

#[test]
fn error_messages() {
    assert_eq!(
        BasicSnakeError::UnknownKey('x').get_error(),
        "Unknown key pressed 'x'."
    );
    assert_eq!(
        BasicSnakeError::EmptyLine.get_error(),
        "Failed to parse input from line because its empty!"
    );
    assert_eq!(
        BasicSnakeError::CantReadLine("boom".to_string()).get_error(),
        "boom"
    );
}

#[test]
fn recover_takes_the_value_out() {
    let r: Result<u32, BasicSnakeError> = Ok(5);
    assert_eq!(r.recover_or_panic(), 5);
}
