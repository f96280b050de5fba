use engine::model::{CursorShape, Model};
use engine::region::Region;

#[test]
fn model_splits_the_text_at_line_feeds() {
    let model = Model::new(String::from("ab\ncde\n\nf"));
    let rows = model.content();
    assert_eq!(4, rows.len());
    assert_eq!(vec!['a', 'b'], rows[0]);
    assert_eq!(vec!['c', 'd', 'e'], rows[1]);
    assert_eq!(Vec::<char>::new(), rows[2]);
    assert_eq!(vec!['f'], rows[3]);
    assert_eq!(Region::new(0, 0, 3, 4), model.content_region());
}

#[test]
fn model_has_one_row_more_than_line_feeds() {
    assert_eq!(1, Model::new(String::new()).content().len());
    assert_eq!(1, Model::new(String::from("abc")).content().len());
    assert_eq!(2, Model::new(String::from("abc\n")).content().len());
    assert_eq!(2, Model::new(String::from("\n")).content().len());
    assert_eq!(4, Model::new(String::from("\n\n\n")).content().len());
    assert_eq!(Region::new(0, 0, 0, 4), Model::new(String::from("\n\n\n")).content_region());
}

#[test]
fn model_keeps_carriage_returns_and_tabs() {
    let model = Model::new(String::from("a\r\n\tb"));
    let rows = model.content();
    assert_eq!(vec!['a', '\r'], rows[0]);
    assert_eq!(vec!['\t', 'b'], rows[1]);
}

#[test]
fn model_rows_joined_give_the_text() {
    for text in ["", "a", "\n", "ab\ncd", "ab\ncd\n", "\n\nx\n\n", "a|b\n|\n"] {
        let model = Model::new(String::from(text));
        let rows: Vec<String> = model.content().iter().map(|row| row.iter().collect()).collect();
        assert_eq!(text, rows.join("\n"));
        assert!(model.content().iter().all(|row| !row.contains(&'\n')));
    }
}

#[test]
fn model_cursor_moves_within_the_content_region() {
    let mut model = Model::new(String::from("abc\nd"));
    assert_eq!((0, 0), model.cursor_position());
    assert!(!model.cursor_move_left());
    assert!(!model.cursor_move_up());
    assert!(model.cursor_move_right());
    assert!(model.cursor_move_right());
    assert!(!model.cursor_move_right());
    assert_eq!((2, 0), model.cursor_position());
    assert_eq!(Some('c'), model.cursor_char());
    assert!(model.cursor_move_down());
    assert!(!model.cursor_move_down());
    assert_eq!((2, 1), model.cursor_position());
    assert_eq!(None, model.cursor_char());
    assert!(model.cursor_move_left());
    assert!(model.cursor_move_left());
    assert_eq!(Some('d'), model.cursor_char());
    assert!(model.cursor_move_up());
    assert_eq!((0, 0), model.cursor_position());
}

#[test]
fn model_cell_and_row_moves() {
    let mut model = Model::new(String::from("|ab|c"));
    assert!(!model.cursor_move_cell_start());
    assert!(!model.cursor_move_cell_end());
    assert!(model.cursor_move_cell_next());
    assert_eq!((1, 0), model.cursor_position());
    assert!(model.cursor_move_cell_end());
    assert_eq!((2, 0), model.cursor_position());
    assert!(model.cursor_move_cell_next());
    assert_eq!((4, 0), model.cursor_position());
    assert!(!model.cursor_move_cell_end());
    assert!(!model.cursor_move_row_end());
    assert!(model.cursor_move_cell_prev());
    assert_eq!((1, 0), model.cursor_position());
    assert!(model.cursor_move_cell_prev());
    assert_eq!((0, 0), model.cursor_position());
    assert!(model.cursor_move_row_end());
    assert_eq!((4, 0), model.cursor_position());
    assert!(model.cursor_move_row_start());
    assert_eq!((0, 0), model.cursor_position());
}

#[test]
fn model_cursor_shapes() {
    let mut model = Model::new(String::from("x"));
    assert!(model.cursor_is_bar());
    model.cursor_toggle();
    assert!(model.cursor_is_block());
    model.cursor_toggle();
    assert!(model.cursor_is_underscore());
    model.cursor_toggle_bar_block();
    assert!(model.cursor_is_bar());
    model.cursor_toggle_bar_block();
    assert!(model.cursor_is_block() && !model.cursor_is_bar() && !model.cursor_is_underscore());
    assert_ne!(CursorShape::Bar, CursorShape::Block);
    assert_eq!("Underscore", format!("{:?}", CursorShape::Underscore));
}
