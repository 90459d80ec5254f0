use ratatui_simple_logger::{
    capacity, offset, Color, Level, Message, Region, Row, Viewport, Widget, CHROME_ROWS, TITLE,
};

fn history(n: usize) -> Vec<Message> {
    (1..=n).map(|i| Message::new(Level::Info, format!("message {i}"))).collect()
}

fn region(height: u16) -> Region {
    Region { x: 0, y: 0, width: 40, height }
}

#[test]
fn capacity_is_what_the_chrome_leaves() {
    assert_eq!(CHROME_ROWS, 2);
    assert_eq!(capacity(3), 1);
    assert_eq!(capacity(4), 2);
    assert_eq!(capacity(12), 10);
    assert_eq!(capacity(usize::MAX), usize::MAX - 2);
}

#[test]
fn capacity_is_clamped_to_one_row() {
    assert_eq!(capacity(0), 1);
    assert_eq!(capacity(1), 1);
    assert_eq!(capacity(2), 1);
}

#[test]
fn offset_is_length_less_capacity_or_zero() {
    assert_eq!(offset(50, 10), 40);
    assert_eq!(offset(11, 10), 1);
    assert_eq!(offset(10, 10), 0);
    assert_eq!(offset(3, 10), 0);
    assert_eq!(offset(0, 10), 0);
    assert_eq!(offset(0, 1), 0);
    assert_eq!(offset(usize::MAX, 1), usize::MAX - 1);
    assert_eq!(offset(7, usize::MAX), 0);
    for total in 0..40usize {
        for cap in 1..20usize {
            assert_eq!(offset(total, cap), total.saturating_sub(cap));
        }
    }
}

#[test]
fn viewport_of_fifty_messages_in_ten_rows() {
    let v = Viewport::new(50, 12);
    assert_eq!(v, Viewport { total_count: 50, visible_capacity: 10, scroll_offset: 40 });
    assert_eq!(v.visible_count(), 10);
    assert!(!v.fully_visible());
    let ind = v.indicator();
    assert_eq!(ind.content_length, 50);
    assert_eq!(ind.viewport_length, 10);
    assert_eq!(ind.position, 40);
    assert!(!ind.is_full());
    assert_eq!(ind.position + ind.viewport_length, ind.content_length);
}

#[test]
fn viewport_of_three_messages_in_ten_rows() {
    let v = Viewport::new(3, 12);
    assert_eq!(v, Viewport { total_count: 3, visible_capacity: 10, scroll_offset: 0 });
    assert_eq!(v.visible_count(), 3);
    assert!(v.fully_visible());
    let ind = v.indicator();
    assert_eq!(ind.content_length, 3);
    assert_eq!(ind.viewport_length, 10);
    assert_eq!(ind.position, 0);
    assert!(ind.is_full());
}

#[test]
fn viewport_in_regions_smaller_than_the_chrome() {
    for rows in 0..=2usize {
        let empty = Viewport::new(0, rows);
        assert_eq!(empty, Viewport { total_count: 0, visible_capacity: 1, scroll_offset: 0 });
        assert!(empty.fully_visible());
        assert_eq!(empty.visible_count(), 0);
        let some = Viewport::new(5, rows);
        assert_eq!(some, Viewport { total_count: 5, visible_capacity: 1, scroll_offset: 4 });
        assert!(!some.fully_visible());
        assert_eq!(some.visible_count(), 1);
    }
}

#[test]
fn render_fifty_messages_shows_the_last_ten() {
    let messages = history(50);
    let scene = Widget::new().render(&messages, region(12));
    assert_eq!(scene.viewport.total_count, 50);
    assert_eq!(scene.viewport.visible_capacity, 10);
    assert_eq!(scene.viewport.scroll_offset, 40);
    assert_eq!(scene.rows.len(), 10);
    for (i, row) in scene.rows.iter().enumerate() {
        assert_eq!(row.text, format!("message {}", 41 + i));
        assert_eq!(row.label, "INFO     ");
        assert_eq!(row.color, Color::Green);
    }
    assert_eq!(scene.indicator.content_length, 50);
    assert_eq!(scene.indicator.viewport_length, 10);
    assert_eq!(scene.indicator.position, 40);
    assert!(!scene.indicator.is_full());
}

#[test]
fn render_three_messages_shows_all_of_them() {
    let messages = history(3);
    let scene = Widget::default().render(&messages, region(12));
    assert_eq!(scene.viewport.scroll_offset, 0);
    assert_eq!(scene.rows.len(), 3);
    assert_eq!(scene.rows[0].text, "message 1");
    assert_eq!(scene.rows[1].text, "message 2");
    assert_eq!(scene.rows[2].text, "message 3");
    assert_eq!(scene.indicator.position, 0);
    assert!(scene.indicator.is_full());
}

#[test]
fn render_empty_history() {
    let scene = Widget::new().render(&Vec::new(), region(12));
    assert_eq!(scene.viewport, Viewport { total_count: 0, visible_capacity: 10, scroll_offset: 0 });
    assert!(scene.rows.is_empty());
    assert_eq!(scene.indicator.content_length, 0);
    assert_eq!(scene.indicator.position, 0);
    assert!(scene.indicator.is_full());
}

#[test]
fn render_in_a_region_without_usable_rows() {
    let messages = history(4);
    for height in 0..=2u16 {
        let scene = Widget::new().render(&messages, region(height));
        assert_eq!(scene.viewport.visible_capacity, 1);
        assert_eq!(scene.viewport.scroll_offset, 3);
        assert_eq!(scene.rows.len(), 1);
        assert_eq!(scene.rows[0].text, "message 4");
    }
    let empty = Widget::new().render(&Vec::new(), Region { x: 0, y: 0, width: 0, height: 0 });
    assert!(empty.rows.is_empty());
    assert_eq!(empty.viewport.visible_capacity, 1);
}

#[test]
fn region_rows_is_its_height() {
    assert_eq!(region(0).rows(), 0);
    assert_eq!(region(12).rows(), 12);
    assert_eq!(Region { x: 3, y: 0, width: 1, height: u16::MAX }.rows(), 65535);
    assert_eq!(Region { x: 3, y: 9, width: 1, height: 65526 }.rows(), 65526);
    assert_eq!(Region { x: 3, y: 9, width: 1, height: u16::MAX }.rows(), 65526);
    assert_eq!(Region { x: 0, y: u16::MAX, width: 1, height: 7 }.rows(), 0);
}

#[test]
fn every_severity_has_its_label_and_colour() {
    let expected = [
        (Level::Error, "ERROR    ", Color::Red),
        (Level::Warn, "WARN     ", Color::Yellow),
        (Level::Info, "INFO     ", Color::Green),
        (Level::Debug, "DEBUG    ", Color::Blue),
        (Level::Trace, "TRACE    ", Color::Gray),
    ];
    let messages: Vec<Message> =
        expected.iter().map(|(level, _, _)| Message::new(*level, "body".to_string())).collect();
    let scene = Widget::new().render(&messages, region(20));
    assert_eq!(scene.rows.len(), 5);
    for (row, (level, label, color)) in scene.rows.iter().zip(expected.iter()) {
        assert_eq!(level.label(), *label);
        assert_eq!(level.label().len(), 9);
        assert_eq!(level.color(), *color);
        assert_eq!(row.label, *label);
        assert_eq!(row.color, *color);
        assert_eq!(row.text, "body");
    }
}

#[test]
fn title_of_the_list() {
    assert_eq!(TITLE, "Logs");
}

#[test]
fn row_of_one_message() {
    let message = Message::new(Level::Error, "disk full".to_string());
    let row = Row::from_message(&message);
    assert_eq!(row.label, "ERROR    ");
    assert_eq!(row.color, Color::Red);
    assert_eq!(row.text, "disk full");
    let empty = Row::from_message(&Message::new(Level::Trace, String::new()));
    assert_eq!(row.label.len(), empty.label.len());
    assert_eq!(empty.label, "TRACE    ");
    assert_eq!(empty.color, Color::Gray);
    assert_eq!(empty.text, "");
}
