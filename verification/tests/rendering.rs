use ci_insights::insight::Item;
use ci_insights::text::{category_of, render, Cell, ColorCategory};

fn run(status: Option<&str>) -> Item {
    Item { id: None, duration: 30, status: status.map(|s| s.to_string()), credits_used: 5 }
}

fn cats(cells: &[Cell]) -> Vec<ColorCategory> {
    cells.iter().map(|c| c.cat).collect()
}

fn chars(cells: &[Cell]) -> String {
    cells.iter().map(|c| c.ch).collect()
}

#[test]
fn render_produces_exactly_width_cells() {
    let history = vec![run(Some("success")), run(Some("failed"))];
    for width in [0usize, 1, 2, 3, 10] {
        assert_eq!(render(width, &history, "label").len(), width);
    }
    assert_eq!(render(4, &Vec::new(), "").len(), 4);
}

#[test]
fn render_width_zero_is_empty() {
    let history = vec![run(Some("success"))];
    assert!(render(0, &history, "abc").is_empty());
}

#[test]
fn last_cell_shows_most_recent_run() {
    let history = vec![run(Some("success")), run(Some("success")), run(Some("failed"))];
    let cells = render(2, &history, "");
    assert_eq!(cells[1].cat, ColorCategory::Failure);
    assert_eq!(cells[0].cat, ColorCategory::Success);
}

#[test]
fn short_history_pads_leading_cells_with_empty() {
    let history = vec![run(Some("failed"))];
    let cells = render(4, &history, "");
    assert_eq!(
        cats(&cells),
        vec![
            ColorCategory::Empty,
            ColorCategory::Empty,
            ColorCategory::Empty,
            ColorCategory::Failure
        ]
    );
}

#[test]
fn empty_history_renders_all_empty() {
    let cells = render(3, &Vec::new(), "abc");
    assert_eq!(
        cats(&cells),
        vec![ColorCategory::Empty, ColorCategory::Empty, ColorCategory::Empty]
    );
    assert_eq!(chars(&cells), "abc");
}

#[test]
fn label_is_left_aligned_and_space_padded() {
    let history = vec![run(Some("success")); 5];
    let cells = render(5, &history, "AB");
    assert_eq!(chars(&cells), "AB   ");
}

#[test]
fn long_label_is_cut_to_width() {
    let cells = render(3, &Vec::new(), "abcdef");
    assert_eq!(chars(&cells), "abc");
}

#[test]
fn label_is_independent_of_history() {
    let with_history = render(4, &vec![run(Some("failed")); 6], "ok");
    let without = render(4, &Vec::new(), "ok");
    assert_eq!(chars(&with_history), chars(&without));
    assert_eq!(chars(&with_history), "ok  ");
}

#[test]
fn three_runs_in_five_columns() {
    let history = vec![run(Some("success")), run(Some("failed")), run(Some("success"))];
    let cells = render(5, &history, "AB");
    assert_eq!(
        cats(&cells),
        vec![
            ColorCategory::Empty,
            ColorCategory::Empty,
            ColorCategory::Success,
            ColorCategory::Failure,
            ColorCategory::Success
        ]
    );
    assert_eq!(chars(&cells), "AB   ");
}

#[test]
fn category_of_recognizes_each_status() {
    assert_eq!(category_of(&Some("success".to_string())), ColorCategory::Success);
    assert_eq!(category_of(&Some("failed".to_string())), ColorCategory::Failure);
    assert_eq!(category_of(&Some("running".to_string())), ColorCategory::Unknown);
    assert_eq!(category_of(&Some("".to_string())), ColorCategory::Unknown);
    assert_eq!(category_of(&None), ColorCategory::Unknown);
}

#[test]
fn missing_run_is_empty_not_unknown() {
    let history = vec![run(None)];
    let cells = render(2, &history, "");
    assert_eq!(cells[0].cat, ColorCategory::Empty);
    assert_eq!(cells[1].cat, ColorCategory::Unknown);
    assert_ne!(cells[0].cat, cells[1].cat);
}
