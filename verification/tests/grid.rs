//! Grid planning: line counts, orientations, exact positions.

use shape_layers::color::Color;
use shape_layers::grid::GridLayer;
use shape_layers::hairline::Orientation;
use shape_layers::layer::DrawContext;
use shape_layers::rat::Frac;
use shape_layers::zoom::ViewError;

#[test]
fn grid_plans_rows_then_columns() {
    // 2 rows over height 600: offset -600 + 1200/2 = 0, step 1200/3 =
    // 400, so rows sit at 0 and 400.  3 columns over width 600: offset
    // -600 + 1200/3 = -200, step 1200/4 = 300, so columns sit at -200,
    // 100 and 400.
    let grid = GridLayer::new(2, 3, Color(0x000000ff));
    let lines = grid.hairlines(&DrawContext { width: 600, height: 600 }).unwrap();
    assert_eq!(lines.len(), 5);
    let expected_rows: [i128; 2] = [0, 400];
    for (i, expected) in expected_rows.iter().enumerate() {
        assert_eq!(lines[i].orientation, Orientation::Horizontal);
        assert!(lines[i].location.try_eq(&Frac::from_int(*expected as i64)).unwrap());
        assert!(lines[i].width.try_eq(&Frac::new(4, 1000)).unwrap());
        assert_eq!(lines[i].color, Color(0x000000ff));
    }
    let expected_cols: [i128; 3] = [-200, 100, 400];
    for (j, expected) in expected_cols.iter().enumerate() {
        let line = &lines[2 + j];
        assert_eq!(line.orientation, Orientation::Vertical);
        assert!(line.location.try_eq(&Frac::from_int(*expected as i64)).unwrap());
    }
}

#[test]
fn grid_positions_can_be_fractional() {
    // 10 rows over height 600: offset -600 + 1200/10 = -480, step
    // 1200/11; row 1 sits at -480 + 1200/11, an exact fraction.
    let grid = GridLayer::new(10, 10, Color(0xff));
    let lines = grid.hairlines(&DrawContext { width: 600, height: 600 }).unwrap();
    assert_eq!(lines.len(), 20);
    assert!(lines[1].location.try_eq(&Frac::new(-480 * 11 + 1200, 11)).unwrap());
}

#[test]
fn empty_grid_is_rejected() {
    let ctx = DrawContext { width: 600, height: 600 };
    assert!(matches!(
        GridLayer::new(0, 3, Color(1)).hairlines(&ctx),
        Err(ViewError::IllegalArgument)
    ));
    assert!(matches!(
        GridLayer::new(3, 0, Color(1)).hairlines(&ctx),
        Err(ViewError::IllegalArgument)
    ));
}

#[test]
fn default_grid_is_ten_by_ten() {
    let grid = GridLayer::default();
    let lines = grid.hairlines(&DrawContext { width: 600, height: 600 }).unwrap();
    assert_eq!(lines.len(), 20);
    assert_eq!(lines[0].color, Color(0x000000ff));
}
