use grid::{Cell, Factory, Grid, Layout};

#[derive(Clone, Copy, Default, Debug, PartialEq)]
struct Look {
    background: (u8, u8, u8),
    text: (u8, u8, u8),
}

type Plain = fn() -> Cell<&'static str, Look>;

fn shape<C, S>(l: &Layout<C, S>) -> Vec<usize> {
    l.rows.iter().map(|r| r.leaves.len()).collect()
}

fn elements(items: &[&'static str]) -> Vec<Factory<&'static str, Look, Plain>> {
    items.iter().map(|s| Factory::from_element(*s)).collect()
}

#[test]
fn new_grid_renders_empty_column() {
    let g: Grid<&'static str, Look, Plain> = Grid::new();
    let l = g.render();
    assert!(l.rows.is_empty());
    assert_eq!(l.spacing, 0);
    assert_eq!(l.padding, 0);
}

#[test]
fn default_grid_matches_new() {
    let g: Grid<&'static str, Look, Plain> = Grid::default();
    let l = g.with_row(elements(&["a"])).render();
    assert_eq!(shape(&l), vec![1]);
    assert_eq!(l.rows[0].leaves[0].width, 0);
    assert_eq!(l.rows[0].leaves[0].height, 0);
}

#[test]
fn ragged_rows_are_not_padded() {
    let g: Grid<&'static str, Look, Plain> = Grid::new()
        .with_row(elements(&["a", "b", "c"]))
        .with_row(elements(&[]))
        .with_row(elements(&["d"]));
    let l = g.render();
    assert_eq!(shape(&l), vec![3, 0, 1]);
}

#[test]
fn contents_keep_their_positions() {
    let g: Grid<&'static str, Look, Plain> = Grid::new()
        .with_row(elements(&["a", "b"]))
        .with_rows(vec![elements(&["c"]), elements(&["d", "e", "f"])]);
    let l = g.render();
    let got: Vec<Vec<&str>> = l
        .rows
        .iter()
        .map(|r| r.leaves.iter().map(|x| x.cell.content).collect())
        .collect();
    assert_eq!(got, vec![vec!["a", "b"], vec!["c"], vec!["d", "e", "f"]]);
}

#[test]
fn rendering_twice_keeps_structure_and_styles() {
    let calls = std::cell::Cell::new(0u32);
    let red = Look { background: (255, 0, 0), text: (255, 255, 255) };
    let make = || {
        calls.set(calls.get() + 1);
        Cell::new(calls.get()).style(red)
    };
    let g = Grid::new()
        .with_row(vec![Factory::from_factory(make), Factory::from_element(7)])
        .with_row(vec![Factory::from_element_and_style(8, red)]);
    let first = g.render();
    let second = g.render();
    assert_eq!(shape(&first), shape(&second));
    assert_eq!(first.rows[0].leaves[0].cell.content, 1);
    assert_eq!(second.rows[0].leaves[0].cell.content, 2);
    for (a, b) in first.rows.iter().zip(second.rows.iter()) {
        for (x, y) in a.leaves.iter().zip(b.leaves.iter()) {
            assert_eq!(x.cell.style, y.cell.style);
        }
    }
    assert_eq!(calls.get(), 2);
}

#[test]
fn element_factory_uses_default_style() {
    let f: Factory<&'static str, Look, Plain> = Factory::from_element("x");
    for _ in 0..3 {
        let c = f.produce();
        assert_eq!(c.content, "x");
        assert_eq!(c.style, Look::default());
    }
}

#[test]
fn styled_factory_keeps_its_style() {
    let blue = Look { background: (0, 0, 255), text: (1, 2, 3) };
    let f: Factory<&'static str, Look, Plain> = Factory::from_element_and_style("y", blue);
    for _ in 0..3 {
        let c = f.produce();
        assert_eq!(c.content, "y");
        assert_eq!(c.style, blue);
    }
}

#[test]
fn cell_style_replaces_whole_style() {
    let c: Cell<&'static str, Look> = Cell::new("z");
    assert_eq!(c.style, Look::default());
    let s = Look { background: (9, 9, 9), text: (0, 0, 0) };
    let c = c.style(s);
    assert_eq!(c.content, "z");
    assert_eq!(c.style, s);
}

#[test]
fn gutter_and_padding_are_forwarded() {
    let g: Grid<&'static str, Look, Plain> = Grid::new()
        .with_rows(vec![elements(&["a", "b"]), elements(&["c", "d", "e"])])
        .gutter(4)
        .padding(9)
        .cell_width(30)
        .cell_height(20);
    let l = g.render();
    assert_eq!(l.spacing, 4);
    assert_eq!(l.padding, 9);
    for r in &l.rows {
        assert_eq!(r.spacing, 4);
        for x in &r.leaves {
            assert_eq!((x.width, x.height), (30, 20));
        }
    }
}

#[test]
fn setters_replace_earlier_values() {
    let g: Grid<&'static str, Look, Plain> = Grid::new()
        .with_row(elements(&["a"]))
        .cell_width(1)
        .cell_width(2)
        .gutter(3)
        .gutter(0)
        .padding(6)
        .padding(5);
    let l = g.render();
    assert_eq!(l.rows[0].leaves[0].width, 2);
    assert_eq!(l.spacing, 0);
    assert_eq!(l.padding, 5);
}

#[test]
fn calendar_month_with_today_highlighted() {
    let today: u32 = 10;
    let red = Look { background: (255, 0, 0), text: (255, 255, 255) };
    let white = Look { background: (255, 255, 255), text: (0, 0, 0) };
    let header = ["Sun", "Mon", "Tue", "Wed", "Thu", "Fri", "Sat"];
    let days: Vec<u32> = (1..=31).collect();
    let day_rows: Vec<Vec<_>> = days
        .chunks(7)
        .map(|week| {
            week.iter()
                .map(|&day| {
                    Factory::from_factory(move || {
                        Cell::new(day.to_string()).style(if day == today { red } else { white })
                    })
                })
                .collect()
        })
        .collect();
    let g = Grid::new()
        .with_row(header.iter().map(|h| Factory::from_element(h.to_string())).collect())
        .with_rows(day_rows)
        .cell_height(50)
        .cell_width(50)
        .padding(5);
    let l = g.render();
    assert_eq!(shape(&l), vec![7, 7, 7, 7, 7, 3]);
    assert_eq!(l.spacing, 0);
    assert_eq!(l.padding, 5);
    assert_eq!(l.rows[0].leaves[0].cell.content, "Sun");
    assert_eq!(l.rows[0].leaves[0].cell.style, Look::default());
    for r in &l.rows[1..] {
        for x in &r.leaves {
            assert_eq!((x.width, x.height), (50, 50));
            let expected = if x.cell.content == "10" { red } else { white };
            assert_eq!(x.cell.style, expected);
        }
    }
    assert_eq!(l.rows[2].leaves[2].cell.content, "10");
    assert_eq!(l.rows[5].leaves[2].cell.content, "31");
}
