use deskclock::font::LargeFont;
use deskclock::ui::{
    create_main_layout, get_row_string, large_text_plannable, plan_large_text, LargeTextPlan, Rect,
};

#[test]
fn main_layout_splits_seventy_twenty_ten() {
    let bands = create_main_layout(Rect { x: 0, y: 0, width: 80, height: 100 });
    assert_eq!(
        bands,
        vec![
            Rect { x: 0, y: 0, width: 80, height: 70 },
            Rect { x: 0, y: 70, width: 80, height: 20 },
            Rect { x: 0, y: 90, width: 80, height: 10 },
        ]
    );
}

#[test]
fn main_layout_keeps_left_edge_and_width() {
    let area = Rect { x: 3, y: 5, width: 41, height: 37 };
    let bands = create_main_layout(area);
    assert_eq!(bands.len(), 3);
    for band in &bands {
        assert_eq!(band.x, 3);
        assert_eq!(band.width, 41);
    }
    assert_eq!(bands[0].y, 5);
}

#[test]
fn row_string_joins_cells_with_a_blank() {
    let font = LargeFont::new();
    let chars: Vec<char> = "10".chars().collect();
    assert_eq!(get_row_string(0, &chars, &font), "  █    ███ ");
    assert_eq!(get_row_string(1, &chars, &font), " ██   █   █");
}

#[test]
fn row_string_blank_for_unknown_characters() {
    let font = LargeFont::new();
    let chars: Vec<char> = "@1".chars().collect();
    assert_eq!(get_row_string(0, &chars, &font), "        █  ");
    let none: Vec<char> = Vec::new();
    assert_eq!(get_row_string(0, &none, &font), "");
    // a row beyond the font is readable where no character has a glyph
    let unknown: Vec<char> = "@#".chars().collect();
    assert_eq!(get_row_string(7, &unknown, &font), "           ");
}

#[test]
fn large_text_scales_to_fit() {
    let font = LargeFont::new();
    // "12" is 11 cells wide and 5 high; 100 x 10 allows a scale of 2.
    let plan = plan_large_text(Rect { x: 0, y: 0, width: 100, height: 10 }, "12", &font);
    match plan {
        LargeTextPlan::Lines(lines) => {
            assert_eq!(lines.len(), 10);
            assert_eq!(lines[0].area, Rect { x: 39, y: 0, width: 22, height: 1 });
            assert_eq!(lines[9].area, Rect { x: 39, y: 9, width: 22, height: 1 });
            assert_eq!(lines[0].text, "    ██        ██████  ");
            assert_eq!(lines[1].text, lines[0].text);
            assert_eq!(lines[2].text, "  ████              ██");
        },
        LargeTextPlan::Plain => panic!("the text fits"),
    }
}

#[test]
fn large_text_centered_vertically() {
    let font = LargeFont::new();
    let plan = plan_large_text(Rect { x: 10, y: 20, width: 5, height: 8 }, "0", &font);
    match plan {
        LargeTextPlan::Lines(lines) => {
            assert_eq!(lines.len(), 5);
            assert_eq!(lines[0].area, Rect { x: 10, y: 21, width: 5, height: 1 });
            assert_eq!(lines[4].text, " ███ ");
        },
        LargeTextPlan::Plain => panic!("the text fits"),
    }
}

#[test]
fn large_text_falls_back_to_plain() {
    let font = LargeFont::new();
    assert_eq!(
        plan_large_text(Rect { x: 0, y: 0, width: 10, height: 10 }, "12", &font),
        LargeTextPlan::Plain
    );
    assert_eq!(
        plan_large_text(Rect { x: 0, y: 0, width: 100, height: 4 }, "12", &font),
        LargeTextPlan::Plain
    );
}

#[test]
fn large_text_plannable_cases() {
    assert!(!large_text_plannable(Rect { x: 0, y: 0, width: 100, height: 10 }, ""));
    assert!(large_text_plannable(Rect { x: 0, y: 0, width: 100, height: 10 }, "12"));
    assert!(large_text_plannable(Rect { x: 0, y: 65530, width: 100, height: 5 }, "1"));
    assert!(!large_text_plannable(Rect { x: 0, y: 65533, width: 100, height: 5 }, "1"));
    // drawn as plain text, the lines need no coordinates
    assert!(large_text_plannable(Rect { x: 0, y: 65533, width: 100, height: 4 }, "1"));
}

#[test]
fn main_layout_bands_within_one_cell_of_their_shares() {
    for height in [0u16, 1, 3, 7, 10, 24, 33, 50, 61, 99, 100, 257] {
        let area = Rect { x: 2, y: 5, width: 40, height };
        let bands = create_main_layout(area);
        assert_eq!(bands.len(), 3);
        let percents = [70i64, 20, 10];
        for (band, percent) in bands.iter().zip(percents) {
            let off = 100 * band.height as i64 - percent * height as i64;
            assert!((-100..=100).contains(&off), "height {} band {:?}", height, band);
        }
        assert_eq!(bands[0].y, 5);
        assert_eq!(bands[2].y + bands[2].height, 5 + height);
    }
}

#[test]
fn main_layout_fifty_rows_is_exact() {
    let bands = create_main_layout(Rect { x: 0, y: 0, width: 10, height: 50 });
    let heights: Vec<u16> = bands.iter().map(|b| b.height).collect();
    assert_eq!(heights, vec![35, 10, 5]);
}
