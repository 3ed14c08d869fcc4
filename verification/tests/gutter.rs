use helix_view::gutter::{
    abs_diff, diagnostic_render, digits10, line_number_render, line_number_width, Diagnostic,
    DiagnosticStyle, Gutter, LineNumber, LineNumbers, LineStyle, Severity,
};

#[test]
fn digits_of_small_and_large_numbers() {
    assert_eq!(digits10(0), 1);
    assert_eq!(digits10(1), 1);
    assert_eq!(digits10(9), 1);
    assert_eq!(digits10(10), 2);
    assert_eq!(digits10(99), 2);
    assert_eq!(digits10(100), 3);
    assert_eq!(digits10(12345), 5);
    assert_eq!(digits10(999_999), 6);
    assert_eq!(digits10(1_000_000), 7);
    assert_eq!(digits10(usize::MAX), usize::MAX.to_string().len());
}

#[test]
fn digits_change_at_the_powers_of_ten() {
    let mut power: usize = 1;
    for digits in 1..10 {
        assert_eq!(digits10(power), digits);
        assert_eq!(digits10(power * 10 - 1), digits);
        power *= 10;
    }
}

#[test]
fn the_distance_is_the_same_both_ways() {
    assert_eq!(abs_diff(3, 10), 7);
    assert_eq!(abs_diff(10, 3), 7);
    assert_eq!(abs_diff(5, 5), 0);
    assert_eq!(abs_diff(0, usize::MAX), usize::MAX);
    assert_eq!(abs_diff(usize::MAX, 0), usize::MAX);
}

#[test]
fn the_width_follows_the_number_of_lines() {
    assert_eq!(line_number_width(LineNumber::Absolute, 1), 1);
    assert_eq!(line_number_width(LineNumber::Absolute, 9), 1);
    assert_eq!(line_number_width(LineNumber::Relative, 10), 2);
    assert_eq!(line_number_width(LineNumber::Relative, 1234), 4);
    assert_eq!(line_number_width(LineNumber::Hidden, 1234), 0);
    assert_eq!(Gutter::LineNumber.width(LineNumber::Absolute, 1234), 4);
    assert_eq!(Gutter::LineNumber.width(LineNumber::Hidden, 1234), 0);
    assert_eq!(Gutter::Diagnostic.width(LineNumber::Absolute, 1234), 1);
    assert_eq!(Gutter::Diagnostic.width(LineNumber::Hidden, 0), 1);
}

fn shown(gutter: &LineNumbers, line: usize, selected: bool) -> (String, Option<LineStyle>) {
    let mut out = String::new();
    let style = gutter.render(line, selected, &mut out);
    (out, style)
}

#[test]
fn absolute_numbers_count_from_one() {
    let gutter = line_number_render(LineNumber::Absolute, 120, 119, 4000, 4010, 7, true);
    assert_eq!(gutter.width, 3);
    assert!(gutter.draw_last);
    assert_eq!(shown(&gutter, 0, false), ("  1".to_string(), Some(LineStyle::Linenr)));
    assert_eq!(shown(&gutter, 8, false), ("  9".to_string(), Some(LineStyle::Linenr)));
    assert_eq!(shown(&gutter, 9, false), (" 10".to_string(), Some(LineStyle::Linenr)));
    assert_eq!(shown(&gutter, 99, false), ("100".to_string(), Some(LineStyle::Linenr)));
    assert_eq!(shown(&gutter, 119, false), ("120".to_string(), Some(LineStyle::Linenr)));
}

#[test]
fn relative_numbers_count_from_the_cursor() {
    let gutter = line_number_render(LineNumber::Relative, 120, 119, 4000, 4010, 7, true);
    assert_eq!(shown(&gutter, 7, false).0, "  8");
    assert_eq!(shown(&gutter, 6, false).0, "  1");
    assert_eq!(shown(&gutter, 8, false).0, "  1");
    assert_eq!(shown(&gutter, 0, false).0, "  7");
    assert_eq!(shown(&gutter, 119, false).0, "112");
}

#[test]
fn a_selected_line_is_styled_only_with_the_focus() {
    let focused = line_number_render(LineNumber::Absolute, 10, 9, 50, 60, 0, true);
    assert_eq!(shown(&focused, 3, true).1, Some(LineStyle::LinenrSelected));
    assert_eq!(shown(&focused, 3, false).1, Some(LineStyle::Linenr));
    let unfocused = line_number_render(LineNumber::Absolute, 10, 9, 50, 60, 0, false);
    assert_eq!(shown(&unfocused, 3, true).1, Some(LineStyle::Linenr));
}

#[test]
fn an_empty_last_line_shows_a_tilde() {
    let gutter = line_number_render(LineNumber::Absolute, 1000, 999, 5000, 5000, 0, true);
    assert!(!gutter.draw_last);
    assert_eq!(shown(&gutter, 999, true), ("   ~".to_string(), Some(LineStyle::Linenr)));
    assert_eq!(shown(&gutter, 998, true), (" 999".to_string(), Some(LineStyle::LinenrSelected)));
    let narrow = line_number_render(LineNumber::Relative, 5, 4, 9, 9, 0, true);
    assert_eq!(shown(&narrow, 4, false).0, "~");
}

#[test]
fn hidden_numbers_show_nothing() {
    let gutter = line_number_render(LineNumber::Hidden, 1000, 999, 5000, 5000, 0, true);
    assert_eq!(gutter.width, 0);
    let mut out = "before".to_string();
    assert_eq!(gutter.render(999, true, &mut out), None);
    assert_eq!(gutter.render(3, false, &mut out), None);
    assert_eq!(out, "before");
}

#[test]
fn rendering_appends_and_never_cuts() {
    let gutter = LineNumbers {
        line_number: LineNumber::Absolute,
        width: 2,
        last_line: 5000,
        draw_last: true,
        current_line: 0,
        is_focused: false,
    };
    let mut out = "|".to_string();
    gutter.render(0, false, &mut out);
    gutter.render(1233, false, &mut out);
    assert_eq!(out, "| 11234");
}

fn diagnostics() -> Vec<Diagnostic> {
    vec![
        Diagnostic { line: 2, severity: Some(Severity::Hint) },
        Diagnostic { line: 5, severity: None },
        Diagnostic { line: 9, severity: Some(Severity::Error) },
        Diagnostic { line: 12, severity: Some(Severity::Info) },
        Diagnostic { line: 40, severity: Some(Severity::Warning) },
    ]
}

#[test]
fn a_line_with_a_diagnostic_is_marked_in_its_style() {
    let expected = [
        (2, DiagnosticStyle::Hint),
        (5, DiagnosticStyle::Warning),
        (9, DiagnosticStyle::Error),
        (12, DiagnosticStyle::Info),
        (40, DiagnosticStyle::Warning),
    ];
    for (line, style) in expected {
        let mut out = String::new();
        assert_eq!(diagnostic_render(&diagnostics(), line, &mut out), Some(style));
        assert_eq!(out, "\u{25cf}");
    }
}

#[test]
fn a_line_without_a_diagnostic_is_not_marked() {
    for line in [0, 1, 3, 4, 6, 10, 39, 41, 1000] {
        let mut out = "x".to_string();
        assert_eq!(diagnostic_render(&diagnostics(), line, &mut out), None);
        assert_eq!(out, "x");
    }
    let mut out = String::new();
    assert_eq!(diagnostic_render(&Vec::new(), 0, &mut out), None);
    assert_eq!(out, "");
}

#[test]
fn several_diagnostics_on_a_line_give_one_mark() {
    let list = vec![
        Diagnostic { line: 1, severity: Some(Severity::Error) },
        Diagnostic { line: 1, severity: Some(Severity::Error) },
        Diagnostic { line: 1, severity: Some(Severity::Error) },
        Diagnostic { line: 3, severity: Some(Severity::Hint) },
    ];
    let mut out = String::new();
    assert_eq!(diagnostic_render(&list, 1, &mut out), Some(DiagnosticStyle::Error));
    assert_eq!(out, "\u{25cf}");
}
