use fast_qr_py::QRBuilder;

fn glyph(upper: bool, lower: bool) -> char {
    match (upper, lower) {
        (true, true) => ' ',
        (true, false) => '\u{2584}',
        (false, true) => '\u{2580}',
        (false, false) => '\u{2588}',
    }
}

/// The terminal text as the library's contract describes it.
fn expected_text(m: &[Vec<bool>]) -> String {
    let n = m.len();
    let mut out = String::new();
    out.push('\u{2584}');
    for _ in 0..n {
        out.push(glyph(true, false));
    }
    out.push('\u{2584}');
    out.push('\n');
    for k in 0..n / 2 {
        out.push('\u{2588}');
        for c in 0..n {
            out.push(glyph(m[2 * k][c], m[2 * k + 1][c]));
        }
        out.push('\u{2588}');
        out.push('\n');
    }
    out.push('\u{2588}');
    for c in 0..n {
        out.push(glyph(m[n - 1][c], false));
    }
    out.push('\u{2588}');
    out
}

#[test]
fn matrix_is_square_of_side_size() {
    let qr = QRBuilder::new(b"matrix".to_vec()).build().unwrap();
    let m = qr.matrix();
    assert_eq!(m.len(), qr.size());
    for row in &m {
        assert_eq!(row.len(), qr.size());
    }
}

#[test]
fn matrix_shows_the_finder_pattern() {
    let qr = QRBuilder::new(b"finder".to_vec()).build().unwrap();
    let m = qr.matrix();
    let n = qr.size();
    for i in 0..7 {
        assert!(m[0][i], "top edge of the top-left finder is dark");
        assert!(m[i][0], "left edge of the top-left finder is dark");
        assert!(m[0][n - 1 - i], "top edge of the top-right finder is dark");
        assert!(m[n - 1][i], "bottom edge of the bottom-left finder is dark");
    }
    assert!(!m[0][7], "separator after the finder is light");
    assert!(!m[1][1], "inner ring of the finder is light");
    assert!(m[3][3], "centre of the finder is dark");
}

#[test]
fn to_str_draws_rows_two_by_two() {
    for data in [&b"a"[..], b"terminal rendering", &[7u8; 200][..]] {
        let qr = QRBuilder::new(data.to_vec()).build().unwrap();
        assert_eq!(qr.to_str(), expected_text(&qr.matrix()));
    }
}

#[test]
fn to_str_line_count() {
    let qr = QRBuilder::new(b"lines".to_vec()).build().unwrap();
    let text = qr.to_str();
    assert_eq!(text.lines().count(), qr.size() / 2 + 2);
    for line in text.lines() {
        assert_eq!(line.chars().count(), qr.size() + 2);
    }
}

#[test]
fn qr_code_text_form_and_copy() {
    let qr = QRBuilder::new(b"repr".to_vec()).build().unwrap();
    assert_eq!(qr.repr(), "QRCode(size=21)");
    let copy = qr.clone();
    assert_eq!(copy.size(), qr.size());
    assert_eq!(copy.matrix(), qr.matrix());
    assert_eq!(copy.to_str(), qr.to_str());
    let mut b = QRBuilder::new(vec![b'q'; 300]);
    b.version(fast_qr_py::Version::new(40).unwrap());
    assert_eq!(b.build().unwrap().repr(), "QRCode(size=177)");
}
