use chatroom::sanitize_lines;

fn line_vec(lines: &[&str]) -> Vec<String> {
    lines.iter().map(|l| String::from(*l)).collect()
}

#[test]
fn blank_lines_are_dropped() {
    let words = sanitize_lines(line_vec(&["", "   ", "\t", "bear", " \r"]));
    assert_eq!(words, vec![String::from("bear")]);
}

#[test]
fn unicode_blank_lines_are_dropped() {
    let words = sanitize_lines(line_vec(&[
        "\u{a0}",
        "\u{85}",
        "\u{1680}",
        "\u{2000}\u{200a}",
        "\u{2028}",
        "\u{2029}",
        "\u{202f}",
        "\u{205f}",
        "\u{3000}",
        " \u{a0}\t",
        "Bear",
    ]));
    assert_eq!(words, vec![String::from("bear")]);
}

#[test]
fn blankness_agrees_with_trim() {
    let lines = [
        "", " ", "\u{a0}", "\u{2007}", "\u{3000}\u{1680}", "a", "\u{a0}x\u{a0}", "_",
    ];
    let expected: Vec<String> = lines
        .iter()
        .filter(|l| !l.trim().is_empty())
        .map(|l| l.to_lowercase())
        .collect();
    assert_eq!(sanitize_lines(line_vec(&lines)), expected);
}

#[test]
fn lines_are_lowercased() {
    let words = sanitize_lines(line_vec(&["BRAVE", "BoLd"]));
    assert_eq!(words, vec![String::from("brave"), String::from("bold")]);
}

#[test]
fn order_is_kept() {
    let words = sanitize_lines(line_vec(&["Ant", "", "Bear", "  ", "Cat"]));
    assert_eq!(
        words,
        vec![String::from("ant"), String::from("bear"), String::from("cat")]
    );
}

#[test]
fn inner_whitespace_is_kept() {
    let words = sanitize_lines(line_vec(&["Brave Bear"]));
    assert_eq!(words, vec![String::from("brave bear")]);
}
