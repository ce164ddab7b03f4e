use merging_image::camera_params::{
    camera_params_from_lines, camera_params_lines, is_space_char, lines_to_text, parse_line, text_lines,
    trim_str, value_of_key,
};

fn lines(text: &str) -> Vec<String> {
    text.lines().map(|l| l.to_string()).collect()
}

#[test]
fn trim_matches_std() {
    for s in ["", "   ", "  a b  ", "\tkey\n", "\u{3000}全角\u{3000}", "x", " \u{85}y\u{a0} "] {
        assert_eq!(trim_str(s), s.trim());
    }
    for c in [' ', '\t', '\n', '\u{2028}', '\u{3000}', 'a', '=', '\u{200b}'] {
        assert_eq!(is_space_char(c), c.is_whitespace());
    }
}

#[test]
fn parse_line_cases() {
    assert_eq!(parse_line("# comment=1"), None);
    assert_eq!(parse_line("    "), None);
    assert_eq!(parse_line("no equals here"), None);
    assert_eq!(parse_line(" gain = 12.5 "), Some(("gain".to_string(), "12.5".to_string())));
    assert_eq!(parse_line("a=b=c"), Some(("a".to_string(), "b=c".to_string())));
    assert_eq!(parse_line(" # not a comment=x"), Some(("# not a comment".to_string(), "x".to_string())));
    assert_eq!(parse_line("=v"), Some((String::new(), "v".to_string())));
}

#[test]
fn last_assignment_wins() {
    let ls = lines("gain=1\n# gain=2\ngain = 3\nother=4");
    assert_eq!(value_of_key(&ls, "gain"), Some("3".to_string()));
    assert_eq!(value_of_key(&ls, "missing"), None);
}

#[test]
fn camera_params_defaults() {
    let p = camera_params_from_lines(&lines("# nothing\n\nframe_rate=12"));
    assert_eq!(p.frame_rate, Some("12".to_string()));
    assert_eq!(p.exposure_time, None);
    assert_eq!(p.gain, None);
    assert_eq!(p.left_serial, "DA4347673");
    assert_eq!(p.right_serial, "DA4347675");
}

#[test]
fn camera_params_file_text() {
    let ls = camera_params_lines("L1", "R2", "15", "60000", "10");
    let text = lines_to_text(&ls);
    let expected = [
        "# Camera Hardware Configuration\n",
        "# Format: key=value\n",
        "# Lines starting with # are comments\n",
        "\n",
        "# Camera Serial Numbers\n",
        "left_camera_serial=L1\n",
        "right_camera_serial=R2\n",
        "\n",
        "# Camera Parameters\n",
        "frame_rate=15\n",
        "exposure_time=60000\n",
        "gain=10\n",
        "\n",
        "# ROI Parameters (reserved for future use)\n",
        "# roi_width=2448\n",
        "# roi_height=2048\n",
        "# roi_offset_x=0\n",
        "# roi_offset_y=0",
    ]
    .concat();
    assert_eq!(text, expected);
}

#[test]
fn camera_params_round_trip() {
    let ls = camera_params_lines("SER-1", "SER 2", "12.5", "30000", "0");
    let back = camera_params_from_lines(&lines(&lines_to_text(&ls)));
    assert_eq!(back.left_serial, "SER-1");
    assert_eq!(back.right_serial, "SER 2");
    assert_eq!(back.frame_rate, Some("12.5".to_string()));
    assert_eq!(back.exposure_time, Some("30000".to_string()));
    assert_eq!(back.gain, Some("0".to_string()));
}

#[test]
fn splitting_matches_str_lines() {
    for t in ["", "a", "a\n", "a\nb", "\n\n", "x\r\ny\r", "\r\n", "one\n\ntwo\n", "a\rb\n", "末行"] {
        let expected: Vec<String> = t.lines().map(|l| l.to_string()).collect();
        assert_eq!(text_lines(t), expected, "text {:?}", t);
    }
}

#[test]
fn camera_params_text_round_trip() {
    let text = lines_to_text(&camera_params_lines("DA1", "DA2", "9.5", "45000", "3"));
    let back = camera_params_from_lines(&text_lines(&text));
    assert_eq!(back.left_serial, "DA1");
    assert_eq!(back.right_serial, "DA2");
    assert_eq!(back.frame_rate, Some("9.5".to_string()));
    assert_eq!(back.exposure_time, Some("45000".to_string()));
    assert_eq!(back.gain, Some("3".to_string()));
    let with_crlf = text.replace('\n', "\r\n");
    let back = camera_params_from_lines(&text_lines(&with_crlf));
    assert_eq!(back.gain, Some("3".to_string()));
}
