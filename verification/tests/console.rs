use quad_renderer::console::{named_color, parse_command, split_words, Command};
use quad_renderer::gpu::Rgb;

fn rgb(r: f64, g: f64, b: f64) -> Rgb {
    Rgb { r: r.to_bits(), g: g.to_bits(), b: b.to_bits() }
}

fn words(line: &str) -> Vec<String> {
    split_words(line.as_bytes())
        .into_iter()
        .map(|word| String::from_utf8(word).unwrap())
        .collect()
}

#[test]
fn split_words_cuts_at_white_space() {
    assert_eq!(words("set renderer.clear_color red"), vec!["set", "renderer.clear_color", "red"]);
    assert_eq!(words("  a \t b\r\n"), vec!["a", "b"]);
    assert_eq!(words("one"), vec!["one"]);
    assert_eq!(words("x\u{b}y\u{c}z"), vec!["x", "y", "z"]);
}

#[test]
fn split_words_of_nothing_is_nothing() {
    assert_eq!(words(""), Vec::<String>::new());
    assert_eq!(words(" \t\n "), Vec::<String>::new());
}

#[test]
fn split_words_agrees_with_std() {
    for line in ["", " ", "exit", " exit ", "a  b", "set  renderer.clear_color\tblue ", "\n\na"] {
        let expected: Vec<String> = line.split_ascii_whitespace().map(String::from).collect();
        assert_eq!(words(line), expected);
    }
}

#[test]
fn color_names() {
    assert_eq!(named_color(b"red"), Some(rgb(1.0, 0.0, 0.0)));
    assert_eq!(named_color(b"green"), Some(rgb(0.0, 1.0, 0.0)));
    assert_eq!(named_color(b"blue"), Some(rgb(0.0, 0.0, 1.0)));
    assert_eq!(named_color(b"yellow"), None);
    assert_eq!(named_color(b"Red"), None);
    assert_eq!(named_color(b"re"), None);
    assert_eq!(named_color(b"redd"), None);
    assert_eq!(named_color(b""), None);
}

#[test]
fn set_clear_color_commands() {
    assert_eq!(
        parse_command("set renderer.clear_color red"),
        Command::SetClearColor(rgb(1.0, 0.0, 0.0))
    );
    assert_eq!(
        parse_command("set renderer.clear_color green"),
        Command::SetClearColor(rgb(0.0, 1.0, 0.0))
    );
    assert_eq!(
        parse_command("  set\trenderer.clear_color   blue "),
        Command::SetClearColor(rgb(0.0, 0.0, 1.0))
    );
}

#[test]
fn exit_command() {
    assert_eq!(parse_command("exit"), Command::Exit);
    assert_eq!(parse_command(" exit\n"), Command::Exit);
}

#[test]
fn everything_else_is_ignored() {
    for line in [
        "",
        "   ",
        "quit",
        "exit now",
        "Exit",
        "set",
        "set renderer.clear_color",
        "set renderer.clear_color purple",
        "set renderer.clear_color red green",
        "set renderer.clearcolor red",
        "get renderer.clear_color red",
        "setrenderer.clear_colorred",
        "set renderer.clear_color r\u{e9}d",
    ] {
        assert_eq!(parse_command(line), Command::Ignored);
    }
}
