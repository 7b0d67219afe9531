use rot8::backend::{Backend, BackendKind, Command};
use rot8::error::QueryError;
use rot8::orientation::Orientation;

fn strings(words: &[&str]) -> Vec<String> {
    words.iter().map(|w| w.to_string()).collect()
}

fn sway() -> Backend {
    Backend::Sway { display: "eDP-1".to_string() }
}

fn xorg() -> Backend {
    Backend::Xorg { display: "eDP-1".to_string(), touchscreen: "ELAN0732:00 04F3:22E1".to_string() }
}

#[test]
fn an_x_server_takes_precedence() {
    assert_eq!(BackendKind::detect("1234\n", ""), Some(BackendKind::Sway));
    assert_eq!(BackendKind::detect("", "987\n"), Some(BackendKind::Xorg));
    assert_eq!(BackendKind::detect("1234\n", "987\n"), Some(BackendKind::Xorg));
    assert_eq!(BackendKind::detect("\n", ""), Some(BackendKind::Sway));
}

#[test]
fn no_process_means_no_backend() {
    assert_eq!(BackendKind::detect("", ""), None);
}

#[test]
fn a_backend_keeps_what_its_kind_needs() {
    let made = Backend::new(BackendKind::Sway, "eDP-1".to_string(), "touch".to_string());
    assert_eq!(made, Backend::Sway { display: "eDP-1".to_string() });
    let made = Backend::new(BackendKind::Xorg, "eDP-1".to_string(), "touch".to_string());
    assert_eq!(made, Backend::Xorg { display: "eDP-1".to_string(), touchscreen: "touch".to_string() });
}

#[test]
fn kind_and_display_of_a_backend() {
    assert_eq!(sway().kind(), BackendKind::Sway);
    assert_eq!(xorg().kind(), BackendKind::Xorg);
    assert_eq!(sway().display(), "eDP-1");
    assert_eq!(Backend::Xorg { display: "HDMI-2".to_string(), touchscreen: String::new() }.display(), "HDMI-2");
}

#[test]
fn query_commands() {
    assert_eq!(
        sway().query_command(),
        Command { program: "swaymsg".to_string(), args: strings(&["-t", "get_outputs", "--raw"]) }
    );
    assert_eq!(xorg().query_command(), Command { program: "xrandr".to_string(), args: vec![] });
}

#[test]
fn a_compositor_is_rotated_by_one_command() {
    let expected = [
        (Orientation::Normal, "normal"),
        (Orientation::LeftUp, "90"),
        (Orientation::Inverted, "180"),
        (Orientation::RightUp, "270"),
    ];
    for (o, id) in expected.iter() {
        assert_eq!(
            sway().rotate_commands(*o),
            vec![Command {
                program: "swaymsg".to_string(),
                args: strings(&["output", "eDP-1", "transform", id]),
            }]
        );
    }
}

#[test]
fn an_x_server_is_rotated_by_two_commands() {
    let expected: [(Orientation, &str, [&str; 9]); 4] = [
        (Orientation::Normal, "normal", ["1", "0", "0", "0", "1", "0", "0", "0", "1"]),
        (Orientation::Inverted, "inverted", ["-1", "0", "1", "0", "-1", "1", "0", "0", "1"]),
        (Orientation::LeftUp, "left", ["0", "-1", "1", "1", "0", "0", "0", "0", "1"]),
        (Orientation::RightUp, "right", ["0", "1", "0", "-1", "0", "1", "0", "0", "1"]),
    ];
    for (o, keyword, matrix) in expected.iter() {
        let commands = xorg().rotate_commands(*o);
        assert_eq!(commands.len(), 2);
        assert_eq!(
            commands[0],
            Command { program: "xrandr".to_string(), args: strings(&["--output", "eDP-1", "--rotate", keyword]) }
        );
        let mut args = strings(&["set-prop", "ELAN0732:00 04F3:22E1", "Coordinate", "Transformation", "Matrix"]);
        args.extend(strings(matrix));
        assert_eq!(commands[1], Command { program: "xinput".to_string(), args });
    }
}

#[test]
fn matrix_arguments_spell_the_matrix() {
    for o in [Orientation::Normal, Orientation::Inverted, Orientation::LeftUp, Orientation::RightUp].iter() {
        let commands = xorg().rotate_commands(*o);
        let spelled: Vec<i8> = commands[1].args[5..].iter().map(|a| a.parse::<i8>().unwrap()).collect();
        assert_eq!(spelled, o.matrix().to_vec());
    }
}

#[test]
fn names_are_passed_on_as_they_are() {
    let backend = Backend::Sway { display: "My Display (1)".to_string() };
    assert_eq!(backend.rotate_commands(Orientation::LeftUp)[0].args[1], "My Display (1)");
    let backend = Backend::Xorg { display: "HDMI 2 (b)".to_string(), touchscreen: "".to_string() };
    assert_eq!(backend.rotate_commands(Orientation::LeftUp)[0].args[1], "HDMI 2 (b)");
    assert_eq!(backend.rotate_commands(Orientation::LeftUp)[1].args[1], "");
}

#[test]
fn error_messages() {
    assert_eq!(QueryError::NoSuchDisplay.message(), "no match");
    assert_eq!(QueryError::NoMatch.message(), "no match");
    assert_eq!(QueryError::InvalidPattern.message(), "invalid pattern");
}

#[test]
fn the_x_display_is_named_in_its_rotation() {
    for name in ["eDP-1", "HDMI-1", ""].iter() {
        let backend = Backend::Xorg { display: name.to_string(), touchscreen: "touch".to_string() };
        let commands = backend.rotate_commands(Orientation::Inverted);
        assert_eq!(commands[0].program, "xrandr");
        assert_eq!(commands[0].args, strings(&["--output", name, "--rotate", "inverted"]));
    }
}
