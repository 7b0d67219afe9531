use rot8::backend::{Backend, BackendKind, Command};
use rot8::daemon::Daemon;
use rot8::error::QueryError;
use rot8::orientation::Orientation;
use rot8::sensor::AxisReading;
use rot8::sway::{current_transform, SwayOutput};
use rot8::xrandr::current_rotation;

fn strings(words: &[&str]) -> Vec<String> {
    words.iter().map(|w| w.to_string()).collect()
}

fn sway() -> Backend {
    Backend::Sway { display: "eDP-1".to_string() }
}

fn xorg() -> Backend {
    Backend::Xorg { display: "eDP-1".to_string(), touchscreen: "touch".to_string() }
}

fn sway_rotation(id: &str) -> Vec<Command> {
    vec![Command { program: "swaymsg".to_string(), args: strings(&["output", "eDP-1", "transform", id]) }]
}

#[test]
fn ninety_at_startup_means_left_up() {
    let daemon = Daemon::new(sway(), "90");
    assert_eq!(daemon.last_applied, Some(Orientation::LeftUp));
    assert_eq!(daemon.backend, sway());
}

#[test]
fn startup_reads_the_words_of_the_backend() {
    assert_eq!(Daemon::new(sway(), "normal").last_applied, Some(Orientation::Normal));
    assert_eq!(Daemon::new(sway(), "180").last_applied, Some(Orientation::Inverted));
    assert_eq!(Daemon::new(sway(), "270").last_applied, Some(Orientation::RightUp));
    assert_eq!(Daemon::new(xorg(), "normal").last_applied, Some(Orientation::Normal));
    assert_eq!(Daemon::new(xorg(), "left").last_applied, Some(Orientation::LeftUp));
    assert_eq!(Daemon::new(xorg(), "inverted").last_applied, Some(Orientation::Inverted));
    assert_eq!(Daemon::new(xorg(), "right").last_applied, Some(Orientation::RightUp));
}

#[test]
fn an_unknown_transform_at_startup_is_no_orientation() {
    assert_eq!(Daemon::new(sway(), "flipped-90").last_applied, None);
    assert_eq!(Daemon::new(sway(), "left").last_applied, None);
    assert_eq!(Daemon::new(xorg(), "90").last_applied, None);
}

#[test]
fn turning_left_from_normal_requests_ninety_once() {
    let mut daemon = Daemon::new(sway(), "normal");
    let commands = daemon.tick(AxisReading { x: -600_000, y: 0 });
    assert_eq!(commands, Some(sway_rotation("90")));
    assert_eq!(daemon.last_applied, Some(Orientation::LeftUp));
    assert_eq!(daemon.tick(AxisReading { x: -600_000, y: 0 }), None);
    assert_eq!(daemon.tick(AxisReading { x: -700_000, y: 100 }), None);
    assert_eq!(daemon.last_applied, Some(Orientation::LeftUp));
}

#[test]
fn face_up_requests_one_hundred_and_eighty() {
    let mut daemon = Daemon::new(sway(), "normal");
    assert_eq!(daemon.tick(AxisReading { x: 0, y: 600_000 }), Some(sway_rotation("180")));
    assert_eq!(daemon.last_applied, Some(Orientation::Inverted));
}

#[test]
fn y_wins_over_a_large_x() {
    let mut daemon = Daemon::new(sway(), "normal");
    let commands = daemon.tick(AxisReading { x: 600_000, y: 600_000 });
    assert_eq!(commands, Some(sway_rotation("180")));
    assert_ne!(commands, Some(sway_rotation("270")));
    assert_eq!(daemon.last_applied, Some(Orientation::Inverted));
}

#[test]
fn empty_sensor_files_request_nothing_twice() {
    let mut daemon = Daemon::new(sway(), "normal");
    assert_eq!(daemon.tick(AxisReading::from_raw("", "")), None);
    assert_eq!(daemon.last_applied, Some(Orientation::Normal));
    assert_eq!(daemon.tick(AxisReading::from_raw("", "")), None);
    assert_eq!(daemon.last_applied, Some(Orientation::Normal));
}

#[test]
fn empty_sensor_files_after_a_rotation_request_normal_once() {
    let mut daemon = Daemon::new(sway(), "90");
    assert_eq!(daemon.tick(AxisReading::from_raw("", "")), Some(sway_rotation("normal")));
    assert_eq!(daemon.tick(AxisReading::from_raw("", "")), None);
}

#[test]
fn no_line_for_the_display_leaves_no_daemon() {
    let status = "\
Screen 0: minimum 320 x 200, current 1920 x 1080, maximum 16384 x 16384
HDMI-1 connected primary 1920x1080+0+0 (normal left inverted right x axis y axis) 527mm x 296mm
";
    let started = current_rotation(status, "eDP-1").map(|keyword| Daemon::new(xorg(), &keyword));
    assert_eq!(started, Err(QueryError::NoMatch));
}

#[test]
fn a_disconnected_display_beside_a_connected_one_is_no_match() {
    let status = "HDMI-1 connected primary 1920x1080+0+0 (normal left inverted right x axis y axis) 520mm x 290mm\neDP-1 disconnected (normal left inverted right x axis y axis)\n";
    assert_eq!(current_rotation(status, "eDP-1"), Err(QueryError::NoMatch));
}

#[test]
fn a_name_too_long_is_refused_whatever_the_status() {
    let name = "b".repeat(1_000_000);
    assert_eq!(current_rotation("", &name), Err(QueryError::InvalidPattern));
    let status = format!("{} connected primary 1920x1080+0+0 (normal left inverted right x axis y axis) 1mm x 1mm", name);
    assert_eq!(current_rotation(&status, &name), Err(QueryError::InvalidPattern));
}

#[test]
fn no_output_for_the_display_leaves_no_daemon() {
    let outputs = vec![SwayOutput { name: "HDMI-A-1".to_string(), transform: "normal".to_string() }];
    let started = current_transform(&outputs, "eDP-1").map(|id| Daemon::new(sway(), &id));
    assert_eq!(started, Err(QueryError::NoSuchDisplay));
}

#[test]
fn a_rotated_x_display_is_not_rotated_again() {
    let status = "eDP-1 connected primary 1800x3200+0+0 left (normal left inverted right x axis y axis) 294mm x 165mm\n";
    let keyword = current_rotation(status, "eDP-1").unwrap();
    let mut daemon = Daemon::new(Backend::new(BackendKind::Xorg, "eDP-1".to_string(), "touch".to_string()), &keyword);
    assert_eq!(daemon.last_applied, Some(Orientation::LeftUp));
    assert_eq!(daemon.tick(AxisReading { x: -600_000, y: 0 }), None);
}

#[test]
fn an_unknown_baseline_is_replaced_by_the_first_tick() {
    let mut daemon = Daemon::new(sway(), "flipped");
    assert_eq!(daemon.tick(AxisReading { x: 0, y: 0 }), Some(sway_rotation("normal")));
    assert_eq!(daemon.last_applied, Some(Orientation::Normal));
    assert_eq!(daemon.tick(AxisReading { x: 0, y: 0 }), None);
}

#[test]
fn every_change_is_requested_once() {
    let mut daemon = Daemon::new(xorg(), "normal");
    let samples = [
        (0, 0, None),
        (600_000, 0, Some("right")),
        (600_001, 10, None),
        (600_000, 600_000, Some("inverted")),
        (-600_000, 600_000, None),
        (-600_000, 0, Some("left")),
        (-600_000, -600_000, None),
        (0, 0, Some("normal")),
        (0, 0, None),
    ];
    let mut requests = 0;
    for (x, y, expected) in samples.iter() {
        let commands = daemon.tick(AxisReading { x: *x, y: *y });
        match (commands, expected) {
            (None, None) => {}
            (Some(list), Some(keyword)) => {
                requests += 1;
                assert_eq!(list.len(), 2);
                assert_eq!(list[0].program, "xrandr");
                assert_eq!(list[0].args, strings(&["--output", "eDP-1", "--rotate", keyword]));
                assert_eq!(list[1].program, "xinput");
                assert_eq!(list[1].args[1], "touch");
            }
            (got, _) => panic!("x = {}, y = {}: {:?}", x, y, got),
        }
    }
    assert_eq!(requests, 4);
}

#[test]
fn a_tick_leaves_the_backend_alone() {
    let mut daemon = Daemon::new(xorg(), "normal");
    daemon.tick(AxisReading { x: 600_000, y: 0 });
    daemon.tick(AxisReading { x: 600_000, y: 0 });
    assert_eq!(daemon.backend, xorg());
}
