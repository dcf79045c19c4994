use mpv_control::command::{
    clamp_volume, load_command, normalize_separators, pause, pause_command, play, resume, seek,
    set_volume, stop, Command, CommandArg,
};

#[test]
fn command_serializes_verb_and_ordered_args() {
    let cmd = Command {
        verb: String::from("observe_property"),
        args: vec![CommandArg::Number(3), CommandArg::Text(String::from("volume"))],
    };
    assert_eq!(cmd.to_line(), "{\"command\":[\"observe_property\",3,\"volume\"]}");
}

#[test]
fn command_serializes_without_args() {
    let cmd = Command { verb: String::from("stop"), args: Vec::new() };
    assert_eq!(cmd.to_line(), "{\"command\":[\"stop\"]}");
}

#[test]
fn command_serializes_flags_and_negative_numbers() {
    let cmd = Command {
        verb: String::from("set_property"),
        args: vec![CommandArg::Flag(false), CommandArg::Number(-12)],
    };
    assert_eq!(cmd.to_line(), "{\"command\":[\"set_property\",false,-12]}");
}

#[test]
fn pause_line_exact() {
    assert_eq!(pause(), "{\"command\":[\"set_property\",\"pause\",true]}");
}

#[test]
fn resume_line_exact() {
    assert_eq!(resume(), "{\"command\":[\"set_property\",\"pause\",false]}");
}

#[test]
fn pause_command_both_flags() {
    assert_eq!(pause_command(true), "{\"command\":[\"set_property\",\"pause\",true]}");
    assert_eq!(pause_command(false), "{\"command\":[\"set_property\",\"pause\",false]}");
}

#[test]
fn stop_line_exact() {
    assert_eq!(stop(), "{\"command\":[\"stop\"]}");
}

#[test]
fn seek_line_exact() {
    assert_eq!(seek(90), "{\"command\":[\"seek\",90,\"absolute\"]}");
}

#[test]
fn seek_line_zero_and_negative() {
    assert_eq!(seek(0), "{\"command\":[\"seek\",0,\"absolute\"]}");
    assert_eq!(seek(-5), "{\"command\":[\"seek\",-5,\"absolute\"]}");
}

#[test]
fn volume_in_range_sent_as_is() {
    assert_eq!(set_volume(42), "{\"command\":[\"set_property\",\"volume\",42]}");
    assert_eq!(set_volume(0), "{\"command\":[\"set_property\",\"volume\",0]}");
    assert_eq!(set_volume(100), "{\"command\":[\"set_property\",\"volume\",100]}");
}

#[test]
fn volume_below_range_clamped_to_zero() {
    assert_eq!(set_volume(-5), "{\"command\":[\"set_property\",\"volume\",0]}");
    assert_eq!(clamp_volume(i64::MIN), 0);
}

#[test]
fn volume_above_range_clamped_to_hundred() {
    assert_eq!(set_volume(150), "{\"command\":[\"set_property\",\"volume\",100]}");
    assert_eq!(clamp_volume(i64::MAX), 100);
}

#[test]
fn play_issues_exactly_three_commands_in_order() {
    let cmds = play("/videos/a.mp4");
    assert_eq!(cmds.len(), 3);
    assert_eq!(cmds[0], "{\"command\":[\"set_property\",\"pause\",true]}");
    assert_eq!(cmds[1], "{\"command\":[\"loadfile\",\"/videos/a.mp4\"]}");
    assert_eq!(cmds[2], "{\"command\":[\"set_property\",\"pause\",false]}");
}

#[test]
fn play_normalizes_path_separators() {
    let cmds = play("C:\\videos\\a.mp4");
    assert_eq!(cmds.len(), 3);
    assert_eq!(cmds[1], "{\"command\":[\"loadfile\",\"C:/videos/a.mp4\"]}");
}

#[test]
fn load_command_empty_path() {
    assert_eq!(load_command(""), "{\"command\":[\"loadfile\",\"\"]}");
}

#[test]
fn normalize_leaves_forward_slashes_alone() {
    assert_eq!(normalize_separators("/a/b/c"), "/a/b/c");
    assert_eq!(normalize_separators("a\\b\\c"), "a/b/c");
    assert_eq!(normalize_separators(""), "");
}
