use fractal_raster::command::{parse_command, rotation_for, usage_lines, Command, Rotation, Step};
use fractal_raster::shading::ChannelPolicy;

fn args(words: &[&str]) -> Vec<String> {
    words.iter().map(|w| w.to_string()).collect()
}

#[test]
fn fractal_with_one_path_renders() {
    assert_eq!(
        parse_command(&args(&["fractal", "out.png"])),
        Command::Render { policy: ChannelPolicy::fractal(), output: "out.png".to_string() }
    );
}

#[test]
fn generate_with_one_path_renders() {
    assert_eq!(
        parse_command(&args(&["generate", "g.png"])),
        Command::Render { policy: ChannelPolicy::generate(), output: "g.png".to_string() }
    );
}

#[test]
fn generator_with_wrong_argument_count_asks_for_usage() {
    assert_eq!(parse_command(&args(&["fractal"])), Command::Usage);
    assert_eq!(parse_command(&args(&["fractal", "a.png", "b.png"])), Command::Usage);
    assert_eq!(parse_command(&args(&["generate"])), Command::Usage);
    assert_eq!(parse_command(&args(&["generate", "a.png", "b.png", "c.png"])), Command::Usage);
}

#[test]
fn empty_command_line_asks_for_usage() {
    assert_eq!(parse_command(&Vec::new()), Command::Usage);
}

#[test]
fn lone_input_path_asks_for_usage() {
    assert_eq!(parse_command(&args(&["in.png"])), Command::Usage);
}

#[test]
fn edit_steps_are_read_in_order() {
    let cmd = parse_command(&args(&[
        "in.png", "out.png", "blur", "2.5", "invert", "rotate", "180", "brighten", "-10", "crop", "1", "2", "30",
        "40", "grayscale",
    ]));
    assert_eq!(
        cmd,
        Command::Edit {
            input: "in.png".to_string(),
            output: "out.png".to_string(),
            steps: vec![
                Step::Blur { rate: "2.5".to_string() },
                Step::Invert,
                Step::Rotate { degrees: "180".to_string() },
                Step::Brighten { amount: "-10".to_string() },
                Step::Crop {
                    x: "1".to_string(),
                    y: "2".to_string(),
                    width: "30".to_string(),
                    height: "40".to_string(),
                },
                Step::Grayscale,
            ],
        }
    );
}

#[test]
fn edit_without_steps_copies() {
    assert_eq!(
        parse_command(&args(&["a.png", "b.png"])),
        Command::Edit { input: "a.png".to_string(), output: "b.png".to_string(), steps: Vec::new() }
    );
}

#[test]
fn unknown_step_asks_for_usage() {
    assert_eq!(parse_command(&args(&["a.png", "b.png", "sharpen"])), Command::Usage);
    assert_eq!(parse_command(&args(&["a.png", "b.png", "invert", "Blur", "1"])), Command::Usage);
}

#[test]
fn step_short_of_arguments_asks_for_usage() {
    assert_eq!(parse_command(&args(&["a.png", "b.png", "blur"])), Command::Usage);
    assert_eq!(parse_command(&args(&["a.png", "b.png", "brighten"])), Command::Usage);
    assert_eq!(parse_command(&args(&["a.png", "b.png", "rotate"])), Command::Usage);
    assert_eq!(parse_command(&args(&["a.png", "b.png", "crop", "1", "2", "3"])), Command::Usage);
}

#[test]
fn rotation_is_taken_modulo_a_full_turn() {
    assert_eq!(rotation_for(90), Rotation::Quarter);
    assert_eq!(rotation_for(180), Rotation::Half);
    assert_eq!(rotation_for(270), Rotation::ThreeQuarters);
    assert_eq!(rotation_for(450), Rotation::Quarter);
    assert_eq!(rotation_for(720 + 270), Rotation::ThreeQuarters);
    assert_eq!(rotation_for(0), Rotation::Unchanged);
    assert_eq!(rotation_for(360), Rotation::Unchanged);
    assert_eq!(rotation_for(45), Rotation::Unchanged);
}

#[test]
fn usage_lists_every_operation() {
    let lines = usage_lines();
    assert_eq!(lines.len(), 9);
    assert!(lines[0].starts_with("USAGE"));
    for op in ["blur", "brighten", "crop", "rotate", "invert", "grayscale", "fractal", "generate"] {
        assert!(lines.iter().any(|l| l.starts_with(op)), "missing {}", op);
    }
    assert_eq!(lines[7], "fractal to");
    assert_eq!(lines[8], "generate to");
}
