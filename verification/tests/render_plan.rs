use manim_studio::render::{
    guess_output_path, launch_commands, launch_failure_message, manim_args, manim_exit_message,
    manim_missing_message, script_file_name, script_write_message, temp_dir_message, RenderQuality,
};

#[test]
fn quality_flags_and_labels() {
    let all = RenderQuality::all();
    let flags: Vec<&str> = all.iter().map(|q| q.flag()).collect();
    assert_eq!(flags, vec!["-ql", "-qm", "-qh", "-qk"]);
    assert_eq!(RenderQuality::High.label(), "1080p (High)");
    assert_eq!(RenderQuality::Ultra.label(), "4K    (Ultra)");
}

#[test]
fn output_path_follows_manim_layout() {
    let parts = guess_output_path("/tmp/out", "MyScene", &RenderQuality::Medium);
    assert_eq!(parts, vec!["/tmp/out", "videos", "MyScene", "720p30", "MyScene.mp4"]);
    let low = guess_output_path("o", "S", &RenderQuality::Low);
    assert_eq!(low[3], "480p15");
    let high = guess_output_path("o", "S", &RenderQuality::High);
    assert_eq!(high[3], "1080p60");
    let ultra = guess_output_path("o", "S", &RenderQuality::Ultra);
    assert_eq!(ultra[3], "2160p60");
}

#[test]
fn script_is_named_after_the_scene() {
    assert_eq!(script_file_name("Intro"), "Intro.py");
}

#[test]
fn launch_order_on_each_platform() {
    let unix = launch_commands(false);
    assert_eq!(
        unix,
        vec![
            vec!["manim".to_string()],
            vec!["python3".to_string(), "-m".to_string(), "manim".to_string()],
            vec!["python".to_string(), "-m".to_string(), "manim".to_string()],
        ]
    );
    let win = launch_commands(true);
    assert_eq!(win.len(), 4);
    assert_eq!(win[1][0], "python");
    assert_eq!(win[2][0], "python3");
    assert_eq!(win[3], vec!["py".to_string(), "-m".to_string(), "manim".to_string()]);
}

#[test]
fn manim_arguments_with_and_without_preview() {
    let a = manim_args(&RenderQuality::Low, "/out", "/tmp/s.py", "S", false);
    assert_eq!(a, vec!["-ql", "--output_file", "S", "--media_dir", "/out", "/tmp/s.py", "S"]);
    let b = manim_args(&RenderQuality::Ultra, "/out", "/tmp/s.py", "S", true);
    assert_eq!(b.len(), 8);
    assert_eq!(b[0], "-qk");
    assert_eq!(b[7], "--preview");
}

#[test]
fn failure_messages() {
    assert_eq!(temp_dir_message("denied"), "Cannot create temp dir: denied");
    assert_eq!(script_write_message("disk full"), "Cannot write script: disk full");
    assert_eq!(launch_failure_message("manim", "not found"), "Failed to launch `manim`: not found");
    assert_eq!(
        manim_missing_message("boom"),
        "Could not run manim. Make sure it is installed:\n  pip install manim\n\nLast error:\nboom"
    );
    assert_eq!(manim_exit_message("E", "O"), "Manim exited with error:\n\nSTDERR:\nE\n\nSTDOUT:\nO");
}
