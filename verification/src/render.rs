//! What a render of the scene by the `manim` command line consists of: the
//! quality flag, the command lines to try, their arguments, the path of the
//! video it writes, and the messages that report a failure.

use vstd::prelude::*;
use vstd::string::StringExecFns;
use crate::text::views;

verus! {

/// Quality presets of the `manim` command line.
#[derive(Debug, Clone, PartialEq, Eq, Structural)]
pub enum RenderQuality {
    Low,
    Medium,
    High,
    Ultra,
}

pub open spec fn quality_flag(q: RenderQuality) -> Seq<char> {
    match q {
        RenderQuality::Low => "-ql"@,
        RenderQuality::Medium => "-qm"@,
        RenderQuality::High => "-qh"@,
        RenderQuality::Ultra => "-qk"@,
    }
}

pub open spec fn quality_label(q: RenderQuality) -> Seq<char> {
    match q {
        RenderQuality::Low => "480p  (Low)"@,
        RenderQuality::Medium => "720p  (Medium)"@,
        RenderQuality::High => "1080p (High)"@,
        RenderQuality::Ultra => "4K    (Ultra)"@,
    }
}

/// The folder, named after resolution and frame rate, where `manim` puts the video.
pub open spec fn quality_dir(q: RenderQuality) -> Seq<char> {
    match q {
        RenderQuality::Low => "480p15"@,
        RenderQuality::Medium => "720p30"@,
        RenderQuality::High => "1080p60"@,
        RenderQuality::Ultra => "2160p60"@,
    }
}

impl RenderQuality {
    /// The command-line flag that selects this quality.
    pub fn flag(&self) -> (r: &'static str)
        ensures
            r@ == quality_flag(*self),
    {
        match self {
            RenderQuality::Low => "-ql",
            RenderQuality::Medium => "-qm",
            RenderQuality::High => "-qh",
            RenderQuality::Ultra => "-qk",
        }
    }

    pub fn label(&self) -> (r: &'static str)
        ensures
            r@ == quality_label(*self),
    {
        match self {
            RenderQuality::Low => "480p  (Low)",
            RenderQuality::Medium => "720p  (Medium)",
            RenderQuality::High => "1080p (High)",
            RenderQuality::Ultra => "4K    (Ultra)",
        }
    }

    /// Every quality, lowest first.
    pub fn all() -> (r: Vec<RenderQuality>)
        ensures
            r@ == seq![RenderQuality::Low, RenderQuality::Medium, RenderQuality::High, RenderQuality::Ultra],
    {
        let mut v: Vec<RenderQuality> = Vec::new();
        v.push(RenderQuality::Low);
        v.push(RenderQuality::Medium);
        v.push(RenderQuality::High);
        v.push(RenderQuality::Ultra);
        v
    }

    fn dir_name(&self) -> (r: &'static str)
        ensures
            r@ == quality_dir(*self),
    {
        match self {
            RenderQuality::Low => "480p15",
            RenderQuality::Medium => "720p30",
            RenderQuality::High => "1080p60",
            RenderQuality::Ultra => "2160p60",
        }
    }
}

fn owned(s: &str) -> (r: String)
    ensures
        r@ == s@,
{
    String::from_str(s)
}

/// The components, outermost first, of the path where `manim` writes the video
/// of scene `scene_name`: `<output_dir>/videos/<scene>/<quality dir>/<scene>.mp4`.
pub fn guess_output_path(output_dir: &str, scene_name: &str, quality: &RenderQuality) -> (r: Vec<String>)
    ensures
        views(r@) == seq![output_dir@, "videos"@, scene_name@, quality_dir(*quality), scene_name@ + ".mp4"@],
{
    let mut v: Vec<String> = Vec::new();
    v.push(owned(output_dir));
    v.push(owned("videos"));
    v.push(owned(scene_name));
    v.push(owned(quality.dir_name()));
    let mut file = owned(scene_name);
    file.append(".mp4");
    v.push(file);
    assert(views(v@) =~= seq![output_dir@, "videos"@, scene_name@, quality_dir(*quality), scene_name@ + ".mp4"@]);
    v
}

/// The file name under which the script of scene `scene_name` is written.
pub fn script_file_name(scene_name: &str) -> (r: String)
    ensures
        r@ == scene_name@ + ".py"@,
{
    let mut s = owned(scene_name);
    s.append(".py");
    s
}

/// The command that runs manim through the Python interpreter `python`.
pub open spec fn python_module_command(python: Seq<char>) -> Seq<Seq<char>> {
    seq![python, "-m"@, "manim"@]
}

/// The commands to try in order: the `manim` program, then manim as a module
/// of each Python interpreter usual on the platform.
pub open spec fn launch_plan(windows: bool) -> Seq<Seq<Seq<char>>> {
    seq![seq!["manim"@]] + if windows {
        seq![
            python_module_command("python"@),
            python_module_command("python3"@),
            python_module_command("py"@),
        ]
    } else {
        seq![python_module_command("python3"@), python_module_command("python"@)]
    }
}

pub open spec fn nested_views(v: Seq<Vec<String>>) -> Seq<Seq<Seq<char>>> {
    v.map_values(|c: Vec<String>| views(c@))
}

fn python_module(python: &str) -> (r: Vec<String>)
    ensures
        views(r@) == python_module_command(python@),
{
    let mut v: Vec<String> = Vec::new();
    v.push(owned(python));
    v.push(owned("-m"));
    v.push(owned("manim"));
    assert(views(v@) =~= python_module_command(python@));
    v
}

/// The commands to try, in order, to run manim.
pub fn launch_commands(windows: bool) -> (r: Vec<Vec<String>>)
    ensures
        nested_views(r@) == launch_plan(windows),
{
    let mut v: Vec<Vec<String>> = Vec::new();
    let mut first: Vec<String> = Vec::new();
    first.push(owned("manim"));
    assert(views(first@) =~= seq!["manim"@]);
    v.push(first);
    if windows {
        v.push(python_module("python"));
        v.push(python_module("python3"));
        v.push(python_module("py"));
    } else {
        v.push(python_module("python3"));
        v.push(python_module("python"));
    }
    assert(nested_views(v@) =~= launch_plan(windows));
    v
}

/// The arguments that follow the command: quality flag, output file name,
/// media folder, script, scene, and `--preview` when a preview is wanted.
pub open spec fn manim_arguments(
    quality: RenderQuality,
    output_dir: Seq<char>,
    script_path: Seq<char>,
    scene_name: Seq<char>,
    preview: bool,
) -> Seq<Seq<char>> {
    seq![
        quality_flag(quality),
        "--output_file"@,
        scene_name,
        "--media_dir"@,
        output_dir,
        script_path,
        scene_name,
    ] + if preview { seq!["--preview"@] } else { Seq::empty() }
}

pub fn manim_args(
    quality: &RenderQuality,
    output_dir: &str,
    script_path: &str,
    scene_name: &str,
    preview: bool,
) -> (r: Vec<String>)
    ensures
        views(r@) == manim_arguments(*quality, output_dir@, script_path@, scene_name@, preview),
{
    let mut v: Vec<String> = Vec::new();
    v.push(owned(quality.flag()));
    v.push(owned("--output_file"));
    v.push(owned(scene_name));
    v.push(owned("--media_dir"));
    v.push(owned(output_dir));
    v.push(owned(script_path));
    v.push(owned(scene_name));
    if preview {
        v.push(owned("--preview"));
    }
    assert(views(v@) =~= manim_arguments(*quality, output_dir@, script_path@, scene_name@, preview));
    v
}

/// Reports that the folder for the script could not be made.
pub fn temp_dir_message(err: &str) -> (r: String)
    ensures
        r@ == "Cannot create temp dir: "@ + err@,
{
    let mut s = owned("Cannot create temp dir: ");
    s.append(err);
    s
}

/// Reports that the script could not be written.
pub fn script_write_message(err: &str) -> (r: String)
    ensures
        r@ == "Cannot write script: "@ + err@,
{
    let mut s = owned("Cannot write script: ");
    s.append(err);
    s
}

/// Reports that program `bin` could not be started.
pub fn launch_failure_message(bin: &str, err: &str) -> (r: String)
    ensures
        r@ == "Failed to launch `"@ + bin@ + "`: "@ + err@,
{
    let mut s = owned("Failed to launch `");
    s.append(bin);
    s.append("`: ");
    s.append(err);
    s
}

/// Reports that no command could start manim, with the last launch error.
pub fn manim_missing_message(last_err: &str) -> (r: String)
    ensures
        r@ == "Could not run manim. Make sure it is installed:\n  pip install manim\n\nLast error:\n"@ + last_err@,
{
    let mut s = owned("Could not run manim. Make sure it is installed:\n  pip install manim\n\nLast error:\n");
    s.append(last_err);
    s
}

/// Reports that manim ran and failed, with what it wrote (already trimmed).
pub fn manim_exit_message(stderr: &str, stdout: &str) -> (r: String)
    ensures
        r@ == "Manim exited with error:\n\nSTDERR:\n"@ + stderr@ + "\n\nSTDOUT:\n"@ + stdout@,
{
    let mut s = owned("Manim exited with error:\n\nSTDERR:\n");
    s.append(stderr);
    s.append("\n\nSTDOUT:\n");
    s.append(stdout);
    s
}

} // verus!
