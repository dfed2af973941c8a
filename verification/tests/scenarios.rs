use pathops::command::{process, try_process, Command, Lookup, Outcome, Probe, Step};
use pathops::ops::{component, contains_separator, join};

fn text(value: &str) -> String {
    String::from(value)
}

fn line(value: &str) -> Step {
    Step::Done(Outcome::Line(text(value)))
}

fn silent() -> Step {
    Step::Done(Outcome::Silent)
}

fn failure() -> Step {
    Step::Done(Outcome::Failure)
}

fn exit_code_of(step: &Step) -> u8 {
    match step {
        Step::Done(outcome) => outcome.exit_code(),
        _ => panic!("the command is not answered yet"),
    }
}

#[test]
fn stem_drops_the_final_extension_only() {
    let step = process(Command::Stem { path: text("/a/b/file.tar.gz") });
    assert_eq!(step, line("file.tar"));
    assert_eq!(exit_code_of(&step), 0);
}

#[test]
fn stem_of_a_name_without_extension_is_the_name() {
    assert_eq!(process(Command::Stem { path: text("/a/b/file") }), line("file"));
    assert_eq!(process(Command::Stem { path: text(".bashrc") }), line(".bashrc"));
    assert_eq!(process(Command::Stem { path: text("foo.") }), line("foo"));
    assert_eq!(process(Command::Stem { path: text("..a") }), line("."));
}

#[test]
fn stem_without_a_file_name_fails() {
    assert_eq!(process(Command::Stem { path: text("/") }), failure());
    assert_eq!(process(Command::Stem { path: text("a/..") }), failure());
    assert_eq!(process(Command::Stem { path: text("") }), failure());
}

#[test]
fn extension_is_what_follows_the_last_dot() {
    let step = process(Command::Extension { path: text("/a/b/file.tar.gz") });
    assert_eq!(step, line("gz"));
    assert_eq!(exit_code_of(&step), 0);
    assert_eq!(process(Command::Extension { path: text("foo.") }), line(""));
    assert_eq!(process(Command::Extension { path: text("..a") }), line("a"));
}

#[test]
fn extension_of_a_name_without_one_fails() {
    let step = process(Command::Extension { path: text("/a/b/file") });
    assert_eq!(step, failure());
    assert_eq!(exit_code_of(&step), 1);
    assert_eq!(process(Command::Extension { path: text(".bashrc") }), failure());
    assert_eq!(process(Command::Extension { path: text("/") }), failure());
}

#[test]
fn filename_is_the_final_component() {
    assert_eq!(process(Command::Filename { path: text("/a/b/file.tar.gz") }), line("file.tar.gz"));
    assert_eq!(process(Command::Filename { path: text("a/b/") }), line("b"));
    assert_eq!(process(Command::Filename { path: text("name") }), line("name"));
}

#[test]
fn filename_of_a_root_or_empty_path_fails() {
    assert_eq!(process(Command::Filename { path: text("/") }), failure());
    assert_eq!(process(Command::Filename { path: text("") }), failure());
    assert_eq!(process(Command::Filename { path: text("a/..") }), failure());
}

#[test]
fn parent_drops_the_last_component() {
    let step = process(Command::Parent { path: text("/a/b") });
    assert_eq!(step, line("/a"));
    assert_eq!(exit_code_of(&step), 0);
    assert_eq!(process(Command::Parent { path: text("/a") }), line("/"));
    assert_eq!(process(Command::Parent { path: text("a") }), line(""));
    assert_eq!(process(Command::Parent { path: text("a//b") }), line("a"));
}

#[test]
fn parent_of_a_root_or_empty_path_fails() {
    let step = process(Command::Parent { path: text("/") });
    assert_eq!(step, failure());
    assert_eq!(exit_code_of(&step), 1);
    assert_eq!(process(Command::Parent { path: text("") }), failure());
}

#[test]
fn is_absolute_tells_absolute_from_relative() {
    let relative = process(Command::IsAbsolute { path: text("relative/path") });
    assert_eq!(relative, failure());
    assert_eq!(exit_code_of(&relative), 1);
    let absolute = process(Command::IsAbsolute { path: text("/abs/path") });
    assert_eq!(absolute, silent());
    assert_eq!(exit_code_of(&absolute), 0);
}

#[test]
fn is_relative_is_the_opposite_of_is_absolute() {
    assert_eq!(process(Command::IsRelative { path: text("relative/path") }), silent());
    assert_eq!(process(Command::IsRelative { path: text("/abs/path") }), failure());
    assert_eq!(process(Command::IsRelative { path: text("") }), silent());
}

#[test]
fn component_counts_back_from_the_end() {
    let last = process(Command::Component { path: text("/a/b/c"), n: -1 });
    assert_eq!(last, line("c"));
    let first_name = process(Command::Component { path: text("/a/b/c"), n: -3 });
    assert_eq!(first_name, line("a"));
    assert_eq!(exit_code_of(&first_name), 0);
}

#[test]
fn component_counts_the_root_as_a_component() {
    assert_eq!(process(Command::Component { path: text("/a/b/c"), n: 0 }), line("/"));
    assert_eq!(process(Command::Component { path: text("/a/b/c"), n: -4 }), line("/"));
    assert_eq!(process(Command::Component { path: text("/a/b/c"), n: 1 }), line("a"));
    assert_eq!(process(Command::Component { path: text("a/b/c"), n: 0 }), line("a"));
}

#[test]
fn component_wraps_around() {
    assert_eq!(component("/a/b/c", 4), Some(text("/")));
    assert_eq!(component("/a/b/c", 5), Some(text("a")));
    assert_eq!(component("/a/b/c", -5), Some(text("c")));
    assert_eq!(component("/a/b/c", 103), Some(text("c")));
    assert_eq!(component("x", 12345), Some(text("x")));
}

#[test]
fn component_of_a_path_without_components_fails() {
    for n in [0, 1, -1, 17, i32::MAX, i32::MIN] {
        assert_eq!(component("", n), None);
        let step = process(Command::Component { path: text(""), n });
        assert_eq!(step, failure());
        assert_eq!(exit_code_of(&step), 1);
    }
}

#[test]
fn join_lets_a_later_absolute_path_discard_earlier_ones() {
    let step = process(Command::Join { paths: vec![text("/a"), text("b"), text("/c")] });
    assert_eq!(step, line("/c"));
    assert_eq!(exit_code_of(&step), 0);
}

#[test]
fn join_appends_relative_paths() {
    assert_eq!(join(&vec![text("/a"), text("b"), text("c")]), Some(text("/a/b/c")));
    assert_eq!(join(&vec![text("a/"), text("b")]), Some(text("a/b")));
    assert_eq!(join(&vec![text("a"), text("")]), Some(text("a/")));
    assert_eq!(join(&vec![text("x"), text("/a"), text("b")]), Some(text("/a/b")));
}

#[test]
fn join_of_nothing_fails() {
    assert_eq!(join(&Vec::new()), None);
    let step = process(Command::Join { paths: Vec::new() });
    assert_eq!(step, failure());
    assert_eq!(exit_code_of(&step), 1);
}

#[test]
fn join_of_one_path_is_that_path() {
    for path in ["/a/b", "a//b/", "", ".", "../x/./y"] {
        assert_eq!(join(&vec![text(path)]), Some(text(path)));
        assert_eq!(process(Command::Join { paths: vec![text(path)] }), line(path));
    }
}

#[test]
fn with_suffix_replaces_or_adds_the_extension() {
    let replaced = process(
        Command::WithSuffix { path: text("/a/b/file.txt"), suffix: text("md") },
    );
    assert_eq!(replaced, line("/a/b/file.md"));
    assert_eq!(exit_code_of(&replaced), 0);
    let added = process(Command::WithSuffix { path: text("/a/file"), suffix: text("md") });
    assert_eq!(added, line("/a/file.md"));
    let last_only = process(
        Command::WithSuffix { path: text("file.tar.gz"), suffix: text("xz") },
    );
    assert_eq!(last_only, line("file.tar.xz"));
}

#[test]
fn with_empty_suffix_removes_the_extension() {
    assert_eq!(
        process(Command::WithSuffix { path: text("a/file.txt"), suffix: text("") }),
        line("a/file"),
    );
}

#[test]
fn with_suffix_leaves_a_path_without_file_name_alone() {
    for path in ["/", "..", "", "a/.."] {
        assert_eq!(
            process(Command::WithSuffix { path: text(path), suffix: text("md") }),
            line(path),
        );
    }
}

#[test]
fn with_suffix_holding_a_separator_cannot_run() {
    let command = Command::WithSuffix { path: text("a.txt"), suffix: text("b/c") };
    assert!(!command.is_runnable());
    assert_eq!(try_process(command), None);
}

#[test]
fn every_other_command_can_run() {
    let commands = vec![
        Command::Stem { path: text("a/b.c") },
        Command::Join { paths: vec![text("a/b"), text("c/d")] },
        Command::WithFileName { path: text("a/b"), filename: text("c/d") },
        Command::WithSuffix { path: text("a/b.c"), suffix: text("d.e") },
        Command::Exists { path: text("a/b") },
    ];
    for command in commands {
        assert!(command.is_runnable());
        assert_eq!(try_process(command.clone()), Some(process(command)));
    }
}

#[test]
fn contains_separator_finds_the_platform_separators() {
    assert!(contains_separator("a/b"));
    assert!(contains_separator("/"));
    assert!(contains_separator("ab/"));
    assert!(!contains_separator("ab"));
    assert!(!contains_separator(""));
    assert!(!contains_separator("tar.gz"));
    assert!(!contains_separator("\u{e9}t\u{e9}"));
    assert_eq!(contains_separator("a\\b"), std::path::is_separator('\\'));
}

#[test]
fn with_file_name_replaces_the_final_component() {
    let step = process(
        Command::WithFileName { path: text("/a/b/file.txt"), filename: text("other.md") },
    );
    assert_eq!(step, line("/a/b/other.md"));
    assert_eq!(exit_code_of(&step), 0);
    assert_eq!(
        process(Command::WithFileName { path: text("file.txt"), filename: text("x") }),
        line("x"),
    );
}

#[test]
fn with_file_name_extends_a_path_without_file_name() {
    assert_eq!(
        process(Command::WithFileName { path: text("/"), filename: text("x") }),
        line("/x"),
    );
    assert_eq!(
        process(Command::WithFileName { path: text(".."), filename: text("x") }),
        line("../x"),
    );
    assert_eq!(
        process(Command::WithFileName { path: text(""), filename: text("x") }),
        line("x"),
    );
}

#[test]
fn filesystem_predicates_are_handed_out_as_probes() {
    assert_eq!(
        process(Command::Exists { path: text("/a/b") }),
        Step::Probe { probe: Probe::Exists, path: text("/a/b") },
    );
    assert_eq!(
        process(Command::IsDir { path: text("x") }),
        Step::Probe { probe: Probe::IsDir, path: text("x") },
    );
    assert_eq!(
        process(Command::IsFile { path: text("y/z") }),
        Step::Probe { probe: Probe::IsFile, path: text("y/z") },
    );
    assert_eq!(
        process(Command::IsSymlink { path: text("") }),
        Step::Probe { probe: Probe::IsSymlink, path: text("") },
    );
}

#[test]
fn filesystem_resolutions_are_handed_out_as_lookups() {
    assert_eq!(
        process(Command::Canonicalize { path: text("a/../b") }),
        Step::Lookup { lookup: Lookup::Canonicalize, path: text("a/../b") },
    );
    assert_eq!(
        process(Command::ResolveLink { path: text("/l") }),
        Step::Lookup { lookup: Lookup::ReadLink, path: text("/l") },
    );
}

#[test]
fn answer_to_a_probe_decides_between_silence_and_failure() {
    assert_eq!(Outcome::of_flag(true), Outcome::Silent);
    assert_eq!(Outcome::of_flag(false), Outcome::Failure);
}

#[test]
fn answer_to_a_lookup_is_printed_or_fails() {
    assert_eq!(Outcome::of_value(Some(text("/real/path"))), Outcome::Line(text("/real/path")));
    assert_eq!(Outcome::of_value(Some(text(""))), Outcome::Line(text("")));
    assert_eq!(Outcome::of_value(None), Outcome::Failure);
}

#[test]
fn exit_code_is_zero_unless_the_command_failed() {
    assert_eq!(Outcome::Line(text("x")).exit_code(), 0);
    assert_eq!(Outcome::Line(text("")).exit_code(), 0);
    assert_eq!(Outcome::Silent.exit_code(), 0);
    assert_eq!(Outcome::Failure.exit_code(), 1);
}
