use agent_launcher::location::{BuildMode, Layout, Location, DEBUG_ASCENT};

fn strings(items: &[&str]) -> Vec<String> {
    items.iter().map(|s| s.to_string()).collect()
}

fn unix(segments: &[&str]) -> Location {
    Location { anchor: "/".to_string(), segments: strings(segments), separator: "/".to_string() }
}

fn windows(segments: &[&str]) -> Location {
    Location {
        anchor: "C:\\".to_string(),
        segments: strings(segments),
        separator: "\\".to_string(),
    }
}

#[test]
fn debug_ascent_is_three() {
    assert_eq!(DEBUG_ASCENT, 3);
}

#[test]
fn release_companion_is_beside_the_executable() {
    let exe = windows(&["Program Files", "Lise", "lise.exe"]);
    let target = exe.companion(BuildMode::Release);
    assert_eq!(target, windows(&["Program Files", "Lise", "lise-agent.exe"]));
}

#[test]
fn debug_companion_is_three_parents_up_then_down() {
    let exe = windows(&["work", "lise", "src-tauri", "target", "debug", "lise.exe"]);
    let target = exe.companion(BuildMode::Debug);
    assert_eq!(target, windows(&["work", "lise", "agent", "dist", "lise-agent.exe"]));
}

#[test]
fn debug_companion_on_unix_style_location() {
    let exe = unix(&["home", "dev", "proj", "src-tauri", "target", "debug", "app"]);
    let target = exe.companion(BuildMode::Debug);
    assert_eq!(target, unix(&["home", "dev", "proj", "agent", "dist", "lise-agent.exe"]));
    assert_eq!(target.display(), "/home/dev/proj/agent/dist/lise-agent.exe");
}

#[test]
fn debug_companion_stops_at_the_anchor() {
    let exe = unix(&["debug", "app"]);
    let target = exe.companion(BuildMode::Debug);
    assert_eq!(target, unix(&["agent", "dist", "lise-agent.exe"]));
}

#[test]
fn debug_companion_with_exactly_four_segments() {
    let exe = unix(&["a", "b", "c", "app"]);
    assert_eq!(exe.companion(BuildMode::Debug), unix(&["agent", "dist", "lise-agent.exe"]));
    let exe = unix(&["root", "a", "b", "c", "app"]);
    assert_eq!(
        exe.companion(BuildMode::Debug),
        unix(&["root", "agent", "dist", "lise-agent.exe"])
    );
}

#[test]
fn companion_of_a_bare_anchor() {
    let exe = unix(&[]);
    assert_eq!(exe.companion(BuildMode::Release), unix(&["lise-agent.exe"]));
    assert_eq!(exe.companion(BuildMode::Debug), unix(&["agent", "dist", "lise-agent.exe"]));
}

#[test]
fn companion_keeps_anchor_and_separator() {
    let exe = Location {
        anchor: String::new(),
        segments: strings(&["bin", "app"]),
        separator: ":".to_string(),
    };
    let target = exe.companion(BuildMode::Release);
    assert_eq!(target.anchor, "");
    assert_eq!(target.separator, ":");
    assert_eq!(target.segments, strings(&["bin", "lise-agent.exe"]));
    assert_eq!(target.display(), "bin:lise-agent.exe");
}

#[test]
fn companion_differs_from_the_executable() {
    let exe = unix(&["opt", "lise", "lise"]);
    assert_ne!(exe.companion(BuildMode::Release), exe);
    assert_ne!(exe.companion(BuildMode::Debug), exe.companion(BuildMode::Release));
}

#[test]
fn layout_of_each_mode() {
    assert_eq!(
        Layout::for_mode(BuildMode::Debug),
        Layout { ascent: 3, descent: strings(&["agent", "dist", "lise-agent.exe"]) }
    );
    assert_eq!(
        Layout::for_mode(BuildMode::Release),
        Layout { ascent: 0, descent: strings(&["lise-agent.exe"]) }
    );
}

#[test]
fn resolve_follows_a_custom_layout() {
    let exe = unix(&["a", "b", "c", "d", "app"]);
    let layout = Layout { ascent: 1, descent: strings(&["tools", "helper"]) };
    assert_eq!(exe.resolve(&layout), unix(&["a", "b", "c", "tools", "helper"]));
    let layout = Layout { ascent: 2, descent: vec![] };
    assert_eq!(exe.resolve(&layout), unix(&["a", "b"]));
    let layout = Layout { ascent: usize::MAX, descent: strings(&["x"]) };
    assert_eq!(exe.resolve(&layout), unix(&["x"]));
}

#[test]
fn resolve_agrees_with_walking_up_one_parent_at_a_time() {
    let exe = unix(&["a", "b", "c", "d", "e", "app"]);
    let mut expected = strings(&["a", "b", "c", "d", "e", "app"]);
    expected.pop();
    for levels in 0..8usize {
        let layout = Layout { ascent: levels, descent: vec![] };
        assert_eq!(exe.resolve(&layout).segments, expected);
        expected.pop();
    }
}

#[test]
fn duplicate_is_equal() {
    let exe = windows(&["a", "b"]);
    assert_eq!(exe.duplicate(), exe);
    assert_eq!(unix(&[]).duplicate(), unix(&[]));
}

#[test]
fn display_joins_segments_after_the_anchor() {
    assert_eq!(unix(&[]).display(), "/");
    assert_eq!(unix(&["a"]).display(), "/a");
    assert_eq!(unix(&["a", "b", "c"]).display(), "/a/b/c");
    assert_eq!(windows(&["Users", "me", "lise-agent.exe"]).display(), "C:\\Users\\me\\lise-agent.exe");
}
