use npns::browser::{file_preview, name_of, PreviewFacts};
use npns::fs_info::fs_core::{Effect, Event, FileSystemCore};
use npns::fs_info::history::History;

fn special() -> PreviewFacts {
    PreviewFacts { is_symlink: false, link_target: None, is_file: false, lines: None }
}

fn core_at(dir: &str) -> FileSystemCore {
    let (mut core, eff) = FileSystemCore::init(dir.to_string(), History::new(None, false));
    assert!(matches!(eff, Effect::List(ref p) if p == dir));
    let mut eff = core.resume(Event::Listing(Vec::new(), None));
    while !matches!(eff, Effect::Done) {
        eff = core.resume(Event::Go);
    }
    core
}

#[test]
fn names_are_the_final_component() {
    assert_eq!(name_of("/w/a.txt"), "a.txt");
    assert_eq!(name_of("/w/sub/"), "sub");
    assert_eq!(name_of("/"), "");
    assert_eq!(name_of("/w/.."), "");
}

#[test]
fn history_file_joins_its_directory() {
    assert_eq!(History::file_in("/tmp/npns"), "/tmp/npns/history.bin");
    assert_eq!(History::file_in("/tmp/npns/"), "/tmp/npns/history.bin");
    assert_eq!(History::file_in(""), "history.bin");
}

#[test]
fn new_names_are_joined_to_the_current_directory() {
    let mut core = core_at("/w");
    assert!(matches!(core.new_file("b", false), Effect::Probe(ref p) if p == "/w/b"));
    let mut core = core_at("/w");
    assert!(matches!(core.new_file("/abs", true), Effect::Probe(ref p) if p == "/abs"));
}

#[test]
fn parent_directory_stops_at_the_root() {
    let mut core = core_at("/w/x");
    assert!(matches!(core.parent_dir(), Effect::Probe(ref p) if p == "/w"));
    let mut root = core_at("/");
    assert!(matches!(root.parent_dir(), Effect::Done));
    assert_eq!(root.state_info(), "Already at root directory");
}

#[test]
fn extensions_name_special_files() {
    assert_eq!(file_preview("/w/a.tar.gz", special()), "gz file");
    assert_eq!(file_preview("/w/.hidden", special()), "special file");
    assert_eq!(file_preview("/w/noext", special()), "special file");
    assert_eq!(file_preview("/w/a.", special()), " file");
    assert_eq!(file_preview("/w/..x", special()), "x file");
}
