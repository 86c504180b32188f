use photo_sorter::calendar::Timestamp;
use photo_sorter::metadata::FileMeta;
use photo_sorter::planner::{lay_out, plan};
use photo_sorter::relocate::{probe_needed, prune, settle, Action, Command, Options};

fn meta(year: i32, month: u32, day: u32, hour: u32, minute: u32, second: u32, tag: &str) -> FileMeta {
    FileMeta {
        created_at: Timestamp::new(year, month, day, hour, minute, second).unwrap(),
        brightness: tag.to_string(),
    }
}

fn text(s: &str) -> String {
    s.to_string()
}

fn announce(action: Action, from: &str, to: &str) -> Command {
    Command::AnnounceRelocation { action, from: text(from), to: text(to) }
}

#[test]
fn plan_with_brightness() {
    assert_eq!(
        plan(&meta(2023, 5, 2, 14, 3, 11, "-0.5"), "JPG"),
        "2023/20230502/2023-05-02_140311.-0.5.jpg"
    );
}

#[test]
fn plan_without_brightness() {
    assert_eq!(plan(&meta(2023, 5, 2, 14, 3, 11, ""), "JPG"), "2023/20230502/2023-05-02_140311.jpg");
}

#[test]
fn plan_of_a_winter_morning() {
    assert_eq!(plan(&meta(2021, 1, 5, 8, 30, 0, ""), "JPG"), "2021/20210105/2021-01-05_083000.jpg");
}

#[test]
fn plan_lowers_the_extension_and_nothing_else() {
    assert_eq!(
        plan(&meta(2023, 5, 2, 14, 3, 11, "Bright EV"), "JpEg"),
        "2023/20230502/2023-05-02_140311.Bright EV.jpeg"
    );
    assert_eq!(plan(&meta(2023, 5, 2, 14, 3, 11, ""), "ÄÖ"), "2023/20230502/2023-05-02_140311.äö");
}

#[test]
fn plan_passes_odd_extensions_through() {
    assert_eq!(
        plan(&meta(2023, 5, 2, 14, 3, 11, ""), "T.A/R 1"),
        "2023/20230502/2023-05-02_140311.t.a/r 1"
    );
    assert_eq!(plan(&meta(2023, 5, 2, 14, 3, 11, ""), ""), "2023/20230502/2023-05-02_140311.");
    assert_eq!(plan(&meta(2023, 5, 2, 14, 3, 11, "7"), ""), "2023/20230502/2023-05-02_140311.7.");
}

#[test]
fn plan_is_the_same_for_the_same_metadata() {
    let first = plan(&meta(2022, 8, 9, 10, 11, 12, "1.25"), "PNG");
    let second = plan(&meta(2022, 8, 9, 10, 11, 12, "1.25"), "png");
    assert_eq!(first, second);
    assert_eq!(first, "2022/20220809/2022-08-09_101112.1.25.png");
}

#[test]
fn lay_out_takes_the_extension_as_it_is() {
    assert_eq!(
        lay_out(&meta(2023, 5, 2, 14, 3, 11, ""), "JPG"),
        "2023/20230502/2023-05-02_140311.JPG"
    );
    assert_eq!(
        lay_out(&meta(2023, 5, 2, 14, 3, 11, "0"), "JPG"),
        "2023/20230502/2023-05-02_140311.0.JPG"
    );
}

#[test]
fn options_end_the_root_in_a_separator() {
    let options = Options::new(Action::Copy, false, text("/srv/sorted"));
    assert!(options.do_action());
    assert_eq!(options.action(), Action::Copy);
    assert_eq!(options.destination_path(), "/srv/sorted/");
    let options = Options::new(Action::Move, true, text("photos/"));
    assert!(!options.do_action());
    assert_eq!(options.action(), Action::Move);
    assert_eq!(options.destination_path(), "photos/");
    assert_eq!(options, Options::new(Action::Move, true, text("photos")));
}

#[test]
fn destination_is_root_and_plan() {
    let options = Options::new(Action::Copy, false, text("/srv/sorted"));
    assert_eq!(
        options.destination("2021/20210105/2021-01-05_083000.jpg"),
        "/srv/sorted/2021/20210105/2021-01-05_083000.jpg"
    );
    assert_eq!(options.destination(""), "/srv/sorted/");
}

#[test]
fn only_a_copy_out_of_place_needs_a_probe() {
    let copy = Options::new(Action::Copy, false, text("/out"));
    let moving = Options::new(Action::Move, false, text("/out"));
    assert!(probe_needed(&copy, &text("/in/a.jpg"), &text("/out/a.jpg")));
    assert!(!probe_needed(&copy, &text("/out/a.jpg"), &text("/out/a.jpg")));
    assert!(!probe_needed(&moving, &text("/in/a.jpg"), &text("/out/a.jpg")));
    assert!(!probe_needed(&moving, &text("/out/a.jpg"), &text("/out/a.jpg")));
}

#[test]
fn a_move_is_report_directories_rename() {
    let options = Options::new(Action::Move, false, text("/p"));
    assert_eq!(
        settle(&options, &text("/p/a.jpg"), &text("/p/2021/x.jpg"), false),
        vec![
            announce(Action::Move, "/p/a.jpg", "/p/2021/x.jpg"),
            Command::CreateParent { of: text("/p/2021/x.jpg") },
            Command::Rename { from: text("/p/a.jpg"), to: text("/p/2021/x.jpg") },
        ]
    );
}

#[test]
fn a_move_replaces_what_is_there() {
    let options = Options::new(Action::Move, false, text("/p"));
    assert_eq!(
        settle(&options, &text("/p/a.jpg"), &text("/p/2021/x.jpg"), true),
        settle(&options, &text("/p/a.jpg"), &text("/p/2021/x.jpg"), false)
    );
    assert_eq!(
        settle(&options, &text("/p/a.jpg"), &text("/p/2021/x.jpg"), true).last(),
        Some(&Command::Rename { from: text("/p/a.jpg"), to: text("/p/2021/x.jpg") })
    );
}

#[test]
fn a_copy_is_report_directories_bytes_time() {
    let options = Options::new(Action::Copy, false, text("/out"));
    assert_eq!(
        settle(&options, &text("/in/a.jpg"), &text("/out/2021/x.jpg"), false),
        vec![
            announce(Action::Copy, "/in/a.jpg", "/out/2021/x.jpg"),
            Command::CreateParent { of: text("/out/2021/x.jpg") },
            Command::CopyContents { from: text("/in/a.jpg"), to: text("/out/2021/x.jpg") },
            Command::CopyModifiedTime { from: text("/in/a.jpg"), to: text("/out/2021/x.jpg") },
        ]
    );
}

#[test]
fn a_copy_spares_what_is_there() {
    let options = Options::new(Action::Copy, false, text("/out"));
    assert_eq!(settle(&options, &text("/in/a.jpg"), &text("/out/2021/x.jpg"), true), vec![]);
    let rehearsal = Options::new(Action::Copy, true, text("/out"));
    assert_eq!(settle(&rehearsal, &text("/in/a.jpg"), &text("/out/2021/x.jpg"), true), vec![]);
}

#[test]
fn a_file_in_its_place_is_left_alone() {
    for action in [Action::Copy, Action::Move] {
        for dry_run in [false, true] {
            for taken in [false, true] {
                let options = Options::new(action, dry_run, text("/p"));
                assert_eq!(
                    settle(&options, &text("/p/2021/x.jpg"), &text("/p/2021/x.jpg"), taken),
                    vec![]
                );
            }
        }
    }
}

#[test]
fn a_dry_run_only_reports_relocations() {
    let moving = Options::new(Action::Move, true, text("/p"));
    assert_eq!(
        settle(&moving, &text("/p/a.jpg"), &text("/p/2021/x.jpg"), true),
        vec![announce(Action::Move, "/p/a.jpg", "/p/2021/x.jpg")]
    );
    let copy = Options::new(Action::Copy, true, text("/out"));
    assert_eq!(
        settle(&copy, &text("/in/a.jpg"), &text("/out/2021/x.jpg"), false),
        vec![announce(Action::Copy, "/in/a.jpg", "/out/2021/x.jpg")]
    );
}

#[test]
fn an_empty_directory_is_reported_and_removed() {
    let options = Options::new(Action::Move, false, text("/p"));
    assert_eq!(
        prune(&options, &text("/p/old"), true),
        vec![
            Command::AnnouncePruning { directory: text("/p/old") },
            Command::RemoveDirectory { path: text("/p/old") },
        ]
    );
}

#[test]
fn a_dry_run_only_reports_empty_directories() {
    let options = Options::new(Action::Copy, true, text("/p"));
    assert_eq!(
        prune(&options, &text("/p/old"), true),
        vec![Command::AnnouncePruning { directory: text("/p/old") }]
    );
}

#[test]
fn a_directory_that_holds_something_is_left_alone() {
    assert_eq!(prune(&Options::new(Action::Move, false, text("/p")), &text("/p/old"), false), vec![]);
    assert_eq!(prune(&Options::new(Action::Move, true, text("/p")), &text("/p/old"), false), vec![]);
}
