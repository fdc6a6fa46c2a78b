use std::path::PathBuf;
use svgview::document::ParseContext;
use svgview::event_loop::{Directive, Event, Viewer};
use svgview::state::State;
use svgview::watcher::{watcher_step, WatchEvent, WatcherAction, CLOSE_WRITE};

const CHMOD: u32 = 0b000_0001;
const CREATE: u32 = 0b000_0010;
const REMOVE: u32 = 0b000_0100;
const RENAME: u32 = 0b000_1000;
const WRITE: u32 = 0b001_0000;
const RESCAN: u32 = 0b100_0000;

fn watched() -> PathBuf {
    PathBuf::from("/home/user/drawing.svg")
}

fn report(path: Option<&str>, op: Option<u32>) -> WatchEvent {
    WatchEvent { path: path.map(PathBuf::from), op }
}

#[test]
fn close_write_is_the_flag_that_notify_gives() {
    assert_eq!(CLOSE_WRITE, notify::op::CLOSE_WRITE.bits());
    assert_eq!(CLOSE_WRITE, 32);
    assert_eq!(CHMOD, notify::op::CHMOD.bits());
    assert_eq!(CREATE, notify::op::CREATE.bits());
    assert_eq!(REMOVE, notify::op::REMOVE.bits());
    assert_eq!(RENAME, notify::op::RENAME.bits());
    assert_eq!(WRITE, notify::op::WRITE.bits());
    assert_eq!(RESCAN, notify::op::RESCAN.bits());
}

#[test]
fn finished_write_of_the_watched_file_raises_the_signal() {
    let event = report(Some("/home/user/drawing.svg"), Some(CLOSE_WRITE));
    assert!(event.is_finalized());
    assert!(event.is_about(&watched()));
    assert!(event.raises_signal(&watched()));
    assert_eq!(watcher_step(Some(event), &watched()), WatcherAction::Notify);
}

#[test]
fn other_operations_raise_no_signal() {
    for op in [0, CHMOD, CREATE, REMOVE, RENAME, WRITE, RESCAN, u32::MAX] {
        let event = report(Some("/home/user/drawing.svg"), Some(op));
        assert!(!event.is_finalized());
        assert!(!event.raises_signal(&watched()));
        assert_eq!(watcher_step(Some(event), &watched()), WatcherAction::Ignore);
    }
}

#[test]
fn close_write_together_with_another_flag_raises_no_signal() {
    for op in [CLOSE_WRITE | WRITE, CLOSE_WRITE | CHMOD, CLOSE_WRITE | RESCAN] {
        let event = report(Some("/home/user/drawing.svg"), Some(op));
        assert!(!event.is_finalized());
        assert_eq!(watcher_step(Some(event), &watched()), WatcherAction::Ignore);
    }
}

#[test]
fn finished_write_of_another_file_raises_no_signal() {
    for path in ["/home/user/other.svg", "/home/user/drawing.svg~", "drawing.svg", ""] {
        let event = report(Some(path), Some(CLOSE_WRITE));
        assert!(event.is_finalized());
        assert!(!event.is_about(&watched()));
        assert!(!event.raises_signal(&watched()));
        assert_eq!(watcher_step(Some(event), &watched()), WatcherAction::Ignore);
    }
}

#[test]
fn paths_are_compared_by_their_components() {
    let event = report(Some("/home/user//drawing.svg"), Some(CLOSE_WRITE));
    assert!(event.is_about(&watched()));
    let event = report(Some("/home/./user/drawing.svg/"), Some(CLOSE_WRITE));
    assert!(event.is_about(&watched()));
    let event = report(Some("/home/user/Drawing.svg"), Some(CLOSE_WRITE));
    assert!(!event.is_about(&watched()));
}

#[test]
fn report_without_a_path_raises_no_signal() {
    let event = report(None, Some(CLOSE_WRITE));
    assert!(!event.is_about(&watched()));
    assert_eq!(watcher_step(Some(event), &watched()), WatcherAction::Ignore);
}

#[test]
fn report_of_an_error_raises_no_signal() {
    let event = report(Some("/home/user/drawing.svg"), None);
    assert!(!event.is_finalized());
    assert_eq!(watcher_step(Some(event), &watched()), WatcherAction::Ignore);
}

#[test]
fn failed_receive_is_a_warning() {
    assert_eq!(watcher_step(None, &watched()), WatcherAction::Warn);
}

fn drawing(colour: &str) -> String {
    format!(
        "<svg width=\"8\" height=\"8\" xmlns=\"http://www.w3.org/2000/svg\"><rect width=\"8\" height=\"8\" fill=\"{}\"/></svg>",
        colour
    )
}

fn parse(text: &str, context: &ParseContext) -> Option<Result<usvg::Tree, usvg::Error>> {
    Some(usvg::Tree::from_data(text.as_bytes(), &context.options().to_ref()))
}

fn draw(viewer: &mut Viewer) {
    let (tree, width, height, canvas) = viewer.rasterize_svg();
    let target = tiny_skia::PixmapMut::from_bytes(canvas, width, height).unwrap();
    let outcome = resvg::render(
        tree,
        usvg::FitTo::Size(width, height),
        tiny_skia::Transform::default(),
        target,
    );
    assert_eq!(State::drawn(outcome), Ok(()));
}

fn viewer_of(text: &str) -> Viewer {
    let context = ParseContext::for_file(&watched(), usvg::fontdb::Database::new());
    let parsed = parse(text, &context);
    let mut viewer = Viewer::new(State::new(watched(), context, parsed, 8, 8).unwrap());
    draw(&mut viewer);
    viewer
}

#[test]
fn burst_of_writes_ends_on_the_last_completed_write() {
    let mut viewer = viewer_of(&drawing("#ff0000"));

    // An editor saves twice in quick succession: each save is a run of writes
    // that ends when the file is closed, next to reports on its backup file.
    let saves = [drawing("#00ff00"), drawing("#0000ff")];
    let reports = [
        (0, report(Some("/home/user/drawing.svg"), Some(WRITE))),
        (0, report(Some("/home/user/drawing.svg~"), Some(CLOSE_WRITE))),
        (0, report(Some("/home/user/drawing.svg"), Some(WRITE))),
        (0, report(Some("/home/user/drawing.svg"), Some(CLOSE_WRITE))),
        (1, report(Some("/home/user/drawing.svg"), Some(CHMOD))),
        (1, report(Some("/home/user/drawing.svg"), Some(WRITE))),
        (1, report(Some("/home/user/drawing.svg"), Some(CLOSE_WRITE))),
    ];

    let mut reloads = 0;
    for (save, event) in reports {
        if watcher_step(Some(event), &watched()) == WatcherAction::Notify {
            let parsed = parse(&saves[save], viewer.state().options());
            assert_eq!(viewer.on_event(Event::FileChanged { parsed }), Ok(Directive::Draw));
            draw(&mut viewer);
            reloads += 1;
        }
    }

    assert!(reloads >= 1);
    assert_eq!(reloads, 2);
    assert!(viewer.state().frame().chunks(4).all(|pixel| pixel == [0, 0, 255, 255]));
}

#[test]
fn signals_that_find_the_last_content_show_the_same_frame() {
    let mut viewer = viewer_of(&drawing("#ff0000"));

    // Both signals are taken up only after the second save: each reload reads
    // what the file holds by then.
    for _ in 0..2 {
        let parsed = parse(&drawing("#0000ff"), viewer.state().options());
        assert_eq!(viewer.on_event(Event::FileChanged { parsed }), Ok(Directive::Draw));
        draw(&mut viewer);
    }
    assert!(viewer.state().frame().chunks(4).all(|pixel| pixel == [0, 0, 255, 255]));
}
