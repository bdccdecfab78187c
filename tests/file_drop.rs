use std::cell::RefCell;
use std::path::PathBuf;
use std::rc::Rc;

use wry::file_drop::{
    combine_answers, FileDropController, FileDropEvent, FileDropHandler, FileDropStatus,
};

type Log = Rc<RefCell<Vec<(FileDropEvent, Vec<PathBuf>)>>>;

fn describe(status: &FileDropStatus) -> (FileDropEvent, Vec<PathBuf>) {
    match status {
        FileDropStatus::Hovered(p) => (FileDropEvent::Hovered, p.clone()),
        FileDropStatus::Dropped(p) => (FileDropEvent::Dropped, p.clone()),
        FileDropStatus::Cancelled(p) => (FileDropEvent::Cancelled, p.clone()),
    }
}

fn recording(log: &Log, answer: bool) -> FileDropHandler<impl Fn(FileDropStatus) -> bool> {
    let log = log.clone();
    FileDropHandler::new(move |s: FileDropStatus| {
        log.borrow_mut().push(describe(&s));
        answer
    })
}

fn paths(names: &[&str]) -> Vec<PathBuf> {
    names.iter().map(PathBuf::from).collect()
}

#[test]
fn handler_call_returns_the_answer_of_its_function() {
    let yes = FileDropHandler::new(|_s: FileDropStatus| true);
    let no = FileDropHandler::new(|_s: FileDropStatus| false);
    assert!(yes.call(FileDropStatus::Hovered(paths(&["a"]))));
    assert!(!no.call(FileDropStatus::Dropped(paths(&["a"]))));
    let again = yes.clone();
    assert!(again.call(FileDropStatus::Cancelled(vec![])));
}

#[test]
fn hover_with_paths_is_told_and_kept() {
    let log: Log = Rc::new(RefCell::new(Vec::new()));
    let mut c = FileDropController::new((Some(recording(&log, true)), None::<FileDropHandler<fn(FileDropStatus) -> bool>>));
    assert!(c.file_drop(FileDropEvent::Hovered, Some(paths(&["a.txt"]))));
    assert_eq!(log.borrow().clone(), vec![(FileDropEvent::Hovered, paths(&["a.txt"]))]);
    let kept = describe(c.active_file_drop.as_ref().unwrap());
    assert_eq!(kept, (FileDropEvent::Hovered, paths(&["a.txt"])));
}

#[test]
fn hover_without_paths_is_ignored() {
    let log: Log = Rc::new(RefCell::new(Vec::new()));
    let mut c = FileDropController::new((Some(recording(&log, true)), None::<FileDropHandler<fn(FileDropStatus) -> bool>>));
    assert!(!c.file_drop(FileDropEvent::Hovered, None));
    assert!(!c.file_drop(FileDropEvent::Hovered, Some(vec![])));
    assert!(log.borrow().is_empty());
    assert!(c.active_file_drop.is_none());
}

#[test]
fn drop_without_paths_takes_the_hovered_paths() {
    let log: Log = Rc::new(RefCell::new(Vec::new()));
    let mut c = FileDropController::new((Some(recording(&log, false)), None::<FileDropHandler<fn(FileDropStatus) -> bool>>));
    assert!(!c.file_drop(FileDropEvent::Hovered, Some(paths(&["a", "b"]))));
    assert!(!c.file_drop(FileDropEvent::Dropped, None));
    assert_eq!(
        log.borrow().clone(),
        vec![
            (FileDropEvent::Hovered, paths(&["a", "b"])),
            (FileDropEvent::Dropped, paths(&["a", "b"])),
        ]
    );
    let kept = describe(c.active_file_drop.as_ref().unwrap());
    assert_eq!(kept, (FileDropEvent::Dropped, paths(&["a", "b"])));
}

#[test]
fn cancel_with_nothing_kept_is_ignored() {
    let log: Log = Rc::new(RefCell::new(Vec::new()));
    let mut c = FileDropController::new((Some(recording(&log, true)), None::<FileDropHandler<fn(FileDropStatus) -> bool>>));
    assert!(!c.file_drop(FileDropEvent::Cancelled, None));
    assert!(log.borrow().is_empty());
    assert!(c.active_file_drop.is_none());
}

#[test]
fn cancel_with_its_own_paths_uses_them_even_when_empty() {
    let log: Log = Rc::new(RefCell::new(Vec::new()));
    let mut c = FileDropController::new((Some(recording(&log, true)), None::<FileDropHandler<fn(FileDropStatus) -> bool>>));
    assert!(c.file_drop(FileDropEvent::Cancelled, Some(vec![])));
    assert_eq!(log.borrow().clone(), vec![(FileDropEvent::Cancelled, vec![])]);
}

#[test]
fn both_handlers_are_told_and_either_prevents() {
    let wlog: Log = Rc::new(RefCell::new(Vec::new()));
    let alog: Log = Rc::new(RefCell::new(Vec::new()));
    let mut c = FileDropController::new((Some(recording(&wlog, false)), Some(recording(&alog, true))));
    assert!(c.file_drop(FileDropEvent::Dropped, Some(paths(&["x"]))));
    assert_eq!(wlog.borrow().len(), 1);
    assert_eq!(alog.borrow().clone(), vec![(FileDropEvent::Dropped, paths(&["x"]))]);

    let wlog2: Log = Rc::new(RefCell::new(Vec::new()));
    let alog2: Log = Rc::new(RefCell::new(Vec::new()));
    let mut d = FileDropController::new((Some(recording(&wlog2, true)), Some(recording(&alog2, false))));
    assert!(d.file_drop(FileDropEvent::Hovered, Some(paths(&["y"]))));
    assert_eq!(alog2.borrow().len(), 1);

    let wlog3: Log = Rc::new(RefCell::new(Vec::new()));
    let alog3: Log = Rc::new(RefCell::new(Vec::new()));
    let mut e = FileDropController::new((Some(recording(&wlog3, false)), Some(recording(&alog3, false))));
    assert!(!e.file_drop(FileDropEvent::Hovered, Some(paths(&["z"]))));
    assert_eq!(wlog3.borrow().len(), 1);
    assert_eq!(alog3.borrow().len(), 1);
}

#[test]
fn no_handler_answers_false_but_keeps_the_status() {
    let mut c: FileDropController<fn(FileDropStatus) -> bool, fn(FileDropStatus) -> bool> =
        FileDropController::new((None, None));
    assert!(!c.file_drop(FileDropEvent::Hovered, Some(paths(&["q"]))));
    let kept = describe(c.active_file_drop.as_ref().unwrap());
    assert_eq!(kept, (FileDropEvent::Hovered, paths(&["q"])));
}

#[test]
fn answers_combine_by_or() {
    assert!(!combine_answers(None, None));
    assert!(!combine_answers(Some(false), None));
    assert!(!combine_answers(Some(false), Some(false)));
    assert!(combine_answers(Some(true), None));
    assert!(combine_answers(None, Some(true)));
    assert!(combine_answers(Some(false), Some(true)));
}

#[test]
fn status_clone_and_paths() {
    let s = FileDropStatus::new(FileDropEvent::Cancelled, paths(&["c"]));
    let t = s.clone();
    assert_eq!(describe(&t), (FileDropEvent::Cancelled, paths(&["c"])));
    assert_eq!(s.into_paths(), paths(&["c"]));
}
