//! File drops onto a window: what the handlers are told, and what is kept
//! between the events of one drop.
//!
//! A toolkit does not always say which files a later event of a drop is
//! about, but a hover or a drop always does: the paths of the last status are
//! kept and stand in for the missing ones.
use std::path::PathBuf;
use std::sync::Arc;
use vstd::prelude::*;

verus! {

#[verifier::external_type_specification]
#[verifier::external_body]
pub struct ExPathBuf(PathBuf);

/// Relies on `PathBuf`'s `Clone`, which copies the path.
pub assume_specification[ <PathBuf as Clone>::clone ](p: &PathBuf) -> (r: PathBuf)
    ensures
        r == *p,
;

/// The kind of a file-drop event.
#[derive(PartialEq, Eq, Structural, Clone, Copy, Debug)]
pub enum FileDropEvent {
    /// Files are dragged over the window.
    Hovered,
    /// Files were dropped onto the window.
    Dropped,
    /// The drag left the window, or was aborted.
    Cancelled,
}

/// The status of a file drop, with the paths it is about.
#[derive(Debug)]
pub enum FileDropStatus {
    /// The files have been dragged onto the window, but not dropped yet.
    Hovered(Vec<PathBuf>),
    /// The files have been dropped onto the window.
    Dropped(Vec<PathBuf>),
    /// The drop of the files was aborted.
    Cancelled(Vec<PathBuf>),
}

impl View for FileDropStatus {
    type V = (FileDropEvent, Seq<PathBuf>);

    open spec fn view(&self) -> (FileDropEvent, Seq<PathBuf>) {
        match self {
            FileDropStatus::Hovered(p) => (FileDropEvent::Hovered, p@),
            FileDropStatus::Dropped(p) => (FileDropEvent::Dropped, p@),
            FileDropStatus::Cancelled(p) => (FileDropEvent::Cancelled, p@),
        }
    }
}

fn clone_paths(paths: &Vec<PathBuf>) -> (r: Vec<PathBuf>)
    ensures
        r@ == paths@,
{
    let r = paths.clone();
    assert(r@ =~= paths@);
    r
}

impl Clone for FileDropStatus {
    fn clone(&self) -> (r: Self)
        ensures
            r@ == self@,
    {
        match self {
            FileDropStatus::Hovered(p) => FileDropStatus::Hovered(clone_paths(p)),
            FileDropStatus::Dropped(p) => FileDropStatus::Dropped(clone_paths(p)),
            FileDropStatus::Cancelled(p) => FileDropStatus::Cancelled(clone_paths(p)),
        }
    }
}

impl FileDropStatus {
    /// The status of an event of kind `event` about `paths`.
    pub fn new(event: FileDropEvent, paths: Vec<PathBuf>) -> (r: FileDropStatus)
        ensures
            r@ == (event, paths@),
    {
        match event {
            FileDropEvent::Hovered => FileDropStatus::Hovered(paths),
            FileDropEvent::Dropped => FileDropStatus::Dropped(paths),
            FileDropEvent::Cancelled => FileDropStatus::Cancelled(paths),
        }
    }

    /// The paths that this status is about.
    pub fn into_paths(self) -> (r: Vec<PathBuf>)
        ensures
            r@ == self@.1,
    {
        match self {
            FileDropStatus::Hovered(p) => p,
            FileDropStatus::Dropped(p) => p,
            FileDropStatus::Cancelled(p) => p,
        }
    }
}

/// A function to be told of file drops. It answers whether the system's own
/// handling of the drop is to be prevented.
pub struct FileDropHandler<F> {
    f: Arc<F>,
}

impl<F> FileDropHandler<F> {
    /// The function that this handler calls.
    pub closed spec fn callback(&self) -> F {
        *self.f
    }
}

impl<F> Clone for FileDropHandler<F> {
    fn clone(&self) -> (r: Self)
        ensures
            r.callback() == self.callback(),
    {
        FileDropHandler { f: Arc::clone(&self.f) }
    }
}

impl<F: Fn(FileDropStatus) -> bool> FileDropHandler<F> {
    /// A handler that calls `f`.
    pub fn new(f: F) -> (r: FileDropHandler<F>)
        ensures
            r.callback() == f,
    {
        FileDropHandler { f: Arc::new(f) }
    }

    /// Tells the handler of `status` and returns its answer.
    pub fn call(&self, status: FileDropStatus) -> (r: bool)
        requires
            self.callback().requires((status,)),
        ensures
            self.callback().ensures((status,), r),
    {
        (*self.f)(status)
    }
}

/// Whether handler `h` takes every status.
pub open spec fn takes_all<F: Fn(FileDropStatus) -> bool>(h: Option<FileDropHandler<F>>) -> bool {
    h matches Some(h) ==> forall|s: FileDropStatus| #[trigger] h.callback().requires((s,))
}

/// Whether `h` may answer `b` when told of a status that reads `v`.
pub open spec fn answers<F: Fn(FileDropStatus) -> bool>(
    h: FileDropHandler<F>,
    v: (FileDropEvent, Seq<PathBuf>),
    b: bool,
) -> bool {
    exists|s: FileDropStatus| s@ == v && #[trigger] h.callback().ensures((s,), b)
}

/// What a handler slot gives for a status that reads `v`: no answer when it
/// is empty, else one that its handler may give.
pub open spec fn slot_answer<F: Fn(FileDropStatus) -> bool>(
    h: Option<FileDropHandler<F>>,
    v: (FileDropEvent, Seq<PathBuf>),
    out: Option<bool>,
) -> bool {
    match h {
        Some(h) => out matches Some(b) && answers(h, v, b),
        None => out is None,
    }
}

/// The system's handling of a drop is prevented when either handler asks so.
pub open spec fn prevents_default(webview: Option<bool>, app: Option<bool>) -> bool {
    webview == Some(true) || app == Some(true)
}

/// Whether the system's handling of a drop is prevented, given the answers of
/// the webview's handler and of the application's, where each was asked.
pub fn combine_answers(webview: Option<bool>, app: Option<bool>) -> (r: bool)
    ensures
        r == prevents_default(webview, app),
{
    let w = match webview {
        Some(b) => b,
        None => false,
    };
    let a = match app {
        Some(b) => b,
        None => false,
    };
    w || a
}

/// The paths that an event of kind `event` is about: those it came with
/// (for a hover, only when there is at least one), else, for a drop or a
/// cancel, those of the last status kept. None when there are none to be had.
pub open spec fn event_paths(
    event: FileDropEvent,
    paths: Option<Seq<PathBuf>>,
    active: Option<(FileDropEvent, Seq<PathBuf>)>,
) -> Option<Seq<PathBuf>> {
    match event {
        FileDropEvent::Hovered => match paths {
            Some(p) => if p.len() > 0 {
                Some(p)
            } else {
                None
            },
            None => None,
        },
        _ => match paths {
            Some(p) => Some(p),
            None => match active {
                Some(v) => Some(v.1),
                None => None,
            },
        },
    }
}

/// The view of an optional status.
pub open spec fn status_view(s: Option<FileDropStatus>) -> Option<(FileDropEvent, Seq<PathBuf>)> {
    match s {
        Some(s) => Some(s@),
        None => None,
    }
}

/// The view of optional paths.
pub open spec fn paths_view(p: Option<Vec<PathBuf>>) -> Option<Seq<PathBuf>> {
    match p {
        Some(p) => Some(p@),
        None => None,
    }
}

/// Tells the file-drop handlers of a webview's events, and keeps the status
/// of the drop under way.
pub struct FileDropController<W, A> {
    /// The webview's handler and the application's.
    pub handlers: (Option<FileDropHandler<W>>, Option<FileDropHandler<A>>),
    /// The status last told to the handlers.
    pub active_file_drop: Option<FileDropStatus>,
}

impl<W: Fn(FileDropStatus) -> bool, A: Fn(FileDropStatus) -> bool> FileDropController<W, A> {
    /// A controller for these handlers, with no drop under way.
    pub fn new(handlers: (Option<FileDropHandler<W>>, Option<FileDropHandler<A>>)) -> (r: Self)
        ensures
            r.handlers == handlers,
            r.active_file_drop is None,
    {
        FileDropController { handlers, active_file_drop: None }
    }

    /// Handles a file-drop event: works out the paths it is about, keeps the
    /// new status, and tells both handlers of it. Returns true when the
    /// system's own handling of the drop is to be prevented.
    ///
    /// An event whose paths cannot be had (a hover without paths, or a drop or
    /// cancel without paths and with no status kept) is ignored: nothing is
    /// told or kept, and false is returned.
    pub fn file_drop(&mut self, event: FileDropEvent, paths: Option<Vec<PathBuf>>) -> (r: bool)
        requires
            takes_all(old(self).handlers.0),
            takes_all(old(self).handlers.1),
        ensures
            final(self).handlers == old(self).handlers,
            match event_paths(event, paths_view(paths), status_view(old(self).active_file_drop)) {
                None => !r && final(self).active_file_drop == old(self).active_file_drop,
                Some(p) => {
                    &&& status_view(final(self).active_file_drop) == Some((event, p))
                    &&& exists|x: Option<bool>, y: Option<bool>|
                        slot_answer(old(self).handlers.0, (event, p), x) && slot_answer(
                            old(self).handlers.1,
                            (event, p),
                            y,
                        ) && r == prevents_default(x, y)
                },
            },
    {
        let paths = match event {
            FileDropEvent::Hovered => match paths {
                Some(p) => {
                    if p.len() == 0 {
                        return false;
                    }
                    p
                },
                None => {
                    return false;
                },
            },
            _ => match paths {
                Some(p) => p,
                None => match self.active_file_drop.take() {
                    None => {
                        return false;
                    },
                    Some(status) => status.into_paths(),
                },
            },
        };
        let new_status = FileDropStatus::new(event, paths);
        self.active_file_drop = Some(new_status.clone());
        self.call(new_status)
    }

    /// Tells both handlers of `status`, the webview's first, and returns
    /// whether either asks to prevent the system's handling of the drop.
    fn call(&self, status: FileDropStatus) -> (r: bool)
        requires
            takes_all(self.handlers.0),
            takes_all(self.handlers.1),
        ensures
            exists|x: Option<bool>, y: Option<bool>|
                slot_answer(self.handlers.0, status@, x) && slot_answer(self.handlers.1, status@, y)
                    && r == prevents_default(x, y),
    {
        let ghost v = status@;
        let webview = match &self.handlers.0 {
            Some(h) => {
                let s = status.clone();
                let b = h.call(s);
                assert(answers(*h, v, b));
                Some(b)
            },
            None => None,
        };
        let app = match &self.handlers.1 {
            Some(h) => {
                let b = h.call(status);
                assert(answers(*h, v, b));
                Some(b)
            },
            None => None,
        };
        assert(slot_answer(self.handlers.0, v, webview));
        assert(slot_answer(self.handlers.1, v, app));
        combine_answers(webview, app)
    }
}

} // verus!
