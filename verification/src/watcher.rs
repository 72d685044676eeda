//! File system watching: which notifications become index events, and what
//! each event does to the index.
use vstd::prelude::*;
use crate::image_utils::{is_supported_image, spec_is_supported_image};

verus! {

/// An index-relevant file system event.
#[derive(Debug, Clone, PartialEq, Eq)]
pub enum FileSystemEvent {
    /// A file appeared.
    Created(String),
    /// A file went away.
    Deleted(String),
    /// A file was renamed.
    Renamed { from: String, to: String },
}

/// Kind of a raw watcher notification.
#[derive(Debug, Clone, Copy, PartialEq, Eq)]
pub enum NotifyKind {
    Create,
    /// Old name of a renamed file.
    RenameFrom,
    /// New name of a renamed file.
    RenameTo,
    /// Both names of a renamed file, in one notification.
    RenameBoth,
    /// Content, attribute or time change.
    ModifyOther,
    Remove,
    /// Anything else (access and unknown kinds).
    Other,
}

/// Value of an event: 0 created, 1 deleted, 2 renamed; the path (the old
/// one for a rename); the new path of a rename.
pub open spec fn event_view(e: FileSystemEvent) -> (int, Seq<char>, Seq<char>) {
    match e {
        FileSystemEvent::Created(p) => (0, p@, Seq::empty()),
        FileSystemEvent::Deleted(p) => (1, p@, Seq::empty()),
        FileSystemEvent::Renamed { from, to } => (2, from@, to@),
    }
}

/// One event of kind `tag` for each supported image among `paths`, in order.
pub open spec fn per_image(paths: Seq<Seq<char>>, tag: int) -> Seq<(int, Seq<char>, Seq<char>)>
    decreases paths.len(),
{
    if paths.len() == 0 {
        Seq::empty()
    } else {
        let rest = per_image(paths.drop_last(), tag);
        if spec_is_supported_image(paths.last()) {
            rest.push((tag, paths.last(), Seq::empty()))
        } else {
            rest
        }
    }
}

/// The index events a notification gives: creations and new names of
/// supported images are creations; removals and old names are deletions; a
/// two-path rename is a rename when either name is a supported image; other
/// changes give nothing.
pub open spec fn spec_classify(kind: NotifyKind, paths: Seq<Seq<char>>) -> Seq<(int, Seq<char>, Seq<char>)> {
    match kind {
        NotifyKind::Create | NotifyKind::RenameTo => per_image(paths, 0),
        NotifyKind::RenameFrom | NotifyKind::Remove => per_image(paths, 1),
        NotifyKind::RenameBoth => if paths.len() == 2 && (spec_is_supported_image(paths[0])
            || spec_is_supported_image(paths[1])) {
            seq![(2, paths[0], paths[1])]
        } else {
            Seq::empty()
        },
        NotifyKind::ModifyOther | NotifyKind::Other => Seq::empty(),
    }
}

/// A two-path rename reaches the index whenever either name is a supported
/// image: when the old name is one (whatever the new name), so that the old
/// entry is dropped, and when the new name is one, so that it is added. It
/// is one rename from the old name to the new; when neither name is a
/// supported image nothing happens.
pub proof fn law_rename_kept_when_either_name_is_an_image(from: Seq<char>, to: Seq<char>)
    ensures
        spec_is_supported_image(from) ==> spec_classify(NotifyKind::RenameBoth, seq![from, to]) == seq![
            (2int, from, to),
        ],
        spec_is_supported_image(to) ==> spec_classify(NotifyKind::RenameBoth, seq![from, to]) == seq![
            (2int, from, to),
        ],
        !spec_is_supported_image(from) && !spec_is_supported_image(to) ==> spec_classify(
            NotifyKind::RenameBoth,
            seq![from, to],
        ).len() == 0,
{
    let p = seq![from, to];
    assert(p[0] == from && p[1] == to);
}

/// A notification about one supported image gives exactly one event for
/// it: a creation for a new file or new name, a deletion for a removal or
/// old name; about a path that is not a supported image it gives nothing.
pub proof fn law_single_path_events(path: Seq<char>)
    ensures
        spec_is_supported_image(path) ==> spec_classify(NotifyKind::Create, seq![path]) == seq![
            (0int, path, Seq::<char>::empty()),
        ] && spec_classify(NotifyKind::RenameTo, seq![path]) == seq![(0int, path, Seq::<char>::empty())]
            && spec_classify(NotifyKind::Remove, seq![path]) == seq![(1int, path, Seq::<char>::empty())]
            && spec_classify(NotifyKind::RenameFrom, seq![path]) == seq![(1int, path, Seq::<char>::empty())],
        !spec_is_supported_image(path) ==> spec_classify(NotifyKind::Create, seq![path]).len() == 0
            && spec_classify(NotifyKind::Remove, seq![path]).len() == 0,
{
    let p = seq![path];
    assert(p.drop_last() =~= Seq::<Seq<char>>::empty());
    assert(per_image(p.drop_last(), 0) =~= Seq::<(int, Seq<char>, Seq<char>)>::empty());
    assert(per_image(p.drop_last(), 1) =~= Seq::<(int, Seq<char>, Seq<char>)>::empty());
    assert(Seq::<(int, Seq<char>, Seq<char>)>::empty().push((0int, path, Seq::<char>::empty())) =~= seq![
        (0int, path, Seq::<char>::empty()),
    ]);
    assert(Seq::<(int, Seq<char>, Seq<char>)>::empty().push((1int, path, Seq::<char>::empty())) =~= seq![
        (1int, path, Seq::<char>::empty()),
    ]);
}

/// Views of a list of paths.
pub open spec fn paths_view(paths: Seq<String>) -> Seq<Seq<char>> {
    paths.map_values(|p: String| p@)
}

fn events_for_images(paths: &Vec<String>, created: bool) -> (r: Vec<FileSystemEvent>)
    ensures
        r@.map_values(|e: FileSystemEvent| event_view(e)) == per_image(
            paths_view(paths@),
            if created { 0 } else { 1 },
        ),
{
    let ghost tag: int = if created { 0 } else { 1 };
    let mut out: Vec<FileSystemEvent> = Vec::new();
    let n = paths.len();
    let mut i: usize = 0;
    while i < n
        invariant
            n == paths@.len(),
            i <= n,
            tag == (if created { 0int } else { 1int }),
            out@.map_values(|e: FileSystemEvent| event_view(e)) == per_image(
                paths_view(paths@).take(i as int),
                tag,
            ),
        decreases n - i,
    {
        let ghost before = out@;
        let p = &paths[i];
        proof {
            let t = paths_view(paths@).take(i + 1);
            assert(t.drop_last() =~= paths_view(paths@).take(i as int));
            assert(t.last() == p@);
        }
        if is_supported_image(p.as_str()) {
            if created {
                out.push(FileSystemEvent::Created(p.clone()));
            } else {
                out.push(FileSystemEvent::Deleted(p.clone()));
            }
            proof {
                assert(out@.map_values(|e: FileSystemEvent| event_view(e)) =~= before.map_values(
                    |e: FileSystemEvent| event_view(e),
                ).push((tag, p@, Seq::empty())));
            }
        }
        i = i + 1;
    }
    proof {
        assert(paths_view(paths@).take(n as int) =~= paths_view(paths@));
    }
    out
}

/// The index events of a watcher notification with `paths`.
pub fn classify_notify_event(kind: NotifyKind, paths: &Vec<String>) -> (r: Vec<FileSystemEvent>)
    ensures
        r@.map_values(|e: FileSystemEvent| event_view(e)) == spec_classify(kind, paths_view(paths@)),
{
    match kind {
        NotifyKind::Create | NotifyKind::RenameTo => events_for_images(paths, true),
        NotifyKind::RenameFrom | NotifyKind::Remove => events_for_images(paths, false),
        NotifyKind::RenameBoth => {
            let mut out: Vec<FileSystemEvent> = Vec::new();
            if paths.len() == 2 {
                let from = &paths[0];
                let to = &paths[1];
                if is_supported_image(from.as_str()) || is_supported_image(to.as_str()) {
                    out.push(FileSystemEvent::Renamed { from: from.clone(), to: to.clone() });
                    proof {
                        assert(out@.map_values(|e: FileSystemEvent| event_view(e)) =~= seq![
                            (2int, from@, to@),
                        ]);
                    }
                }
            }
            proof {
                assert(out@.map_values(|e: FileSystemEvent| event_view(e)) =~= spec_classify(
                    kind,
                    paths_view(paths@),
                ));
            }
            out
        },
        NotifyKind::ModifyOther | NotifyKind::Other => {
            let out: Vec<FileSystemEvent> = Vec::new();
            proof {
                assert(out@.map_values(|e: FileSystemEvent| event_view(e)) =~= Seq::<
                    (int, Seq<char>, Seq<char>),
                >::empty());
            }
            out
        },
    }
}

/// What an event does to the index: the path to remove, if any, and the
/// path to add, if any (a rename removes the old name first).
pub fn index_updates(event: &FileSystemEvent) -> (r: (Option<String>, Option<String>))
    ensures
        match *event {
            FileSystemEvent::Created(p) => r.0 is None && (r.1 matches Some(a) && a@ == p@),
            FileSystemEvent::Deleted(p) => (r.0 matches Some(d) && d@ == p@) && r.1 is None,
            FileSystemEvent::Renamed { from, to } => (r.0 matches Some(d) && d@ == from@) && (
            r.1 matches Some(a) && a@ == to@),
        },
{
    match event {
        FileSystemEvent::Created(p) => (None, Some(p.clone())),
        FileSystemEvent::Deleted(p) => (Some(p.clone()), None),
        FileSystemEvent::Renamed { from, to } => (Some(from.clone()), Some(to.clone())),
    }
}

/// Creations and renames wait for the file to be written and are handled
/// concurrently; deletions are light and handled in order.
pub fn handled_concurrently(event: &FileSystemEvent) -> (r: bool)
    ensures
        r == !(*event is Deleted),
{
    match event {
        FileSystemEvent::Deleted(_) => false,
        _ => true,
    }
}

} // verus!
