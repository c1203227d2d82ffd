//! Behavioral tests: a small simulated directory tree drives the walker
//! through its request/outcome protocol, the way a real driver would.

use file_walker::walker::EntryKind;
use file_walker::walker::FileWalker;
use file_walker::walker::KindOutcome;
use file_walker::walker::OpenOutcome;
use file_walker::walker::ReadOutcome;
use file_walker::walker::Request;
use file_walker::walker::Step;
use file_walker::walker::WalkError;
use file_walker::walker::is_hidden_name;

/// One simulated filesystem node.
enum Node {
    /// A leaf of this kind (regular file, socket, pipe, ...).
    Leaf(EntryKind),
    /// A leaf whose kind query fails (metadata unreadable).
    NoMeta,
    /// A directory with these children, listed in this order.
    Dir(Vec<(Vec<u8>, Node)>),
    /// A directory whose listing cannot be opened (permission denied).
    DirUnreadable,
}

/// One item a simulated listing hands out: a child, or a read failure.
enum ListItem {
    Item(Vec<u8>, Node),
    ReadFail,
}

/// The simulated filesystem side of the protocol: open listings by
/// handle, plus the entry read last (pending classification/descent).
struct Sim {
    listings: Vec<Vec<ListItem>>,
    pending: Option<Node>,
}

impl Sim {
    /// Opens the root listing and returns (sim, root handle).
    fn open_root(children: Vec<(Vec<u8>, Node)>) -> (Sim, u64) {
        let mut items: Vec<ListItem> =
            children.into_iter().map(|(n, c)| ListItem::Item(n, c)).collect();
        items.reverse();
        (Sim { listings: vec![items], pending: None }, 0)
    }

    /// Opens a root listing given directly as items (to plant read
    /// failures).
    fn open_root_items(mut items: Vec<ListItem>) -> (Sim, u64) {
        items.reverse();
        (Sim { listings: vec![items], pending: None }, 0)
    }

    fn read(&mut self, handle: u64) -> ReadOutcome {
        match self.listings[handle as usize].pop() {
            None => ReadOutcome::End,
            Some(ListItem::ReadFail) => ReadOutcome::Failed,
            Some(ListItem::Item(name, node)) => {
                self.pending = Some(node);
                ReadOutcome::Entry(name)
            }
        }
    }

    fn kind(&self) -> KindOutcome {
        match self.pending.as_ref().expect("kind query without a pending entry") {
            Node::Leaf(kind) => KindOutcome::Known(*kind),
            Node::NoMeta => KindOutcome::Failed,
            Node::Dir(_) | Node::DirUnreadable => KindOutcome::Known(EntryKind::Directory),
        }
    }

    fn open(&mut self) -> OpenOutcome {
        match self.pending.take().expect("open without a pending entry") {
            Node::Dir(children) => {
                let mut items: Vec<ListItem> =
                    children.into_iter().map(|(n, c)| ListItem::Item(n, c)).collect();
                items.reverse();
                self.listings.push(items);
                OpenOutcome::Opened((self.listings.len() - 1) as u64)
            }
            Node::DirUnreadable => OpenOutcome::Failed,
            _ => panic!("open of a non-directory"),
        }
    }
}

/// One advance of the walk, as the original iterator would perform it:
/// loops over internal steps until an entry, an error, or the end.
fn advance(w: &mut FileWalker, sim: &mut Sim) -> Option<Result<(Vec<u8>, EntryKind), WalkError>> {
    loop {
        match w.request() {
            Request::Done => return None,
            Request::ReadNext(handle) => {
                let out = sim.read(handle);
                match w.on_read(out) {
                    Step::Continue => {}
                    Step::Fail(e) => return Some(Err(e)),
                    Step::Yield(..) => unreachable!("a read never yields"),
                }
            }
            Request::QueryKind => match w.on_kind(sim.kind()) {
                Step::Continue => {}
                Step::Yield(name, kind) => return Some(Ok((name, kind))),
                Step::Fail(e) => return Some(Err(e)),
            },
            Request::OpenSubdir => {
                let out = sim.open();
                match w.on_open(out) {
                    Step::Continue => {}
                    Step::Fail(e) => return Some(Err(e)),
                    Step::Yield(..) => unreachable!("an open never yields"),
                }
            }
        }
    }
}

/// Runs a walk to the end, collecting successes and errors.
fn run(
    mut w: FileWalker,
    sim: &mut Sim,
) -> (Vec<(Vec<u8>, EntryKind)>, Vec<WalkError>) {
    let mut yielded = Vec::new();
    let mut errors = Vec::new();
    while let Some(result) = advance(&mut w, sim) {
        match result {
            Ok(entry) => yielded.push(entry),
            Err(e) => errors.push(e),
        }
    }
    (yielded, errors)
}

fn name(bytes: &[u8]) -> Vec<u8> {
    bytes.to_vec()
}

fn sorted_names(yielded: &[(Vec<u8>, EntryKind)]) -> Vec<Vec<u8>> {
    let mut names: Vec<Vec<u8>> = yielded.iter().map(|(n, _)| n.clone()).collect();
    names.sort();
    names
}

#[test]
fn open_starts_at_root_with_defaults() {
    let w = FileWalker::open(7);
    assert_eq!(w.request(), Request::ReadNext(7));
    assert!(!w.filter_hidden_files);
    assert!(!w.file_only);
}

#[test]
fn builders_set_only_their_flag() {
    let w = FileWalker::open(0).filter_hidden_items(true).file_only(true);
    assert!(w.filter_hidden_files);
    assert!(w.file_only);
    let w = w.filter_hidden_items(false);
    assert!(!w.filter_hidden_files);
    assert!(w.file_only);
    assert_eq!(w.request(), Request::ReadNext(0));
}

#[test]
fn empty_directory_ends_immediately() {
    let (mut sim, root) = Sim::open_root(vec![]);
    let mut w = FileWalker::open(root);
    assert!(advance(&mut w, &mut sim).is_none());
    assert_eq!(w.request(), Request::Done);
}

#[test]
fn end_of_sequence_is_idempotent() {
    let (mut sim, root) = Sim::open_root(vec![(name(b"a"), Node::Leaf(EntryKind::RegularFile))]);
    let mut w = FileWalker::open(root);
    assert!(advance(&mut w, &mut sim).unwrap().is_ok());
    assert!(advance(&mut w, &mut sim).is_none());
    for _ in 0..5 {
        assert_eq!(w.request(), Request::Done);
        assert!(advance(&mut w, &mut sim).is_none());
    }
}

#[test]
fn files_only_yields_each_regular_file_exactly_once() {
    // N = 4 regular files, M = 2 subdirectories, plus two special
    // entries that must be filtered out.
    let tree = vec![
        (name(b"a.txt"), Node::Leaf(EntryKind::RegularFile)),
        (name(b"sock"), Node::Leaf(EntryKind::Other)),
        (
            name(b"sub1"),
            Node::Dir(vec![
                (name(b"b.txt"), Node::Leaf(EntryKind::RegularFile)),
                (
                    name(b"sub2"),
                    Node::Dir(vec![
                        (name(b"c.txt"), Node::Leaf(EntryKind::RegularFile)),
                        (name(b"fifo"), Node::Leaf(EntryKind::Other)),
                    ]),
                ),
            ]),
        ),
        (name(b"d.txt"), Node::Leaf(EntryKind::RegularFile)),
    ];
    let (mut sim, root) = Sim::open_root(tree);
    let w = FileWalker::open(root).file_only(true);
    let (yielded, errors) = run(w, &mut sim);
    assert!(errors.is_empty());
    assert_eq!(yielded.len(), 4);
    assert!(yielded.iter().all(|(_, k)| *k == EntryKind::RegularFile));
    assert_eq!(
        sorted_names(&yielded),
        vec![name(b"a.txt"), name(b"b.txt"), name(b"c.txt"), name(b"d.txt")]
    );
}

#[test]
fn filter_hidden_skips_files_and_whole_subtrees() {
    let tree = vec![
        (name(b".hidden.txt"), Node::Leaf(EntryKind::RegularFile)),
        (
            name(b".git"),
            Node::Dir(vec![(name(b"visible_inside.txt"), Node::Leaf(EntryKind::RegularFile))]),
        ),
        (name(b"kept.txt"), Node::Leaf(EntryKind::RegularFile)),
    ];
    let (mut sim, root) = Sim::open_root(tree);
    let w = FileWalker::open(root).filter_hidden_items(true);
    let (yielded, errors) = run(w, &mut sim);
    assert!(errors.is_empty());
    // The hidden file is not yielded, and the hidden directory is not
    // descended into: even its non-hidden contents never appear.
    assert_eq!(sorted_names(&yielded), vec![name(b"kept.txt")]);
}

#[test]
fn every_non_directory_kind_yielded_without_files_only() {
    let tree = vec![
        (name(b"regular"), Node::Leaf(EntryKind::RegularFile)),
        (name(b"socket"), Node::Leaf(EntryKind::Other)),
        (name(b"symlink"), Node::Leaf(EntryKind::Other)),
        (name(b"empty_dir"), Node::Dir(vec![])),
    ];
    let (mut sim, root) = Sim::open_root(tree);
    let w = FileWalker::open(root).file_only(false);
    let (yielded, errors) = run(w, &mut sim);
    assert!(errors.is_empty());
    // Every non-directory entry appears, tagged with its kind; the
    // directory itself is never yielded.
    assert_eq!(yielded.len(), 3);
    let mut tagged: Vec<(Vec<u8>, EntryKind)> = yielded;
    tagged.sort();
    assert_eq!(
        tagged,
        vec![
            (name(b"regular"), EntryKind::RegularFile),
            (name(b"socket"), EntryKind::Other),
            (name(b"symlink"), EntryKind::Other),
        ]
    );
}

#[test]
fn unreadable_subdirectory_skipped_rest_still_walked() {
    let tree = vec![
        (name(b"a.txt"), Node::Leaf(EntryKind::RegularFile)),
        (name(b"locked"), Node::DirUnreadable),
        (
            name(b"open"),
            Node::Dir(vec![(name(b"b.txt"), Node::Leaf(EntryKind::RegularFile))]),
        ),
        (name(b"c.txt"), Node::Leaf(EntryKind::RegularFile)),
    ];
    let (mut sim, root) = Sim::open_root(tree);
    let w = FileWalker::open(root);
    let (yielded, errors) = run(w, &mut sim);
    // Exactly one error, for the blocked descent; every entry outside
    // the blocked subtree is still reached.
    assert_eq!(errors, vec![WalkError::DescendError]);
    assert_eq!(
        sorted_names(&yielded),
        vec![name(b"a.txt"), name(b"b.txt"), name(b"c.txt")]
    );
}

fn scenario_tree() -> Vec<(Vec<u8>, Node)> {
    vec![
        (name(b"a.txt"), Node::Leaf(EntryKind::RegularFile)),
        (name(b".hidden.txt"), Node::Leaf(EntryKind::RegularFile)),
        (
            name(b"sub"),
            Node::Dir(vec![(name(b"b.txt"), Node::Leaf(EntryKind::RegularFile))]),
        ),
    ]
}

#[test]
fn scenario_three_entries_unfiltered() {
    let (mut sim, root) = Sim::open_root(scenario_tree());
    let w = FileWalker::open(root).filter_hidden_items(false).file_only(false);
    let (yielded, errors) = run(w, &mut sim);
    assert!(errors.is_empty());
    assert_eq!(
        sorted_names(&yielded),
        vec![name(b".hidden.txt"), name(b"a.txt"), name(b"b.txt")]
    );
}

#[test]
fn scenario_two_entries_with_hidden_filter() {
    let (mut sim, root) = Sim::open_root(scenario_tree());
    let w = FileWalker::open(root).filter_hidden_items(true);
    let (yielded, errors) = run(w, &mut sim);
    assert!(errors.is_empty());
    assert_eq!(sorted_names(&yielded), vec![name(b"a.txt"), name(b"b.txt")]);
}

#[test]
fn listing_read_error_surfaces_then_same_listing_continues() {
    let (mut sim, root) = Sim::open_root_items(vec![
        ListItem::Item(name(b"a.txt"), Node::Leaf(EntryKind::RegularFile)),
        ListItem::ReadFail,
        ListItem::Item(name(b"b.txt"), Node::Leaf(EntryKind::RegularFile)),
    ]);
    let mut w = FileWalker::open(root);
    assert_eq!(
        advance(&mut w, &mut sim).unwrap().unwrap(),
        (name(b"a.txt"), EntryKind::RegularFile)
    );
    assert_eq!(
        advance(&mut w, &mut sim).unwrap().unwrap_err(),
        WalkError::ListingReadError
    );
    // The walker stays on the same listing and re-reads it.
    assert_eq!(w.request(), Request::ReadNext(root));
    assert_eq!(
        advance(&mut w, &mut sim).unwrap().unwrap(),
        (name(b"b.txt"), EntryKind::RegularFile)
    );
    assert!(advance(&mut w, &mut sim).is_none());
}

#[test]
fn metadata_error_skips_entry_and_continues_with_siblings() {
    let tree = vec![
        (name(b"odd"), Node::NoMeta),
        (name(b"a.txt"), Node::Leaf(EntryKind::RegularFile)),
    ];
    let (mut sim, root) = Sim::open_root(tree);
    let w = FileWalker::open(root);
    let (yielded, errors) = run(w, &mut sim);
    assert_eq!(errors, vec![WalkError::MetadataError]);
    assert_eq!(sorted_names(&yielded), vec![name(b"a.txt")]);
}

#[test]
fn hidden_check_is_a_leading_dot_byte() {
    assert!(is_hidden_name(&name(b".x")));
    assert!(is_hidden_name(&name(b".")));
    assert!(is_hidden_name(&name(b"..")));
    assert!(!is_hidden_name(&name(b"x.y")));
    assert!(!is_hidden_name(&name(b"")));
}

#[test]
fn hidden_filter_checked_before_kind_query() {
    // A hidden entry is skipped before its kind is even asked for: the
    // next request after reporting it is another read, not a kind query.
    let (mut sim, root) =
        Sim::open_root(vec![(name(b".skip"), Node::Leaf(EntryKind::RegularFile))]);
    let mut w = FileWalker::open(root).filter_hidden_items(true);
    assert_eq!(w.request(), Request::ReadNext(root));
    let out = sim.read(root);
    match w.on_read(out) {
        Step::Continue => {}
        _ => panic!("a hidden entry must be skipped silently"),
    }
    assert_eq!(w.request(), Request::ReadNext(root));
}

#[test]
fn directories_descended_but_never_yielded() {
    let tree = vec![(
        name(b"only_dirs"),
        Node::Dir(vec![(name(b"inner"), Node::Dir(vec![]))]),
    )];
    let (mut sim, root) = Sim::open_root(tree);
    let w = FileWalker::open(root);
    let (yielded, errors) = run(w, &mut sim);
    assert!(errors.is_empty());
    assert!(yielded.is_empty());
}
