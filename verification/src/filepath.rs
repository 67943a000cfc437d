//! The directory index: from directory keys to the paths of the managed tree.

use std::collections::VecDeque;
use vstd::prelude::*;
use crate::error::{ErrorType, FsmError, FsmErrorView};
use crate::path::{join, join_paths};
use crate::reader::DirectoryEntry;

verus! {

/// A directory of the managed tree that a walk visits: its subtree and its
/// path.
pub type Visit = (DirectoryEntry, Seq<char>);

/// The number of directories in a tree.
pub open spec fn tree_size(tree: DirectoryEntry) -> nat
    decreases tree,
{
    match tree {
        DirectoryEntry::LeafDirectory(_) => 1,
        DirectoryEntry::ParentDirectory(children) => 1 + forest_size(children@),
    }
}

/// The number of directories in the trees of a branch.
pub open spec fn forest_size(children: Seq<(String, DirectoryEntry)>) -> nat
    decreases children,
{
    if children.len() == 0 {
        0
    } else {
        forest_size(children.drop_last()) + tree_size(children.last().1)
    }
}

/// The subdirectories named by `children`, each below `path`.
pub open spec fn visits_of(children: Seq<(String, DirectoryEntry)>, path: Seq<char>) -> Seq<
    Visit,
> {
    Seq::new(children.len(), |i: int| (children[i].1, join(path, children[i].0@)))
}

/// The subdirectories of the directory `tree` at `path`, in their order.
pub open spec fn children_of(tree: DirectoryEntry, path: Seq<char>) -> Seq<Visit> {
    match tree {
        DirectoryEntry::LeafDirectory(_) => Seq::empty(),
        DirectoryEntry::ParentDirectory(children) => visits_of(children@, path),
    }
}

/// The number of directories in the trees of a queue.
pub open spec fn queue_size(queue: Seq<Visit>) -> nat
    decreases queue.len(),
{
    if queue.len() == 0 {
        0
    } else {
        queue_size(queue.drop_last()) + tree_size(queue.last().0)
    }
}

/// The visits of a breadth-first walk that has `queue` before it: the head of
/// the queue is visited, its subdirectories join the queue at the back.
pub open spec fn walk(queue: Seq<Visit>) -> Seq<Visit>
    decreases queue_size(queue),
{
    if queue.len() == 0 {
        Seq::empty()
    } else {
        proof {
            lemma_step_shrinks(queue);
        }
        seq![queue[0]] + walk(queue.drop_first() + children_of(queue[0].0, queue[0].1))
    }
}

/// What a sequence of visits leaves in the index: each leaf puts its key at
/// its path, a later leaf over an earlier one of the same key.
pub open spec fn record(visits: Seq<Visit>) -> Map<Seq<char>, Seq<char>>
    decreases visits.len(),
{
    if visits.len() == 0 {
        Map::empty()
    } else {
        let before = record(visits.drop_last());
        match visits.last().0 {
            DirectoryEntry::LeafDirectory(key) => before.insert(key@, visits.last().1),
            DirectoryEntry::ParentDirectory(_) => before,
        }
    }
}

/// The root of the managed tree below the managed directory `base`.
pub open spec fn managed_root(base: Seq<char>) -> Seq<char> {
    join(base, "categorized"@)
}

/// The directories of the managed tree in breadth-first order, the root
/// first.
pub open spec fn visits(base: Seq<char>, tree: DirectoryEntry) -> Seq<Visit> {
    walk(seq![(tree, managed_root(base))])
}

/// The paths of the directories that the managed tree consists of, in
/// breadth-first order.
pub open spec fn directory_plan(base: Seq<char>, tree: DirectoryEntry) -> Seq<Seq<char>> {
    visits(base, tree).map_values(|v: Visit| v.1)
}

/// The index of the managed tree `tree` below `base`.
pub open spec fn directory_index(base: Seq<char>, tree: DirectoryEntry) -> Map<
    Seq<char>,
    Seq<char>,
> {
    record(visits(base, tree))
}

/// The map that a list of pairs stands for, a later pair over an earlier one
/// of the same key.
pub open spec fn to_map(entries: Seq<(String, String)>) -> Map<Seq<char>, Seq<char>>
    decreases entries.len(),
{
    if entries.len() == 0 {
        Map::empty()
    } else {
        to_map(entries.drop_last()).insert(entries.last().0@, entries.last().1@)
    }
}

/// The views of a list of texts.
pub open spec fn views(list: Seq<String>) -> Seq<Seq<char>> {
    list.map_values(|s: String| s@)
}

proof fn lemma_queue_size_concat(a: Seq<Visit>, b: Seq<Visit>)
    ensures
        queue_size(a + b) == queue_size(a) + queue_size(b),
    decreases b.len(),
{
    if b.len() == 0 {
        assert(a + b =~= a);
    } else {
        assert((a + b).drop_last() =~= a + b.drop_last());
        lemma_queue_size_concat(a, b.drop_last());
    }
}

proof fn lemma_visits_size(children: Seq<(String, DirectoryEntry)>, path: Seq<char>)
    ensures
        queue_size(visits_of(children, path)) == forest_size(children),
    decreases children.len(),
{
    if children.len() > 0 {
        assert(visits_of(children, path).drop_last() =~= visits_of(children.drop_last(), path));
        lemma_visits_size(children.drop_last(), path);
    }
}

/// A step of the walk leaves fewer directories before it.
pub proof fn lemma_step_shrinks(queue: Seq<Visit>)
    requires
        queue.len() > 0,
    ensures
        queue_size(queue.drop_first() + children_of(queue[0].0, queue[0].1)) < queue_size(queue),
{
    let kids = children_of(queue[0].0, queue[0].1);
    lemma_queue_size_concat(queue.drop_first(), kids);
    assert(queue =~= seq![queue[0]] + queue.drop_first());
    lemma_queue_size_concat(seq![queue[0]], queue.drop_first());
    assert(seq![queue[0]].drop_last() =~= Seq::<Visit>::empty());
    assert(queue_size(Seq::<Visit>::empty()) == 0);
    assert(queue_size(seq![queue[0]]) == tree_size(queue[0].0));
    match queue[0].0 {
        DirectoryEntry::LeafDirectory(_) => {},
        DirectoryEntry::ParentDirectory(children) => {
            lemma_visits_size(children@, queue[0].1);
        },
    }
}

/// The walk visits its queue first, in order, and everything else behind
/// the directory that it lies in.
proof fn lemma_walk_order(queue: Seq<Visit>, k: int)
    requires
        0 <= k < walk(queue).len(),
    ensures
        walk(queue).len() >= queue.len(),
        k < queue.len() ==> walk(queue)[k] == queue[k],
        k >= queue.len() ==> exists|j: int|
            0 <= j < k && children_of(
                (#[trigger] walk(queue)[j]).0,
                walk(queue)[j].1,
            ).contains(walk(queue)[k]),
    decreases queue_size(queue), 1nat,
{
    lemma_walk_covers_queue(queue);
    if queue.len() > 0 && k > 0 {
        let kids = children_of(queue[0].0, queue[0].1);
        let rest = queue.drop_first() + kids;
        lemma_step_shrinks(queue);
        assert(walk(queue)[k] == walk(rest)[k - 1]);
        lemma_walk_order(rest, k - 1);
        if k < queue.len() {
            assert(rest[k - 1] == queue[k]);
        } else if k - 1 < rest.len() {
            assert(rest[k - 1] == kids[k - 1 - queue.drop_first().len()]);
            assert(walk(queue)[0] == queue[0]);
        } else {
            let j = choose|j: int|
                0 <= j < k - 1 && children_of((#[trigger] walk(rest)[j]).0, walk(rest)[j].1).contains(
                    walk(rest)[k - 1],
                );
            assert(walk(queue)[j + 1] == walk(rest)[j]);
        }
    }
}

/// The walk visits at least its queue.
proof fn lemma_walk_covers_queue(queue: Seq<Visit>)
    ensures
        walk(queue).len() >= queue.len(),
    decreases queue_size(queue), 0nat,
{
    if queue.len() > 0 {
        lemma_step_shrinks(queue);
        lemma_walk_covers_queue(queue.drop_first() + children_of(queue[0].0, queue[0].1));
    }
}

/// Whether `path` is what some name gives below the directory `parent`.
pub open spec fn directly_below(path: Seq<char>, parent: Seq<char>) -> bool {
    exists|name: Seq<char>| path == #[trigger] join(parent, name)
}

/// Parents come first: every directory of the plan but the root lies
/// directly below one that stands before it, so that creating them in this
/// order never lacks a parent.
pub proof fn lemma_parents_come_first(base: Seq<char>, tree: DirectoryEntry, i: int)
    requires
        0 < i < directory_plan(base, tree).len(),
    ensures
        exists|j: int|
            0 <= j < i && directly_below(
                directory_plan(base, tree)[i],
                #[trigger] directory_plan(base, tree)[j],
            ),
{
    let seen = visits(base, tree);
    lemma_walk_order(seq![(tree, managed_root(base))], i);
    let j = choose|j: int|
        0 <= j < i && children_of((#[trigger] seen[j]).0, seen[j].1).contains(seen[i]);
    let kids = children_of(seen[j].0, seen[j].1);
    let m = choose|m: int| 0 <= m < kids.len() && kids[m] == seen[i];
    match seen[j].0 {
        DirectoryEntry::LeafDirectory(_) => {},
        DirectoryEntry::ParentDirectory(children) => {
            assert(directory_plan(base, tree)[j] == seen[j].1);
            assert(directory_plan(base, tree)[i] == join(
                directory_plan(base, tree)[j],
                children@[m].0@,
            ));
        },
    }
}

/// Whether `visit` is the visit of a leaf that names `key`.
pub open spec fn names_key(visit: Visit, key: Seq<char>) -> bool {
    match visit.0 {
        DirectoryEntry::LeafDirectory(name) => name@ == key,
        DirectoryEntry::ParentDirectory(_) => false,
    }
}

/// What the index holds comes from a leaf of the walk: the key is the
/// leaf's, the path is where the leaf was visited.
pub proof fn lemma_recorded_keys_are_leaves(visits: Seq<Visit>, key: Seq<char>)
    requires
        record(visits).dom().contains(key),
    ensures
        exists|i: int|
            0 <= i < visits.len() && names_key(#[trigger] visits[i], key) && visits[i].1 == record(
                visits,
            )[key],
    decreases visits.len(),
{
    if visits.len() > 0 {
        let front = visits.drop_last();
        let last = visits.last();
        if names_key(last, key) {
            assert(visits[visits.len() - 1] == last);
        } else {
            assert(record(front).dom().contains(key));
            lemma_recorded_keys_are_leaves(front, key);
            let i = choose|i: int|
                0 <= i < front.len() && names_key(#[trigger] front[i], key) && front[i].1
                    == record(front)[key];
            assert(visits[i] == front[i]);
        }
    }
}

/// Every key of the index stands for a directory of the managed tree: its
/// path is among those that the build asks to exist, and the first of those
/// is the root of the tree.
pub proof fn lemma_index_paths_are_planned(base: Seq<char>, tree: DirectoryEntry, key: Seq<char>)
    requires
        directory_index(base, tree).dom().contains(key),
    ensures
        directory_plan(base, tree).contains(directory_index(base, tree)[key]),
        directory_plan(base, tree)[0] == managed_root(base),
{
    let seen = visits(base, tree);
    lemma_recorded_keys_are_leaves(seen, key);
    let i = choose|i: int|
        0 <= i < seen.len() && names_key(#[trigger] seen[i], key) && seen[i].1 == record(
            seen,
        )[key];
    assert(directory_plan(base, tree)[i] == seen[i].1);
    assert(seen[0] == (tree, managed_root(base)));
}

proof fn lemma_lookup(entries: Seq<(String, String)>, key: Seq<char>, k: int)
    requires
        0 <= k < entries.len(),
        entries[k].0@ == key,
        forall|j: int| k < j < entries.len() ==> (#[trigger] entries[j]).0@ != key,
    ensures
        to_map(entries).dom().contains(key),
        to_map(entries)[key] == entries[k].1@,
    decreases entries.len(),
{
    if k < entries.len() - 1 {
        let front = entries.drop_last();
        assert(front[k] == entries[k]);
        assert forall|j: int| k < j < front.len() implies (#[trigger] front[j]).0@ != key by {
            assert(front[j] == entries[j]);
        }
        lemma_lookup(front, key, k);
        assert(entries.last().0@ != key);
    }
}

proof fn lemma_absent(entries: Seq<(String, String)>, key: Seq<char>)
    requires
        forall|j: int| 0 <= j < entries.len() ==> (#[trigger] entries[j]).0@ != key,
    ensures
        !to_map(entries).dom().contains(key),
    decreases entries.len(),
{
    if entries.len() > 0 {
        let front = entries.drop_last();
        assert forall|j: int| 0 <= j < front.len() implies (#[trigger] front[j]).0@ != key by {
            assert(front[j] == entries[j]);
        }
        lemma_absent(front, key);
        assert(entries.last().0@ != key);
    }
}

/// The queue of a walk as it stands in memory.
spec fn pending(queue: Seq<(&DirectoryEntry, String)>) -> Seq<Visit> {
    Seq::new(queue.len(), |i: int| (*queue[i].0, queue[i].1@))
}

/// Walks the tree breadth-first and gives the paths of its directories in
/// that order, and the pairs of key and path that its leaves stand for.
fn survey(base: &str, tree: &DirectoryEntry) -> (found: (Vec<String>, Vec<(String, String)>))
    ensures
        views(found.0@) == directory_plan(base@, *tree),
        to_map(found.1@) == directory_index(base@, *tree),
{
    let root = join_paths(base, "categorized");
    let mut queue: VecDeque<(&DirectoryEntry, String)> = VecDeque::new();
    queue.push_back((tree, root));
    let mut dirs: Vec<String> = Vec::new();
    let mut entries: Vec<(String, String)> = Vec::new();
    let ghost start = pending(queue@);
    let ghost mut done: Seq<Visit> = Seq::empty();
    proof {
        assert(start =~= seq![(*tree, managed_root(base@))]);
        assert(views(dirs@) =~= done.map_values(|v: Visit| v.1));
        assert(done + walk(start) =~= walk(start));
    }
    while queue.len() > 0
        invariant
            walk(start) == done + walk(pending(queue@)),
            to_map(entries@) == record(done),
            views(dirs@) == done.map_values(|v: Visit| v.1),
        decreases queue_size(pending(queue@)),
    {
        let ghost todo = pending(queue@);
        let ghost listed = entries@;
        let ghost named = dirs@;
        proof {
            lemma_step_shrinks(todo);
        }
        match queue.pop_front() {
            Some((entry, path)) => {
                let ghost rest = queue@;
                assert(todo[0] == (*entry, path@));
                assert(pending(rest) =~= todo.drop_first());
                dirs.push(path.clone());
                assert(views(dirs@) =~= views(named).push(path@));
                match entry {
                    DirectoryEntry::LeafDirectory(key) => {
                        entries.push((key.clone(), path));
                        assert(entries@.drop_last() =~= listed);
                        assert(pending(queue@) =~= todo.drop_first() + children_of(
                            *entry,
                            todo[0].1,
                        ));
                    },
                    DirectoryEntry::ParentDirectory(children) => {
                        let mut j: usize = 0;
                        assert(pending(queue@) =~= todo.drop_first() + visits_of(
                            children@,
                            path@,
                        ).take(0));
                        while j < children.len()
                            invariant
                                j <= children.len(),
                                todo.len() > 0,
                                pending(queue@) == todo.drop_first() + visits_of(
                                    children@,
                                    path@,
                                ).take(j as int),
                            decreases children.len() - j,
                        {
                            let ghost earlier = pending(queue@);
                            let child = join_paths(path.as_str(), children[j].0.as_str());
                            queue.push_back((&children[j].1, child));
                            assert(pending(queue@) =~= earlier.push(
                                visits_of(children@, path@)[j as int],
                            ));
                            assert(pending(queue@) =~= todo.drop_first() + visits_of(
                                children@,
                                path@,
                            ).take(j as int + 1));
                            j += 1;
                        }
                        assert(visits_of(children@, path@).take(children@.len() as int)
                            =~= visits_of(children@, path@));
                    },
                }
                proof {
                    assert((done.push(todo[0])).drop_last() =~= done);
                    assert(done.push(todo[0]).map_values(|v: Visit| v.1) =~= done.map_values(
                        |v: Visit| v.1,
                    ).push(todo[0].1));
                    assert(done.push(todo[0]) + walk(pending(queue@)) =~= done + walk(todo));
                    done = done.push(todo[0]);
                }
            },
            None => {},
        }
    }
    proof {
        assert(pending(queue@) =~= Seq::<Visit>::empty());
        assert(done + walk(pending(queue@)) =~= done);
    }
    (dirs, entries)
}

/// The directory index: which path each directory key stands for.
#[derive(Debug)]
pub struct FilepathManager {
    directory_mapping: Vec<(String, String)>,
}

impl View for FilepathManager {
    type V = Map<Seq<char>, Seq<char>>;

    closed spec fn view(&self) -> Map<Seq<char>, Seq<char>> {
        to_map(self.directory_mapping@)
    }
}

impl FilepathManager {
    /// The directories that the managed tree consists of, the root first and
    /// every directory behind its parent: the order in which to create them.
    pub fn directories(base_managed_directory: &str, directory_structure: &DirectoryEntry) -> (dirs:
        Vec<String>)
        ensures
            views(dirs@) == directory_plan(base_managed_directory@, *directory_structure),
    {
        let found = survey(base_managed_directory, directory_structure);
        found.0
    }

    /// Builds the index of the managed tree below `base_managed_directory`.
    /// `creation` says how the directories of `directories` came to exist:
    /// `Ok` where each is there, else the cause of the first failure. A
    /// failure gives no index, not even a partial one.
    pub fn new(
        base_managed_directory: &str,
        directory_structure: &DirectoryEntry,
        creation: Result<(), String>,
    ) -> (built: Result<Self, FsmError>)
        ensures
            match creation {
                Ok(_) => built matches Ok(index) && index@ == directory_index(
                    base_managed_directory@,
                    *directory_structure,
                ),
                Err(cause) => built matches Err(error) && error@ == (FsmErrorView {
                    error_type: ErrorType::FilesystemFailure,
                    message: cause@,
                }),
            },
    {
        match creation {
            Ok(_) => {
                let found = survey(base_managed_directory, directory_structure);
                Ok(Self { directory_mapping: found.1 })
            },
            Err(cause) => Err(FsmError::new(ErrorType::FilesystemFailure, cause)),
        }
    }

    /// The path that `directory_key` stands for.
    pub fn get(&self, directory_key: &str) -> (found: Option<&String>)
        ensures
            match found {
                Some(path) => self@.dom().contains(directory_key@) && self@[directory_key@]
                    == path@,
                None => !self@.dom().contains(directory_key@),
            },
    {
        let mut i: usize = self.directory_mapping.len();
        while i > 0
            invariant
                i <= self.directory_mapping.len(),
                forall|j: int|
                    i <= j < self.directory_mapping.len() ==> (
                    #[trigger] self.directory_mapping@[j]).0@ != directory_key@,
            decreases i,
        {
            i -= 1;
            if crate::text::same_text(self.directory_mapping[i].0.as_str(), directory_key) {
                proof {
                    lemma_lookup(self.directory_mapping@, directory_key@, i as int);
                }
                return Some(&self.directory_mapping[i].1);
            }
        }
        proof {
            lemma_absent(self.directory_mapping@, directory_key@);
        }
        None
    }

    /// The pairs of key and path behind the index, a later pair over an
    /// earlier one of the same key.
    pub fn map_ref(&self) -> (entries: &Vec<(String, String)>)
        ensures
            to_map(entries@) == self@,
    {
        &self.directory_mapping
    }
}

} // verus!
