//! The repository served to cargo, built in memory: a tree of directories
//! and files, each directory keeping its entries in the order they were
//! first written.
use vstd::prelude::*;

use crate::text::str_eq;

verus! {

/// An entry of a directory: a file with its content, or a directory.
pub enum TreeItem {
    Blob(Vec<u8>),
    Tree(RepoTree),
}

/// A directory: named entries, in the order they were first written. Where
/// two entries share a name, the first is the one that counts.
pub struct RepoTree {
    pub entries: Vec<(String, TreeItem)>,
}

/// Why a file could not be written.
#[derive(Clone, Copy, PartialEq, Eq, Structural, Debug)]
pub enum RepoError {
    /// A directory on the path is a file.
    FileAsDirectory,
}

/// The item the first entry named `name` holds.
pub open spec fn lookup(entries: Seq<(String, TreeItem)>, name: Seq<char>) -> Option<TreeItem>
    decreases entries.len(),
{
    if entries.len() == 0 {
        None
    } else if entries[0].0@ == name {
        Some(entries[0].1)
    } else {
        lookup(entries.drop_first(), name)
    }
}

/// The item at `path` below `tree`: each name but the last must be a
/// directory.
pub open spec fn item_at(tree: RepoTree, path: Seq<Seq<char>>) -> Option<TreeItem>
    decreases path.len(),
{
    if path.len() == 0 {
        None
    } else {
        match lookup(tree.entries@, path[0]) {
            None => None,
            Some(item) => if path.len() == 1 {
                Some(item)
            } else {
                match item {
                    TreeItem::Tree(sub) => item_at(sub, path.drop_first()),
                    TreeItem::Blob(_) => None,
                }
            },
        }
    }
}

/// The content of the file at `path` below `tree`, if a file is there.
pub open spec fn file_at(tree: RepoTree, path: Seq<Seq<char>>) -> Option<Seq<u8>> {
    match item_at(tree, path) {
        Some(TreeItem::Blob(content)) => Some(content@),
        _ => None,
    }
}

/// Whether walking the directories `dirs` below `tree` meets a file.
pub open spec fn blocked(tree: RepoTree, dirs: Seq<Seq<char>>) -> bool
    decreases dirs.len(),
{
    if dirs.len() == 0 {
        false
    } else {
        match lookup(tree.entries@, dirs[0]) {
            None => false,
            Some(TreeItem::Blob(_)) => true,
            Some(TreeItem::Tree(sub)) => blocked(sub, dirs.drop_first()),
        }
    }
}

/// The file at `path` once `content` is written to `target` below `tree`:
/// the new content at the target, nothing below it, and what was there
/// before everywhere else.
pub open spec fn after_write(tree: RepoTree, target: Seq<Seq<char>>, content: Seq<u8>, path: Seq<Seq<char>>) -> Option<Seq<u8>> {
    if path == target {
        Some(content)
    } else if target.len() < path.len() && path.take(target.len() as int) == target {
        None
    } else {
        file_at(tree, path)
    }
}

/// The views of a list of names.
pub open spec fn names_view(names: Seq<&str>) -> Seq<Seq<char>> {
    names.map_values(|n: &str| n@)
}

proof fn lemma_lookup_first(entries: Seq<(String, TreeItem)>, name: Seq<char>, i: int)
    requires
        0 <= i < entries.len(),
        entries[i].0@ == name,
        forall|j: int| 0 <= j < i ==> entries[j].0@ != name,
    ensures
        lookup(entries, name) == Some(entries[i].1),
    decreases i,
{
    if i > 0 {
        lemma_lookup_first(entries.drop_first(), name, i - 1);
    }
}

proof fn lemma_lookup_absent(entries: Seq<(String, TreeItem)>, name: Seq<char>)
    requires
        forall|j: int| 0 <= j < entries.len() ==> entries[j].0@ != name,
    ensures
        lookup(entries, name) is None,
    decreases entries.len(),
{
    if entries.len() > 0 {
        lemma_lookup_absent(entries.drop_first(), name);
    }
}

/// Replacing the item of the first entry named `name` leaves every other
/// name's lookup as it was.
proof fn lemma_lookup_update(entries: Seq<(String, TreeItem)>, i: int, item: TreeItem, other: Seq<char>)
    requires
        0 <= i < entries.len(),
        forall|j: int| 0 <= j < i ==> entries[j].0@ != entries[i].0@,
    ensures
        lookup(entries.update(i, (entries[i].0, item)), entries[i].0@) == Some(item),
        other != entries[i].0@ ==> lookup(entries.update(i, (entries[i].0, item)), other) == lookup(
            entries,
            other,
        ),
    decreases i,
{
    let updated = entries.update(i, (entries[i].0, item));
    if i == 0 {
        assert(updated.drop_first() =~= entries.drop_first());
    } else {
        lemma_lookup_update(entries.drop_first(), i - 1, item, other);
        assert(updated.drop_first() =~= entries.drop_first().update(
            i - 1,
            (entries[i].0, item),
        ));
    }
}

/// Appending an entry under a name no entry has leaves every other name's
/// lookup as it was.
proof fn lemma_lookup_push(entries: Seq<(String, TreeItem)>, entry: (String, TreeItem), other: Seq<char>)
    requires
        lookup(entries, entry.0@) is None,
    ensures
        lookup(entries.push(entry), entry.0@) == Some(entry.1),
        other != entry.0@ ==> lookup(entries.push(entry), other) == lookup(entries, other),
    decreases entries.len(),
{
    if entries.len() > 0 {
        lemma_lookup_push(entries.drop_first(), entry, other);
        assert(entries.push(entry).drop_first() =~= entries.drop_first().push(entry));
    } else {
        assert(entries.push(entry).drop_first() =~= entries);
    }
}

/// The index of the first entry named `name`, or the number of entries.
fn find_entry(entries: &Vec<(String, TreeItem)>, name: &str) -> (r: usize)
    ensures
        r <= entries@.len(),
        forall|j: int| 0 <= j < r ==> entries@[j].0@ != name@,
        r < entries@.len() ==> entries@[r as int].0@ == name@,
{
    let mut i: usize = 0;
    while i < entries.len()
        invariant
            i <= entries@.len(),
            forall|j: int| 0 <= j < i ==> entries@[j].0@ != name@,
        decreases entries@.len() - i,
    {
        if str_eq(entries[i].0.as_str(), name) {
            return i;
        }
        i = i + 1;
    }
    i
}

/// A copy of a string.
fn copy_str(s: &str) -> (r: String)
    ensures
        r@ == s@,
{
    s.to_owned()
}

/// What happens below a directory when `content` is written to
/// `dirs + [file]`.
pub open spec fn write_outcome(
    before: RepoTree,
    after: RepoTree,
    dirs: Seq<Seq<char>>,
    file: Seq<char>,
    content: Seq<u8>,
) -> bool {
    forall|path: Seq<Seq<char>>| #[trigger]
        file_at(after, path) == after_write(before, dirs.push(file), content, path)
}

impl RepoTree {
    /// An empty directory.
    pub fn new() -> (r: RepoTree)
        ensures
            r.entries@.len() == 0,
    {
        RepoTree { entries: Vec::new() }
    }
}

proof fn lemma_empty_tree(tree: RepoTree, path: Seq<Seq<char>>)
    requires
        tree.entries@.len() == 0,
    ensures
        file_at(tree, path) is None,
        !blocked(tree, path),
{
}

/// Whether walking the directories `dirs[k..]` below `tree` meets a file.
fn is_blocked(tree: &RepoTree, dirs: &[&str], k: usize) -> (r: bool)
    requires
        k <= dirs@.len(),
    ensures
        r == blocked(*tree, names_view(dirs@).skip(k as int)),
    decreases dirs@.len() - k,
{
    let ghost rest = names_view(dirs@).skip(k as int);
    if k == dirs.len() {
        return false;
    }
    assert(rest[0] == dirs@[k as int]@);
    assert(rest.drop_first() =~= names_view(dirs@).skip(k + 1));
    let i = find_entry(&tree.entries, dirs[k]);
    if i == tree.entries.len() {
        proof {
            lemma_lookup_absent(tree.entries@, rest[0]);
        }
        return false;
    }
    proof {
        lemma_lookup_first(tree.entries@, rest[0], i as int);
    }
    match &tree.entries[i].1 {
        TreeItem::Blob(_) => true,
        TreeItem::Tree(sub) => is_blocked(sub, dirs, k + 1),
    }
}

/// Writes `content` to `file` in the directory `dirs[k..]` below `tree`,
/// making the missing directories.
fn write_below(tree: RepoTree, dirs: &[&str], k: usize, file: &str, content: &[u8]) -> (r: RepoTree)
    requires
        k <= dirs@.len(),
        !blocked(tree, names_view(dirs@).skip(k as int)),
    ensures
        write_outcome(tree, r, names_view(dirs@).skip(k as int), file@, content@),
    decreases dirs@.len() - k,
{
    let ghost rest = names_view(dirs@).skip(k as int);
    let ghost target = rest.push(file@);
    let ghost old_tree = tree;
    let ghost old_entries = tree.entries@;
    let mut tree = tree;
    if k == dirs.len() {
        assert(rest =~= Seq::<Seq<char>>::empty());
        let i = find_entry(&tree.entries, file);
        let blob = vstd::slice::slice_to_vec(content);
        if i < tree.entries.len() {
            let (name, _old_item) = tree.entries.remove(i);
            tree.entries.insert(i, (name, TreeItem::Blob(blob)));
            assert(tree.entries@ =~= old_entries.update(
                i as int,
                (old_entries[i as int].0, TreeItem::Blob(blob)),
            ));
            assert forall|path: Seq<Seq<char>>| #[trigger]
                file_at(tree, path) == after_write(old_tree, target, content@, path) by {
                if path.len() > 0 {
                    lemma_lookup_update(old_entries, i as int, TreeItem::Blob(blob), path[0]);
                    assert(target[0] == file@);
                    if path[0] == file@ {
                        if path.len() > 1 {
                            assert(path.take(1) =~= target);
                        } else {
                            assert(path =~= target);
                        }
                    } else {
                        assert(path.take(1)[0] != target[0]);
                    }
                }
            }
        } else {
            let name = copy_str(file);
            proof {
                lemma_lookup_absent(old_entries, file@);
            }
            tree.entries.push((name, TreeItem::Blob(blob)));
            assert forall|path: Seq<Seq<char>>| #[trigger]
                file_at(tree, path) == after_write(old_tree, target, content@, path) by {
                if path.len() > 0 {
                    lemma_lookup_push(old_entries, (name, TreeItem::Blob(blob)), path[0]);
                    assert(target[0] == file@);
                    if path[0] == file@ {
                        if path.len() > 1 {
                            assert(path.take(1) =~= target);
                        } else {
                            assert(path =~= target);
                        }
                    } else {
                        assert(path.take(1)[0] != target[0]);
                    }
                }
            }
        }
        return tree;
    }
    assert(rest[0] == dirs@[k as int]@);
    assert(rest.drop_first() =~= names_view(dirs@).skip(k + 1));
    let ghost sub_target = rest.drop_first().push(file@);
    assert(target.drop_first() =~= sub_target);
    let part = dirs[k];
    let i = find_entry(&tree.entries, part);
    let ghost mut sub_before = old_tree;
    let ghost mut written_tree = old_tree;
    let ghost mut found = false;
    if i < tree.entries.len() {
        proof {
            lemma_lookup_first(old_entries, rest[0], i as int);
        }
        let (name, item) = tree.entries.remove(i);
        let sub = match item {
            TreeItem::Tree(sub) => sub,
            TreeItem::Blob(_) => {
                assert(false);
                RepoTree::new()
            },
        };
        proof {
            sub_before = sub;
            found = true;
        }
        let written = write_below(sub, dirs, k + 1, file, content);
        let ghost new_item = TreeItem::Tree(written);
        proof {
            written_tree = written;
        }
        tree.entries.insert(i, (name, TreeItem::Tree(written)));
        assert(tree.entries@ =~= old_entries.update(i as int, (old_entries[i as int].0, new_item)));
        proof {
            assert forall|other: Seq<char>|
                #![trigger lookup(tree.entries@, other)]
                other != rest[0] ==> lookup(tree.entries@, other) == lookup(old_entries, other) by {
                lemma_lookup_update(old_entries, i as int, new_item, other);
            }
            lemma_lookup_update(old_entries, i as int, new_item, rest[0]);
        }
    } else {
        proof {
            lemma_lookup_absent(old_entries, rest[0]);
        }
        let empty = RepoTree::new();
        proof {
            sub_before = empty;
            lemma_empty_tree(empty, rest.drop_first());
        }
        let written = write_below(empty, dirs, k + 1, file, content);
        let ghost new_item = TreeItem::Tree(written);
        proof {
            written_tree = written;
        }
        let name = copy_str(part);
        tree.entries.push((name, TreeItem::Tree(written)));
        proof {
            assert forall|other: Seq<char>|
                #![trigger lookup(tree.entries@, other)]
                other != rest[0] ==> lookup(tree.entries@, other) == lookup(old_entries, other) by {
                lemma_lookup_push(old_entries, (name, new_item), other);
            }
            lemma_lookup_push(old_entries, (name, new_item), rest[0]);
        }
    }
    proof {
        assert forall|path: Seq<Seq<char>>| #[trigger]
            file_at(tree, path) == after_write(old_tree, target, content@, path) by {
            if path.len() > 0 {
                if path[0] == rest[0] {
                    if path.len() > 1 {
                        let sub_path = path.drop_first();
                        assert(file_at(written_tree, sub_path) == after_write(
                            sub_before,
                            sub_target,
                            content@,
                            sub_path,
                        ));
                        assert(target[0] == rest[0]);
                        if path == target {
                            assert(sub_path =~= sub_target);
                        } else if sub_path == sub_target {
                            assert forall|j: int| 0 <= j < path.len() implies path[j] == target[j] by {
                                if j > 0 {
                                    assert(path[j] == sub_path[j - 1]);
                                    assert(target[j] == sub_target[j - 1]);
                                }
                            }
                            assert(path =~= target);
                        }
                        if target.len() < path.len() {
                            let n = target.len() as int;
                            if path.take(n) == target {
                                assert forall|j: int| 0 <= j < n - 1 implies sub_path.take(n - 1)[j]
                                    == sub_target[j] by {
                                    assert(path.take(n)[j + 1] == target[j + 1]);
                                }
                                assert(sub_path.take(n - 1) =~= sub_target);
                            } else if sub_path.take(n - 1) == sub_target {
                                assert forall|j: int| 0 <= j < n implies path.take(n)[j] == target[j] by {
                                    if j > 0 {
                                        assert(sub_path.take(n - 1)[j - 1] == sub_target[j - 1]);
                                    }
                                }
                                assert(path.take(n) =~= target);
                            }
                        }
                        if !found {
                            lemma_empty_tree(sub_before, sub_path);
                        }
                    } else {
                        assert(path != target);
                    }
                } else {
                    assert(path != target);
                    if target.len() < path.len() {
                        assert(path.take(target.len() as int)[0] != target[0]);
                    }
                }
            }
        }
    }
    tree
}

/// The content of the file `file` in the directory `dirs[k..]` below `tree`.
fn read_below(tree: &RepoTree, dirs: &[&str], k: usize, file: &str) -> (r: Option<Vec<u8>>)
    requires
        k <= dirs@.len(),
    ensures
        match r {
            Some(c) => file_at(*tree, names_view(dirs@).skip(k as int).push(file@)) == Some(c@),
            None => file_at(*tree, names_view(dirs@).skip(k as int).push(file@)) is None,
        },
    decreases dirs@.len() - k,
{
    let ghost path = names_view(dirs@).skip(k as int).push(file@);
    let name = if k == dirs.len() {
        file
    } else {
        dirs[k]
    };
    assert(path[0] == name@);
    let i = find_entry(&tree.entries, name);
    if i == tree.entries.len() {
        proof {
            lemma_lookup_absent(tree.entries@, name@);
        }
        return None;
    }
    proof {
        lemma_lookup_first(tree.entries@, name@, i as int);
    }
    if k == dirs.len() {
        assert(path.len() == 1);
        match &tree.entries[i].1 {
            TreeItem::Blob(c) => Some(c.clone()),
            TreeItem::Tree(_) => None,
        }
    } else {
        assert(path.drop_first() =~= names_view(dirs@).skip(k + 1).push(file@));
        match &tree.entries[i].1 {
            TreeItem::Blob(_) => None,
            TreeItem::Tree(sub) => read_below(sub, dirs, k + 1, file),
        }
    }
}

/// A repository being built in memory: files written to paths, directories
/// made as they are needed.
pub struct GitRepository {
    pub tree: RepoTree,
}

impl GitRepository {
    /// An empty repository.
    pub fn new() -> (r: GitRepository)
        ensures
            forall|path: Seq<Seq<char>>| #[trigger] file_at(r.tree, path) is None,
            r.tree.entries@.len() == 0,
    {
        GitRepository { tree: RepoTree::new() }
    }

    /// Writes `content` to the file `file` in the directory `path`
    /// (`["path", "to"]` for `path/to/file`), making the directories that
    /// are missing. A file already there is replaced, and so is a directory,
    /// with everything below it. Fails, changing nothing, where a directory
    /// on the path is a file.
    pub fn insert(&mut self, path: &[&str], file: &str, content: &[u8]) -> (r: Result<(), RepoError>)
        ensures
            blocked(old(self).tree, names_view(path@)) ==> r == Err::<(), RepoError>(
                RepoError::FileAsDirectory,
            ) && final(self).tree == old(self).tree,
            !blocked(old(self).tree, names_view(path@)) ==> r == Ok::<(), RepoError>(())
                && write_outcome(old(self).tree, final(self).tree, names_view(path@), file@, content@),
    {
        assert(names_view(path@).skip(0) =~= names_view(path@));
        if is_blocked(&self.tree, path, 0) {
            return Err(RepoError::FileAsDirectory);
        }
        let mut tree = RepoTree::new();
        std::mem::swap(&mut tree, &mut self.tree);
        self.tree = write_below(tree, path, 0, file, content);
        Ok(())
    }

    /// The content of the file `file` in the directory `path`, if there is
    /// one.
    pub fn read(&self, path: &[&str], file: &str) -> (r: Option<Vec<u8>>)
        ensures
            match r {
                Some(c) => file_at(self.tree, names_view(path@).push(file@)) == Some(c@),
                None => file_at(self.tree, names_view(path@).push(file@)) is None,
            },
    {
        assert(names_view(path@).skip(0) =~= names_view(path@));
        read_below(&self.tree, path, 0, file)
    }
}

impl Default for GitRepository {
    /// An empty repository.
    fn default() -> (r: GitRepository)
        ensures
            forall|path: Seq<Seq<char>>| #[trigger] file_at(r.tree, path) is None,
    {
        GitRepository::new()
    }
}

/// A file written to a repository reads back as what was written, and the
/// files that are neither it nor below it keep their content.
pub proof fn lemma_write_then_read(
    before: RepoTree,
    after: RepoTree,
    dirs: Seq<Seq<char>>,
    file: Seq<char>,
    content: Seq<u8>,
    other: Seq<Seq<char>>,
)
    requires
        write_outcome(before, after, dirs, file, content),
        !(dirs.push(file).len() <= other.len() && other.take(dirs.len() as int + 1) == dirs.push(file)),
    ensures
        file_at(after, dirs.push(file)) == Some(content),
        file_at(after, other) == file_at(before, other),
{
    assert(file_at(after, dirs.push(file)) == after_write(before, dirs.push(file), content, dirs.push(file)));
    assert(file_at(after, other) == after_write(before, dirs.push(file), content, other));
    if other == dirs.push(file) {
        assert(other.take(dirs.len() as int + 1) =~= other);
    }
}

} // verus!
