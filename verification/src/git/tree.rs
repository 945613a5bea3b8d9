//! The crate index as cargo reads it: one file per crate, holding a line
//! per version, in a folder chosen from the crate's name.
use vstd::prelude::*;

use super::repository::{blocked, file_at, names_view, GitRepository, RepoError, RepoTree};
use crate::text::str_eq;
use crate::types::CrateVersion;
use vstd::string::StringSliceAdditionalSpecFns;
use vstd::utf8::{encode_utf8, is_char_boundary, valid_utf8};

verus! {

/// One line of a crate's index file: a version, its checksum, and whether
/// it was yanked.
pub struct CrateFileEntry {
    pub inner: CrateVersion,
    pub cksum: String,
    pub yanked: bool,
}

/// The folders, by their bytes, holding the index file of a crate whose
/// name has the bytes `name`: none for an empty name, `1`, `2` or `3` for
/// names of that many bytes, else the first two bytes and the next two.
pub open spec fn crate_folder(name: Seq<u8>) -> Seq<Seq<u8>> {
    if name.len() == 0 {
        seq![]
    } else if name.len() == 1 {
        seq![seq![49u8]]
    } else if name.len() == 2 {
        seq![seq![50u8]]
    } else if name.len() == 3 {
        seq![seq![51u8]]
    } else {
        seq![name.subrange(0, 2), name.subrange(2, 4)]
    }
}

/// Whether the folders of a crate name can be cut out of it: a name of four
/// bytes or more must have characters starting at its third and fifth
/// bytes.
pub open spec fn has_folder_boundaries(name: Seq<u8>) -> bool {
    name.len() >= 4 ==> is_char_boundary(name, 2) && is_char_boundary(name, 4)
}

/// Whether the folders of a crate name can be cut out of it, as
/// `get_crate_folder` needs: its third and fifth bytes, where it has them,
/// start characters.
pub fn folder_boundaries_ok(crate_name: &str) -> (r: bool)
    ensures
        r == has_folder_boundaries(crate_name.spec_bytes()),
{
    let bytes = crate_name.as_bytes();
    let n = bytes.len();
    if n < 4 {
        return true;
    }
    proof {
        vstd::utf8::encode_utf8_valid_utf8(crate_name@);
        vstd::utf8::is_char_boundary_iff_not_is_continuation_byte(bytes@, 2);
        if n > 4 {
            vstd::utf8::is_char_boundary_iff_not_is_continuation_byte(bytes@, 4);
        } else {
            vstd::utf8::is_char_boundary_start_end_of_seq(bytes@);
        }
    }
    let third_starts = !(0x80 <= bytes[2] && bytes[2] <= 0xbf);
    let fifth_starts = n == 4 || !(0x80 <= bytes[4] && bytes[4] <= 0xbf);
    third_starts && fifth_starts
}

#[verifier::external_type_specification]
#[verifier::external_body]
#[verifier::reject_recursive_types(T)]
pub struct ExArrayVec<T, const CAP: usize>(arrayvec::ArrayVec<T, CAP>);

/// The names an `ArrayVec` of folder names holds, in order.
pub uninterp spec fn folder_names(folders: arrayvec::ArrayVec<&str, 2>) -> Seq<Seq<char>>;

/// An empty vector of folder names, from arrayvec's `ArrayVec::new`.
#[verifier::external_body]
fn new_folders<'a>() -> (r: arrayvec::ArrayVec<&'a str, 2>)
    ensures
        folder_names(r) == Seq::<Seq<char>>::empty(),
{
    arrayvec::ArrayVec::new()
}

/// Appends a folder name with arrayvec's `ArrayVec::push`, which keeps the
/// names in order and panics when the vector is full.
#[verifier::external_body]
fn push_folder<'a>(folders: &mut arrayvec::ArrayVec<&'a str, 2>, name: &'a str)
    requires
        folder_names(*old(folders)).len() < 2,
    ensures
        folder_names(*final(folders)) == folder_names(*old(folders)).push(name@),
{
    folders.push(name)
}

/// The folder names as a slice, from arrayvec's `ArrayVec::as_slice`.
#[verifier::external_body]
pub fn folders_slice<'a, 'b>(folders: &'b arrayvec::ArrayVec<&'a str, 2>) -> (r: &'b [&'a str])
    ensures
        names_view(r@) == folder_names(*folders),
{
    folders.as_slice()
}

/// The folders holding the index file of a crate.
pub fn get_crate_folder(crate_name: &str) -> (r: arrayvec::ArrayVec<&str, 2>)
    requires
        has_folder_boundaries(crate_name.spec_bytes()),
    ensures
        folder_names(r).len() == crate_folder(crate_name.spec_bytes()).len(),
        forall|i: int|
            0 <= i < folder_names(r).len() ==> #[trigger] encode_utf8(folder_names(r)[i])
                == crate_folder(crate_name.spec_bytes())[i],
{
    let ghost bytes = crate_name.spec_bytes();
    let mut folders = new_folders();
    let n = crate_name.as_bytes().len();
    proof {
        reveal_strlit("1");
        reveal_strlit("2");
        reveal_strlit("3");
        vstd::string::is_ascii_spec_bytes("1");
        vstd::string::is_ascii_spec_bytes("2");
        vstd::string::is_ascii_spec_bytes("3");
    }
    if n == 0 {
    } else if n == 1 {
        push_folder(&mut folders, "1");
        assert("1".spec_bytes() =~= seq![49u8]);
    } else if n == 2 {
        push_folder(&mut folders, "2");
        assert("2".spec_bytes() =~= seq![50u8]);
    } else if n == 3 {
        push_folder(&mut folders, "3");
        assert("3".spec_bytes() =~= seq![51u8]);
    } else {
        proof {
            vstd::utf8::encode_utf8_valid_utf8(crate_name@);
        }
        let (first, rest) = crate_name.split_at(2);
        proof {
            vstd::utf8::valid_utf8_split(bytes, 2);
            let rb = rest.spec_bytes();
            assert(rb =~= bytes.subrange(2, bytes.len() as int));
            if rb.len() == 2 {
                vstd::utf8::is_char_boundary_start_end_of_seq(rb);
            } else {
                vstd::utf8::is_char_boundary_iff_not_is_continuation_byte(bytes, 4);
                vstd::utf8::is_char_boundary_iff_not_is_continuation_byte(rb, 2);
            }
        }
        let (second, _) = rest.split_at(2);
        assert(second.spec_bytes() =~= bytes.subrange(2, 4));
        push_folder(&mut folders, first);
        push_folder(&mut folders, second);
    }
    folders
}

impl CrateFileEntry {
    /// The index line of a version, with its checksum and whether it was
    /// yanked.
    pub fn new(inner: CrateVersion, cksum: String, yanked: bool) -> (r: CrateFileEntry)
        ensures
            r.inner == inner,
            r.cksum == cksum,
            r.yanked == yanked,
    {
        CrateFileEntry { inner, cksum, yanked }
    }
}

/// A crate's index file: each version's line followed by a line break.
pub open spec fn index_file(lines: Seq<Seq<char>>) -> Seq<char>
    decreases lines.len(),
{
    if lines.len() == 0 {
        seq![]
    } else {
        index_file(lines.drop_last()) + lines.last() + seq!['\n']
    }
}

/// A crate's index file is its version lines in order, each followed by
/// one line break: the file of no versions is empty, and adding a version
/// adds its line and a line break at the end.
pub proof fn lemma_index_file_lines(lines: Seq<Seq<char>>, line: Seq<char>)
    ensures
        index_file(Seq::<Seq<char>>::empty()) == Seq::<char>::empty(),
        index_file(seq![line]) == line + seq!['\n'],
        index_file(lines.push(line)) == index_file(lines) + line + seq!['\n'],
{
    assert(lines.push(line).drop_last() =~= lines);
    assert(seq![line].drop_last() =~= Seq::<Seq<char>>::empty());
    assert(index_file(Seq::<Seq<char>>::empty()) == Seq::<char>::empty());
    assert(index_file(seq![line]) =~= Seq::<char>::empty() + line + seq!['\n']);
    assert(Seq::<char>::empty() + line =~= line);
}

/// The index file holds exactly one line break per version: version lines
/// hold none, so the file of `n` versions has `n` of them.
pub proof fn lemma_index_file_line_breaks(lines: Seq<Seq<char>>)
    requires
        forall|i: int| 0 <= i < lines.len() ==> !lines[i].contains('\n'),
    ensures
        count_char(index_file(lines), '\n') == lines.len(),
    decreases lines.len(),
{
    if lines.len() > 0 {
        let init = lines.drop_last();
        lemma_index_file_line_breaks(init);
        lemma_count_char_concat(index_file(init), lines.last(), '\n');
        lemma_count_char_concat(index_file(init) + lines.last(), seq!['\n'], '\n');
        lemma_count_char_absent(lines.last(), '\n');
        assert(count_char(seq!['\n'], '\n') == 1) by {
            reveal_with_fuel(count_char, 2);
            assert(seq!['\n'].drop_first() =~= Seq::<char>::empty());
        }
    }
}

/// How often `c` occurs in `s`.
pub open spec fn count_char(s: Seq<char>, c: char) -> nat
    decreases s.len(),
{
    if s.len() == 0 {
        0
    } else {
        (if s[0] == c { 1nat } else { 0nat }) + count_char(s.drop_first(), c)
    }
}

proof fn lemma_count_char_concat(a: Seq<char>, b: Seq<char>, c: char)
    ensures
        count_char(a + b, c) == count_char(a, c) + count_char(b, c),
    decreases a.len(),
{
    if a.len() == 0 {
        assert(a + b =~= b);
    } else {
        lemma_count_char_concat(a.drop_first(), b, c);
        assert((a + b).drop_first() =~= a.drop_first() + b);
    }
}

proof fn lemma_count_char_absent(a: Seq<char>, c: char)
    requires
        !a.contains(c),
    ensures
        count_char(a, c) == 0,
    decreases a.len(),
{
    if a.len() > 0 {
        assert(a[0] != c);
        assert forall|i: int| 0 <= i < a.drop_first().len() implies a.drop_first()[i] != c by {
            assert(a.drop_first()[i] == a[i + 1]);
        }
        lemma_count_char_absent(a.drop_first(), c);
    }
}

/// A crate's index file from the lines of its versions.
pub fn index_file_text(lines: &Vec<String>) -> (r: String)
    ensures
        r@ == index_file(lines@.map_values(|l: String| l@)),
{
    let ghost views = lines@.map_values(|l: String| l@);
    let mut r = String::new();
    let mut i: usize = 0;
    assert(views.take(0) =~= Seq::<Seq<char>>::empty());
    while i < lines.len()
        invariant
            i <= lines@.len(),
            views == lines@.map_values(|l: String| l@),
            r@ == index_file(views.take(i as int)),
        decreases lines@.len() - i,
    {
        assert(views.take(i + 1).drop_last() =~= views.take(i as int));
        r.append(lines[i].as_str());
        crate::text::push_char(&mut r, '\n');
        i = i + 1;
    }
    assert(views.take(lines@.len() as int) =~= views);
    r
}

/// Whether `a` comes before `b` in the order of their characters' codes,
/// the order of `str`'s `Ord`.
pub open spec fn text_less(a: Seq<char>, b: Seq<char>) -> bool
    decreases a.len(),
{
    if a.len() == 0 {
        b.len() > 0
    } else if b.len() == 0 {
        false
    } else if a[0] != b[0] {
        (a[0] as u32) < (b[0] as u32)
    } else {
        text_less(a.drop_first(), b.drop_first())
    }
}

proof fn lemma_text_less_irreflexive(a: Seq<char>)
    ensures
        !text_less(a, a),
    decreases a.len(),
{
    if a.len() > 0 {
        lemma_text_less_irreflexive(a.drop_first());
    }
}

proof fn lemma_text_less_total(a: Seq<char>, b: Seq<char>)
    requires
        a != b,
    ensures
        text_less(a, b) || text_less(b, a),
    decreases a.len(),
{
    if a.len() > 0 && b.len() > 0 && a[0] == b[0] {
        if a.drop_first() == b.drop_first() {
            assert(a =~= seq![a[0]] + a.drop_first());
            assert(b =~= seq![b[0]] + b.drop_first());
        }
        lemma_text_less_total(a.drop_first(), b.drop_first());
    } else if a.len() > 0 && b.len() > 0 {
        vstd::utf8::char_u32_cast(a[0], a[0] as u32);
        vstd::utf8::char_u32_cast(b[0], b[0] as u32);
    } else if a.len() == 0 && b.len() == 0 {
        assert(a =~= b);
    }
}

proof fn lemma_text_less_transitive(a: Seq<char>, b: Seq<char>, c: Seq<char>)
    requires
        text_less(a, b),
        text_less(b, c),
    ensures
        text_less(a, c),
    decreases a.len(),
{
    if a.len() > 0 && b.len() > 0 && c.len() > 0 && a[0] == b[0] && b[0] == c[0] {
        lemma_text_less_transitive(a.drop_first(), b.drop_first(), c.drop_first());
    }
}

/// Compares two texts character by character.
fn text_before(a: &str, b: &str) -> (r: bool)
    ensures
        r == text_less(a@, b@),
{
    let ac = crate::text::chars_of(a);
    let bc = crate::text::chars_of(b);
    let mut i: usize = 0;
    assert(a@.skip(0) =~= a@);
    assert(b@.skip(0) =~= b@);
    while i < ac.len() && i < bc.len() && ac[i] == bc[i]
        invariant
            i <= ac@.len(),
            i <= bc@.len(),
            ac@ == a@,
            bc@ == b@,
            text_less(a@, b@) == text_less(a@.skip(i as int), b@.skip(i as int)),
        decreases ac@.len() - i,
    {
        assert(a@.skip(i as int).drop_first() =~= a@.skip(i + 1));
        assert(b@.skip(i as int).drop_first() =~= b@.skip(i + 1));
        i = i + 1;
    }
    if i == ac.len() {
        i < bc.len()
    } else if i == bc.len() {
        false
    } else {
        (ac[i] as u32) < (bc[i] as u32)
    }
}

/// Whether the names of `entries` strictly increase.
pub open spec fn sorted_names(entries: Seq<(String, String)>) -> bool {
    forall|i: int, j: int|
        0 <= i < j < entries.len() ==> text_less(#[trigger] entries[i].0@, #[trigger] entries[j].0@)
}

/// An index of an entry named `n`.
pub open spec fn index_of_crate(entries: Seq<(String, String)>, n: Seq<char>) -> int {
    choose|i: int| 0 <= i < entries.len() && entries[i].0@ == n
}

/// The index file of each crate, by the crate's name.
pub open spec fn crate_map(entries: Seq<(String, String)>) -> Map<Seq<char>, Seq<char>> {
    Map::new(
        |n: Seq<char>| exists|i: int| 0 <= i < entries.len() && entries[i].0@ == n,
        |n: Seq<char>| entries[index_of_crate(entries, n)].1@,
    )
}

/// The index files of the crates, ordered by crate name.
pub struct Tree {
    crates: Vec<(String, String)>,
}

impl Tree {
    /// The crates' names with their index files, in order.
    pub closed spec fn entries(&self) -> Seq<(String, String)> {
        self.crates@
    }

    #[verifier::type_invariant]
    closed spec fn sorted(&self) -> bool {
        sorted_names(self.crates@)
    }

    /// The index file of each crate, by name.
    pub closed spec fn view(&self) -> Map<Seq<char>, Seq<char>> {
        crate_map(self.crates@)
    }

    /// A tree with no crates.
    pub fn new() -> (r: Tree)
        ensures
            r@ == Map::<Seq<char>, Seq<char>>::empty(),
            r.entries().len() == 0,
    {
        let r = Tree { crates: Vec::new() };
        assert(r@ =~= Map::<Seq<char>, Seq<char>>::empty());
        r
    }

    /// The number of crates.
    pub fn len(&self) -> (r: usize)
        ensures
            r == self.entries().len(),
    {
        self.crates.len()
    }

    /// The `i`th crate in name order: its name and its index file.
    pub fn get(&self, i: usize) -> (r: (&str, &str))
        requires
            i < self.entries().len(),
        ensures
            r.0@ == self.entries()[i as int].0@,
            r.1@ == self.entries()[i as int].1@,
    {
        (self.crates[i].0.as_str(), self.crates[i].1.as_str())
    }

    /// Sets the index file of the crate `name`, in its place in name order.
    pub fn insert(&mut self, name: String, file: String)
        ensures
            final(self)@ == old(self)@.insert(name@, file@),
    {
        proof {
            use_type_invariant(&*self);
        }
        let ghost old_entries = self.crates@;
        let mut j: usize = 0;
        while j < self.crates.len() && text_before(self.crates[j].0.as_str(), name.as_str())
            invariant
                j <= old_entries.len(),
                self.crates@ == old_entries,
                sorted_names(old_entries),
                forall|k: int| 0 <= k < j ==> text_less(#[trigger] old_entries[k].0@, name@),
            decreases old_entries.len() - j,
        {
            j = j + 1;
        }
        let mut crates = Vec::new();
        std::mem::swap(&mut crates, &mut self.crates);
        let ghost new_entries: Seq<(String, String)>;
        let ghost at: int = j as int;
        if j < crates.len() && str_eq(crates[j].0.as_str(), name.as_str()) {
            let _ = crates.remove(j);
            crates.insert(j, (name, file));
            proof {
                new_entries = crates@;
                assert(new_entries =~= old_entries.update(at, new_entries[at]));
                assert forall|a: int, b: int| 0 <= a < b < new_entries.len() implies text_less(
                    #[trigger] new_entries[a].0@,
                    #[trigger] new_entries[b].0@,
                ) by {
                    assert(old_entries[a].0@ == new_entries[a].0@ || a == at);
                    assert(old_entries[b].0@ == new_entries[b].0@ || b == at);
                }
            }
        } else {
            proof {
                if j < old_entries.len() {
                    lemma_text_less_total(old_entries[at].0@, name@);
                }
            }
            crates.insert(j, (name, file));
            proof {
                new_entries = crates@;
                assert(new_entries =~= old_entries.insert(at, new_entries[at]));
                assert forall|a: int, b: int| 0 <= a < b < new_entries.len() implies text_less(
                    #[trigger] new_entries[a].0@,
                    #[trigger] new_entries[b].0@,
                ) by {
                    if a < at && b == at {
                    } else if a < at && b > at {
                        assert(new_entries[b] == old_entries[b - 1]);
                    } else if a == at && b > at {
                        assert(new_entries[b] == old_entries[b - 1]);
                        if b - 1 > at {
                            lemma_text_less_transitive(name@, old_entries[at].0@, old_entries[b - 1].0@);
                        }
                    } else if a > at {
                        assert(new_entries[a] == old_entries[a - 1]);
                        assert(new_entries[b] == old_entries[b - 1]);
                    }
                }
            }
        }
        self.crates = crates;
        proof {
            if new_entries.len() == old_entries.len() {
                lemma_replace_map(old_entries, new_entries, at);
            } else {
                assert forall|k: int| 0 <= k < old_entries.len() implies old_entries[k].0@ != name@ by {
                    if k < at {
                        lemma_text_less_irreflexive(name@);
                    } else {
                        if k > at {
                            lemma_text_less_transitive(name@, old_entries[at].0@, old_entries[k].0@);
                        }
                        lemma_text_less_irreflexive(name@);
                    }
                }
                lemma_insert_map(old_entries, new_entries, at);
            }
        }
    }
}

proof fn lemma_sorted_unique(entries: Seq<(String, String)>, i: int, j: int)
    requires
        sorted_names(entries),
        0 <= i < entries.len(),
        0 <= j < entries.len(),
        i != j,
    ensures
        entries[i].0@ != entries[j].0@,
{
    lemma_text_less_irreflexive(entries[i].0@);
    if i < j {
        assert(text_less(entries[i].0@, entries[j].0@));
    } else {
        assert(text_less(entries[j].0@, entries[i].0@));
    }
}

proof fn lemma_map_at(entries: Seq<(String, String)>, i: int)
    requires
        sorted_names(entries),
        0 <= i < entries.len(),
    ensures
        crate_map(entries).contains_key(entries[i].0@),
        crate_map(entries)[entries[i].0@] == entries[i].1@,
{
    let n = entries[i].0@;
    assert(exists|i: int| 0 <= i < entries.len() && entries[i].0@ == n);
    let k = index_of_crate(entries, n);
    if k != i {
        lemma_sorted_unique(entries, i, k);
    }
    assert(k == i);
    assert(crate_map(entries).dom().contains(n));
    assert(crate_map(entries)[n] == entries[k].1@);
}

proof fn lemma_replace_map(old_entries: Seq<(String, String)>, new_entries: Seq<(String, String)>, at: int)
    requires
        sorted_names(old_entries),
        sorted_names(new_entries),
        0 <= at < old_entries.len(),
        new_entries == old_entries.update(at, new_entries[at]),
        new_entries[at].0@ == old_entries[at].0@,
    ensures
        crate_map(new_entries) == crate_map(old_entries).insert(new_entries[at].0@, new_entries[at].1@),
{
    let name = new_entries[at].0@;
    lemma_map_at(new_entries, at);
    let inserted = crate_map(old_entries).insert(name, new_entries[at].1@);
    assert forall|n: Seq<char>| #[trigger] crate_map(new_entries).contains_key(n) == inserted.contains_key(n)
        && (crate_map(new_entries).contains_key(n) ==> crate_map(new_entries)[n] == inserted[n]) by {
        if n != name {
            if crate_map(old_entries).contains_key(n) {
                let i = choose|i: int| 0 <= i < old_entries.len() && old_entries[i].0@ == n;
                assert(new_entries[i] == old_entries[i]);
                lemma_map_at(old_entries, i);
                lemma_map_at(new_entries, i);
            }
            if crate_map(new_entries).contains_key(n) {
                let i = choose|i: int| 0 <= i < new_entries.len() && new_entries[i].0@ == n;
                assert(old_entries[i].0@ == n);
            }
        }
    }
    assert(crate_map(new_entries) =~= crate_map(old_entries).insert(name, new_entries[at].1@));
}

proof fn lemma_insert_map(old_entries: Seq<(String, String)>, new_entries: Seq<(String, String)>, at: int)
    requires
        sorted_names(old_entries),
        sorted_names(new_entries),
        0 <= at <= old_entries.len(),
        new_entries == old_entries.insert(at, new_entries[at]),
        forall|k: int| 0 <= k < old_entries.len() ==> old_entries[k].0@ != new_entries[at].0@,
    ensures
        crate_map(new_entries) == crate_map(old_entries).insert(new_entries[at].0@, new_entries[at].1@),
{
    let name = new_entries[at].0@;
    lemma_map_at(new_entries, at);
    let inserted = crate_map(old_entries).insert(name, new_entries[at].1@);
    assert forall|n: Seq<char>| #[trigger] crate_map(new_entries).contains_key(n) == inserted.contains_key(n)
        && (crate_map(new_entries).contains_key(n) ==> crate_map(new_entries)[n] == inserted[n]) by {
        if n != name {
            if crate_map(old_entries).contains_key(n) {
                let i = choose|i: int| 0 <= i < old_entries.len() && old_entries[i].0@ == n;
                let i2 = if i < at { i } else { i + 1 };
                assert(new_entries[i2] == old_entries[i]);
                lemma_map_at(old_entries, i);
                lemma_map_at(new_entries, i2);
            }
            if crate_map(new_entries).contains_key(n) {
                let i = choose|i: int| 0 <= i < new_entries.len() && new_entries[i].0@ == n;
                let i2 = if i < at { i } else { i - 1 };
                assert(old_entries[i2].0@ == n);
            }
        }
    }
    assert(crate_map(new_entries) =~= crate_map(old_entries).insert(name, new_entries[at].1@));
}

/// The bytes of each name of a path.
pub open spec fn encoded(path: Seq<Seq<char>>) -> Seq<Seq<u8>> {
    path.map_values(|c: Seq<char>| encode_utf8(c))
}

/// Whether `path` is where the index file of the crate `name` goes: its
/// folders, then the name.
pub open spec fn is_crate_path(path: Seq<Seq<char>>, name: Seq<char>) -> bool {
    encoded(path) == crate_folder(encode_utf8(name)).push(encode_utf8(name))
}

/// Whether `path` is the index path of the crate `name`, or lies below it.
pub open spec fn under_crate_path(path: Seq<Seq<char>>, name: Seq<char>) -> bool {
    exists|k: int| 0 <= k <= path.len() && #[trigger] is_crate_path(path.take(k), name)
}

/// Whether a file at `path` would stand where the index puts a folder: at
/// the top under a name of one or two bytes, or one level down under two
/// names of two bytes.
pub open spec fn in_folder_place(path: Seq<Seq<char>>) -> bool {
    let e = encoded(path);
    (e.len() == 1 && 1 <= e[0].len() <= 2) || (e.len() == 2 && e[0].len() == 2 && e[1].len()
        == 2)
}

/// Whether no file of `tree` stands where the index puts a folder.
pub open spec fn leaves_folders_free(tree: RepoTree) -> bool {
    forall|path: Seq<Seq<char>>| #[trigger] file_at(tree, path) is Some ==> !in_folder_place(path)
}

proof fn lemma_encoded_injective(p: Seq<Seq<char>>, q: Seq<Seq<char>>)
    requires
        encoded(p) == encoded(q),
    ensures
        p == q,
{
    assert(p.len() == encoded(p).len());
    assert forall|j: int| 0 <= j < p.len() implies p[j] == q[j] by {
        vstd::utf8::encode_utf8_decode_utf8(p[j]);
        vstd::utf8::encode_utf8_decode_utf8(q[j]);
        assert(encoded(p)[j] == encoded(q)[j]);
    }
    assert(p =~= q);
}

/// Where a directory on the way is a file, some path the walk passes holds
/// a file.
proof fn lemma_blocked_has_file(tree: RepoTree, dirs: Seq<Seq<char>>)
    requires
        blocked(tree, dirs),
    ensures
        exists|k: int| 1 <= k <= dirs.len() && #[trigger] file_at(tree, dirs.take(k)) is Some,
    decreases dirs.len(),
{
    match super::repository::lookup(tree.entries@, dirs[0]) {
        Some(super::repository::TreeItem::Tree(sub)) => {
            lemma_blocked_has_file(sub, dirs.drop_first());
            let k = choose|k: int|
                1 <= k <= dirs.drop_first().len() && #[trigger] file_at(
                    sub,
                    dirs.drop_first().take(k),
                ) is Some;
            assert(dirs.take(k + 1).drop_first() =~= dirs.drop_first().take(k));
            assert(file_at(tree, dirs.take(k + 1)) is Some);
        },
        _ => {
            assert(file_at(tree, dirs.take(1)) is Some);
        },
    }
}

/// The index paths of two different crates are apart: neither is the
/// other, nor a directory on the other's way.
proof fn lemma_crate_paths_apart(pa: Seq<Seq<char>>, a: Seq<char>, pb: Seq<Seq<char>>, b: Seq<char>)
    requires
        is_crate_path(pa, a),
        is_crate_path(pb, b),
        a != b,
    ensures
        !(pa.len() <= pb.len() && pb.take(pa.len() as int) == pa),
{
    if pa.len() <= pb.len() && pb.take(pa.len() as int) == pa {
        let ea = encoded(pa);
        let eb = encoded(pb);
        assert(encoded(pb.take(pa.len() as int)) =~= eb.take(pa.len() as int));
        vstd::utf8::encode_utf8_decode_utf8(a);
        vstd::utf8::encode_utf8_decode_utf8(b);
        if pa.len() == pb.len() {
            assert(pb.take(pa.len() as int) =~= pb);
            assert(ea.last() == eb.last());
        } else {
            assert(ea[0] == eb[0]);
        }
    }
}

/// The folders of a crate are in the places `in_folder_place` keeps free.
proof fn lemma_folders_in_place(dirs: Seq<Seq<char>>, name: Seq<char>, k: int)
    requires
        encoded(dirs) == crate_folder(encode_utf8(name)),
        1 <= k <= dirs.len(),
    ensures
        in_folder_place(dirs.take(k)),
{
    assert(encoded(dirs.take(k)) =~= encoded(dirs).take(k));
}

impl Tree {
    /// Writes the index file of every crate to the repository, under its
    /// folders. Stops at the first crate whose folders meet a file of the
    /// repository; that cannot happen where no file stands where the index
    /// puts a folder.
    pub fn write_to_packfile(&self, repo: &mut GitRepository) -> (r: Result<(), RepoError>)
        requires
            forall|i: int|
                0 <= i < self.entries().len() ==> has_folder_boundaries(
                    #[trigger] encode_utf8(self.entries()[i].0@),
                ),
        ensures
            leaves_folders_free(old(repo).tree) ==> r is Ok,
            r is Err ==> r == Err::<(), RepoError>(RepoError::FileAsDirectory),
            forall|p: Seq<Seq<char>>|
                #![trigger file_at(final(repo).tree, p)]
                (forall|i: int|
                    0 <= i < self.entries().len() ==> !#[trigger] under_crate_path(
                        p,
                        self.entries()[i].0@,
                    )) ==> file_at(final(repo).tree, p) == file_at(old(repo).tree, p),
            r is Ok ==> forall|i: int, p: Seq<Seq<char>>|
                #![trigger is_crate_path(p, self.entries()[i].0@)]
                0 <= i < self.entries().len() && is_crate_path(p, self.entries()[i].0@) ==> file_at(
                    final(repo).tree,
                    p,
                ) == Some(encode_utf8(self.entries()[i].1@)),
    {
        proof {
            use_type_invariant(self);
        }
        let ghost entries = self.entries();
        let ghost free_before = leaves_folders_free(repo.tree);
        let mut i: usize = 0;
        while i < self.crates.len()
            invariant
                i <= entries.len(),
                entries == self.crates@,
                sorted_names(entries),
                forall|j: int|
                    0 <= j < entries.len() ==> has_folder_boundaries(
                        #[trigger] encode_utf8(entries[j].0@),
                    ),
                free_before == leaves_folders_free(old(repo).tree),
                forall|p: Seq<Seq<char>>|
                    #![trigger file_at(repo.tree, p)]
                    (forall|j: int| 0 <= j < i ==> !#[trigger] under_crate_path(p, entries[j].0@))
                        ==> file_at(repo.tree, p) == file_at(old(repo).tree, p),
                free_before ==> leaves_folders_free(repo.tree),
                forall|j: int, p: Seq<Seq<char>>|
                    #![trigger is_crate_path(p, entries[j].0@)]
                    0 <= j < i && is_crate_path(p, entries[j].0@) ==> file_at(repo.tree, p) == Some(
                        encode_utf8(entries[j].1@),
                    ),
            decreases entries.len() - i,
        {
            let name = self.crates[i].0.as_str();
            let content = self.crates[i].1.as_str().as_bytes();
            assert(has_folder_boundaries(encode_utf8(entries[i as int].0@)));
            let folders = get_crate_folder(name);
            let path = folders_slice(&folders);
            let ghost dirs = names_view(path@);
            let ghost target = dirs.push(name@);
            let ghost before = repo.tree;
            assert forall|j: int| 0 <= j < dirs.len() implies encoded(dirs)[j] == crate_folder(
                encode_utf8(name@),
            )[j] by {
                assert(encode_utf8(folder_names(folders)[j]) == crate_folder(name.spec_bytes())[j]);
            }
            assert(encoded(dirs) =~= crate_folder(encode_utf8(name@)));
            assert(encoded(target) =~= crate_folder(encode_utf8(name@)).push(encode_utf8(name@)));
            proof {
                if free_before && super::repository::blocked(before, dirs) {
                    lemma_blocked_has_file(before, dirs);
                    let k = choose|k: int|
                        1 <= k <= dirs.len() && #[trigger] file_at(before, dirs.take(k)) is Some;
                    lemma_folders_in_place(dirs, name@, k);
                }
            }
            match repo.insert(path, name, content) {
                Err(e) => {
                    proof {
                        assert(repo.tree == before);
                        assert(entries == self.entries());
                        assert forall|p: Seq<Seq<char>>|
                            #![trigger file_at(repo.tree, p)]
                            (forall|j: int|
                                0 <= j < entries.len() ==> !#[trigger] under_crate_path(
                                    p,
                                    entries[j].0@,
                                )) implies file_at(repo.tree, p) == file_at(old(repo).tree, p) by {
                            assert forall|j: int| 0 <= j < i implies !#[trigger] under_crate_path(
                                p,
                                entries[j].0@,
                            ) by {}
                        }
                    }
                    return Err(e);
                },
                Ok(()) => {},
            }
            proof {
                let after = repo.tree;
                assert forall|j: int, p: Seq<Seq<char>>|
                    #![trigger is_crate_path(p, entries[j].0@)]
                    0 <= j < i + 1 && is_crate_path(p, entries[j].0@) implies file_at(after, p)
                    == Some(encode_utf8(entries[j].1@)) by {
                    if j == i {
                        lemma_encoded_injective(p, target);
                        assert(file_at(after, target) == super::repository::after_write(
                            before,
                            target,
                            content@,
                            target,
                        ));
                    } else {
                        lemma_sorted_unique(entries, i as int, j);
                        lemma_crate_paths_apart(target, name@, p, entries[j].0@);
                        super::repository::lemma_write_then_read(
                            before,
                            after,
                            dirs,
                            name@,
                            content@,
                            p,
                        );
                    }
                }
                assert forall|p: Seq<Seq<char>>|
                    #![trigger file_at(after, p)]
                    (forall|j: int| 0 <= j < i + 1 ==> !#[trigger] under_crate_path(p, entries[j].0@))
                        implies file_at(after, p) == file_at(old(repo).tree, p) by {
                    assert(!under_crate_path(p, entries[i as int].0@));
                    if target.len() <= p.len() && p.take(target.len() as int) == target {
                        assert(is_crate_path(p.take(target.len() as int), entries[i as int].0@));
                    }
                    super::repository::lemma_write_then_read(before, after, dirs, name@, content@, p);
                    assert forall|j: int| 0 <= j < i implies !#[trigger] under_crate_path(
                        p,
                        entries[j].0@,
                    ) by {
                        assert(!under_crate_path(p, entries[j].0@));
                    }
                }
                if free_before {
                    assert forall|q: Seq<Seq<char>>| #[trigger] file_at(after, q) is Some implies !in_folder_place(q) by {
                        assert(file_at(after, q) == super::repository::after_write(
                            before,
                            target,
                            content@,
                            q,
                        ));
                        if q == target {
                            assert(encoded(q) == encoded(target));
                        }
                    }
                }
            }
            i = i + 1;
        }
        Ok(())
    }
}

/// A repository whose files all stand at its top under names longer than
/// two bytes, as `config.json` does, leaves the index's folders free.
pub proof fn lemma_top_files_leave_folders_free(tree: RepoTree)
    requires
        forall|path: Seq<Seq<char>>|
            #[trigger] file_at(tree, path) is Some ==> path.len() == 1 && encode_utf8(path[0]).len()
                > 2,
    ensures
        leaves_folders_free(tree),
{
    assert forall|path: Seq<Seq<char>>| #[trigger] file_at(tree, path) is Some implies !in_folder_place(path) by {
        assert(encoded(path)[0] == encode_utf8(path[0]));
    }
}

} // verus!
