//! Finding wallpaper files by extension in a set of directories, and picking
//! one of them at random.
use vstd::prelude::*;

use crate::search::{first_index, lemma_first_index_is, lemma_no_index};

verus! {

/// The random number generator of the current thread.
#[verifier::external_type_specification]
#[verifier::external_body]
pub struct ExThreadRng(rand::rngs::ThreadRng);

/// `rand::rng`: the generator of the current thread. It panics only where
/// the system's random source fails at the first seeding, which no argument
/// decides.
#[verifier::external_body]
fn thread_rng() -> rand::rngs::ThreadRng {
    rand::rng()
}

/// `rand::random_range` over `0..bound`: a uniformly drawn integer below
/// `bound`. Chance decides which, so only its range is stated; the crate
/// panics on an empty range, which `requires` leaves out.
#[verifier::external_body]
fn draw_below(bound: usize) -> (res: usize)
    requires
        bound > 0,
    ensures
        res < bound,
{
    rand::random_range(0..bound)
}

/// `rand::seq::IndexedRandom::choose` on a list of paths: `None` for an
/// empty list, else one of its items, drawn uniformly (only which items can
/// come back is stated).
#[verifier::external_body]
fn choose_path(paths: &[String], rng: &mut rand::rngs::ThreadRng) -> (res: Option<String>)
    ensures
        res is None <==> paths@.len() == 0,
        res matches Some(p) ==> exists|i: int| 0 <= i < paths@.len() && #[trigger] paths@[i]@ == p@,
{
    rand::seq::IndexedRandom::choose(paths, rng).cloned()
}

/// Whether two paths name the same file path by `std::path::Path`'s
/// equality, which compares the paths component by component.
pub uninterp spec fn paths_equal(a: Seq<char>, b: Seq<char>) -> bool;

/// `==` of `std::path::Path`. Its result is named by `paths_equal`; the one
/// fact stated beside it is that a path equals itself.
#[verifier::external_body]
fn same_path(a: &str, b: &str) -> (res: bool)
    ensures
        res == paths_equal(a@, b@),
        a@ == b@ ==> res,
{
    std::path::Path::new(a) == std::path::Path::new(b)
}

/// Why no file was found or picked.
#[derive(Debug)]
pub enum RandomFileError {
    NoDirectories,
    NoMatchingFiles { extensions: Vec<String> },
    ReadDir { path: String, source: std::io::Error },
    NotADirectory { path: String },
}

/// What reading a directory showed of one entry: its path, whether it is a
/// regular file, and its extension (the part of the file name after the
/// last `.`, where there is one and it is valid text).
pub struct DirEntryInfo {
    pub path: String,
    pub is_file: bool,
    pub extension: Option<String>,
}

/// What reading one directory gave: that the path is no directory, or the
/// entries read in order, with the error that stopped the reading where one
/// did.
pub enum DirectoryScan {
    NotADirectory,
    Listed { entries: Vec<DirEntryInfo>, failure: Option<std::io::Error> },
}

/// An extension without its one leading `.`, where it has one.
pub open spec fn normalized_extension(e: Seq<char>) -> Seq<char> {
    if e.len() > 0 && e[0] == '.' {
        e.subrange(1, e.len() as int)
    } else {
        e
    }
}

/// The text of each string of a list.
pub open spec fn texts(v: Seq<String>) -> Seq<Seq<char>> {
    v.map_values(|s: String| s@)
}

/// The entry is a file with one of the extensions and is none of the
/// excluded paths.
pub open spec fn entry_accepted(
    entry: DirEntryInfo,
    extensions: Seq<Seq<char>>,
    excluded: Seq<Seq<char>>,
) -> bool {
    &&& entry.is_file
    &&& entry.extension is Some
    &&& extensions.contains(entry.extension->0@)
    &&& !(exists|k: int| 0 <= k < excluded.len() && paths_equal(#[trigger] excluded[k], entry.path@))
}

/// The paths of the accepted entries, in order.
pub open spec fn accepted_paths(
    entries: Seq<DirEntryInfo>,
    extensions: Seq<Seq<char>>,
    excluded: Seq<Seq<char>>,
) -> Seq<Seq<char>>
    decreases entries.len(),
{
    if entries.len() == 0 {
        Seq::empty()
    } else {
        let prefix = accepted_paths(entries.drop_last(), extensions, excluded);
        if entry_accepted(entries.last(), extensions, excluded) {
            prefix.push(entries.last().path@)
        } else {
            prefix
        }
    }
}

/// The entries a scan read (none for a path that is no directory).
pub open spec fn scan_entries(scan: DirectoryScan) -> Seq<DirEntryInfo> {
    match scan {
        DirectoryScan::NotADirectory => Seq::empty(),
        DirectoryScan::Listed { entries, failure: _ } => entries@,
    }
}

/// The scan ends in an error: no directory, or a read that failed.
pub open spec fn scan_fails(scan: DirectoryScan) -> bool {
    match scan {
        DirectoryScan::NotADirectory => true,
        DirectoryScan::Listed { entries: _, failure } => failure is Some,
    }
}

/// The accepted paths of each scan, one scan after the other.
pub open spec fn accepted_paths_of_scans(
    scans: Seq<DirectoryScan>,
    extensions: Seq<Seq<char>>,
    excluded: Seq<Seq<char>>,
) -> Seq<Seq<char>>
    decreases scans.len(),
{
    if scans.len() == 0 {
        Seq::empty()
    } else {
        accepted_paths_of_scans(scans.drop_last(), extensions, excluded) + accepted_paths(
            scan_entries(scans.last()),
            extensions,
            excluded,
        )
    }
}

/// The position of the first scan that ends in an error, if one does.
pub open spec fn first_failure(scans: Seq<DirectoryScan>) -> Option<int> {
    first_index(scans.len() as int, |i: int| scan_fails(scans[i]))
}

/// How many scans are read: up to and with the first that fails, else all.
pub open spec fn scans_read(scans: Seq<DirectoryScan>) -> int {
    match first_failure(scans) {
        Some(k) => k + 1,
        None => scans.len() as int,
    }
}

/// The paths that a search collects from the scans, in order: those of the
/// scans read.
pub open spec fn collected_paths(
    scans: Seq<DirectoryScan>,
    extensions: Seq<Seq<char>>,
    excluded: Seq<Seq<char>>,
) -> Seq<Seq<char>> {
    accepted_paths_of_scans(scans.take(scans_read(scans)), extensions, excluded)
}

/// The error of the first failing scan, for the directory `path`.
pub open spec fn scan_error(scan: DirectoryScan, path: String) -> RandomFileError {
    match scan {
        DirectoryScan::NotADirectory => RandomFileError::NotADirectory { path },
        DirectoryScan::Listed { entries: _, failure } => RandomFileError::ReadDir {
            path,
            source: failure->0,
        },
    }
}

/// The search's error where a scan fails: that of the first failing scan,
/// for its directory.
pub open spec fn search_error(
    directories: Seq<Seq<char>>,
    scans: Seq<DirectoryScan>,
    error: RandomFileError,
) -> bool {
    first_failure(scans) matches Some(k) && match (scans[k], error) {
        (DirectoryScan::NotADirectory, RandomFileError::NotADirectory { path }) => path@
            == directories[k],
        (
            DirectoryScan::Listed { entries: _, failure },
            RandomFileError::ReadDir { path, source },
        ) => path@ == directories[k] && failure == Some(source),
        _ => false,
    }
}

/// The extension without its one leading `.`.
pub fn normalize_extension(e: &str) -> (res: String)
    ensures
        res@ == normalized_extension(e@),
{
    let n = e.unicode_len();
    if n > 0 && e.get_char(0) == '.' {
        String::from_str(e.substring_char(1, n))
    } else {
        String::from_str(e)
    }
}

/// Each extension without its one leading `.`.
pub fn normalize_extensions(extensions: &[String]) -> (res: Vec<String>)
    ensures
        res@.len() == extensions@.len(),
        forall|i: int|
            0 <= i < extensions@.len() ==> #[trigger] res@[i]@ == normalized_extension(
                extensions@[i]@,
            ),
{
    let mut res: Vec<String> = Vec::new();
    let mut i: usize = 0;
    while i < extensions.len()
        invariant
            0 <= i <= extensions@.len(),
            res@.len() == i,
            forall|j: int|
                0 <= j < i ==> #[trigger] res@[j]@ == normalized_extension(extensions@[j]@),
        decreases extensions@.len() - i,
    {
        res.push(normalize_extension(extensions[i].as_str()));
        i = i + 1;
    }
    res
}

/// A copy of a list of strings.
pub fn copy_strings(v: &[String]) -> (res: Vec<String>)
    ensures
        texts(res@) == texts(v@),
{
    let mut res: Vec<String> = Vec::new();
    let mut i: usize = 0;
    while i < v.len()
        invariant
            0 <= i <= v@.len(),
            res@.len() == i,
            forall|j: int| 0 <= j < i ==> #[trigger] res@[j]@ == v@[j]@,
        decreases v@.len() - i,
    {
        res.push(v[i].clone());
        i = i + 1;
    }
    assert(texts(res@) =~= texts(v@));
    res
}

/// Whether one of the extensions is `e`.
fn has_extension(extensions: &[String], e: &String) -> (res: bool)
    ensures
        res == texts(extensions@).contains(e@),
{
    let mut i: usize = 0;
    while i < extensions.len()
        invariant
            0 <= i <= extensions@.len(),
            forall|j: int| 0 <= j < i ==> #[trigger] extensions@[j]@ != e@,
        decreases extensions@.len() - i,
    {
        if extensions[i] == *e {
            assert(texts(extensions@)[i as int] == e@);
            return true;
        }
        i = i + 1;
    }
    proof {
        if texts(extensions@).contains(e@) {
            let k = choose|k: int| 0 <= k < texts(extensions@).len() && texts(extensions@)[k] == e@;
            assert(extensions@[k]@ != e@);
        }
    }
    false
}

/// Whether the path is one of the excluded ones.
fn is_excluded(excluded: &[String], path: &String) -> (res: bool)
    ensures
        res == exists|k: int|
            0 <= k < excluded@.len() && paths_equal(#[trigger] texts(excluded@)[k], path@),
{
    let mut i: usize = 0;
    while i < excluded.len()
        invariant
            0 <= i <= excluded@.len(),
            forall|j: int| 0 <= j < i ==> !paths_equal(#[trigger] texts(excluded@)[j], path@),
        decreases excluded@.len() - i,
    {
        if same_path(excluded[i].as_str(), path.as_str()) {
            assert(paths_equal(texts(excluded@)[i as int], path@));
            return true;
        }
        i = i + 1;
    }
    false
}

/// Whether the entry is accepted.
fn accepts(entry: &DirEntryInfo, extensions: &[String], excluded: &[String]) -> (res: bool)
    ensures
        res == entry_accepted(*entry, texts(extensions@), texts(excluded@)),
{
    if !entry.is_file {
        return false;
    }
    match &entry.extension {
        Some(e) => has_extension(extensions, e) && !is_excluded(excluded, &entry.path),
        None => false,
    }
}

/// Appends the paths of the accepted entries to `matching_files`, in order.
fn push_accepted(
    entries: &Vec<DirEntryInfo>,
    extensions: &[String],
    excluded: &[String],
    matching_files: &mut Vec<String>,
)
    ensures
        texts(final(matching_files)@) == texts(old(matching_files)@) + accepted_paths(
            entries@,
            texts(extensions@),
            texts(excluded@),
        ),
{
    let ghost start = texts(matching_files@);
    let mut i: usize = 0;
    while i < entries.len()
        invariant
            0 <= i <= entries@.len(),
            texts(matching_files@) == start + accepted_paths(
                entries@.take(i as int),
                texts(extensions@),
                texts(excluded@),
            ),
        decreases entries@.len() - i,
    {
        assert(entries@.take(i + 1).drop_last() =~= entries@.take(i as int));
        assert(entries@.take(i + 1).last() == entries@[i as int]);
        let ghost before = matching_files@;
        if accepts(&entries[i], extensions, excluded) {
            let path = entries[i].path.clone();
            matching_files.push(path);
            assert(texts(matching_files@) =~= texts(before).push(entries@[i as int].path@));
            assert(texts(matching_files@) =~= start + accepted_paths(
                entries@.take(i + 1),
                texts(extensions@),
                texts(excluded@),
            ));
        } else {
            assert(accepted_paths(entries@.take(i + 1), texts(extensions@), texts(excluded@))
                =~= accepted_paths(entries@.take(i as int), texts(extensions@), texts(excluded@)));
        }
        i = i + 1;
    }
    assert(entries@.take(entries@.len() as int) =~= entries@);
}

/// Appends to `matching_files`, directory by directory, the paths of the
/// files with one of the (already normalised) extensions that are none of
/// the excluded paths, up to the first directory whose scan fails, whose
/// error it then gives.
fn collect_matching_files(
    directories: &[String],
    scans: Vec<DirectoryScan>,
    extensions: &[String],
    excluded: &[String],
    matching_files: &mut Vec<String>,
) -> (res: Result<(), RandomFileError>)
    requires
        scans@.len() == directories@.len(),
    ensures
        texts(final(matching_files)@) == texts(old(matching_files)@) + collected_paths(
            scans@,
            texts(extensions@),
            texts(excluded@),
        ),
        res is Ok <==> first_failure(scans@) is None,
        res matches Err(e) ==> search_error(texts(directories@), scans@, e),
{
    let ghost start = texts(matching_files@);
    let ghost all = scans@;
    let ghost exts = texts(extensions@);
    let ghost excl = texts(excluded@);
    let mut rest = scans;
    let mut i: usize = 0;
    while i < directories.len()
        invariant
            0 <= i <= directories@.len(),
            all == scans@,
            start == texts(old(matching_files)@),
            all.len() == directories@.len(),
            rest@ == all.skip(i as int),
            exts == texts(extensions@),
            excl == texts(excluded@),
            forall|j: int| 0 <= j < i ==> !scan_fails(#[trigger] all[j]),
            texts(matching_files@) == start + accepted_paths_of_scans(all.take(i as int), exts, excl),
        decreases directories@.len() - i,
    {
        let scan = rest.remove(0);
        assert(scan == all[i as int]);
        assert(all.take(i + 1).drop_last() =~= all.take(i as int));
        assert(all.take(i + 1).last() == all[i as int]);
        match scan {
            DirectoryScan::NotADirectory => {
                proof {
                    lemma_first_index_is(all.len() as int, |k: int| scan_fails(all[k]), i as int);
                    assert(accepted_paths(scan_entries(all[i as int]), exts, excl) =~= Seq::empty());
                    assert(texts(matching_files@) =~= start + accepted_paths_of_scans(
                        all.take(i + 1),
                        exts,
                        excl,
                    ));
                }
                return Err(RandomFileError::NotADirectory { path: directories[i].clone() });
            },
            DirectoryScan::Listed { entries, failure } => {
                push_accepted(&entries, extensions, excluded, matching_files);
                proof {
                    assert(texts(matching_files@) =~= start + accepted_paths_of_scans(
                        all.take(i + 1),
                        exts,
                        excl,
                    ));
                }
                match failure {
                    Some(source) => {
                        proof {
                            lemma_first_index_is(all.len() as int, |k: int| scan_fails(all[k]), i as int);
                        }
                        return Err(RandomFileError::ReadDir { path: directories[i].clone(), source });
                    },
                    None => {},
                }
            },
        }
        i = i + 1;
    }
    proof {
        assert(all.take(i as int) =~= all);
        lemma_no_index(all.len() as int, |k: int| scan_fails(all[k]));
    }
    Ok(())
}

/// The outcome of filling a list with the files found: no directories and
/// no extensions are errors that add nothing; else the files of the scans
/// read are added, and the first failing scan's error is given, or, where
/// every scan succeeds and no file matches, an error that names the
/// extensions (without their leading `.`).
pub open spec fn fill_outcome(
    directories: Seq<Seq<char>>,
    scans: Seq<DirectoryScan>,
    extensions: Seq<Seq<char>>,
    excluded: Seq<Seq<char>>,
    before: Seq<Seq<char>>,
    after: Seq<Seq<char>>,
    res: Result<(), RandomFileError>,
) -> bool {
    let exts = extensions.map_values(|e: Seq<char>| normalized_extension(e));
    if directories.len() == 0 {
        res matches Err(RandomFileError::NoDirectories) && after == before
    } else if extensions.len() == 0 {
        res matches Err(RandomFileError::NoMatchingFiles { extensions: e }) && e@.len() == 0
            && after == before
    } else {
        let found = collected_paths(scans, exts, excluded);
        &&& after == before + found
        &&& res is Ok <==> (first_failure(scans) is None && found.len() > 0)
        &&& first_failure(scans) is Some ==> (res matches Err(e) && search_error(
            directories,
            scans,
            e,
        ))
        &&& first_failure(scans) is None && found.len() == 0 ==> (res matches Err(
            RandomFileError::NoMatchingFiles { extensions: e },
        ) && texts(e@) == exts)
    }
}

/// Fills `matching_files` with the paths of the files in `directories`
/// (not searched recursively) that have one of `extensions` and are none
/// of `excluded_files`; `scans` is what reading each directory gave, in the
/// same order. An extension's leading `.` is dropped and extensions are
/// matched case-sensitively. The list is not cleared first. Finding no
/// matching file is an error.
pub fn fill_matching_files(
    directories: &[String],
    scans: Vec<DirectoryScan>,
    extensions: &[String],
    excluded_files: &[String],
    matching_files: &mut Vec<String>,
) -> (res: Result<(), RandomFileError>)
    requires
        scans@.len() == directories@.len(),
    ensures
        fill_outcome(
            texts(directories@),
            scans@,
            texts(extensions@),
            texts(excluded_files@),
            texts(old(matching_files)@),
            texts(final(matching_files)@),
            res,
        ),
{
    if directories.len() == 0 {
        return Err(RandomFileError::NoDirectories);
    }
    let extensions_normalized = normalize_extensions(extensions);
    if extensions_normalized.len() == 0 {
        return Err(RandomFileError::NoMatchingFiles { extensions: Vec::new() });
    }
    let before_len = matching_files.len();
    let collected = collect_matching_files(
        directories,
        scans,
        extensions_normalized.as_slice(),
        excluded_files,
        matching_files,
    );
    proof {
        assert(texts(extensions_normalized@) =~= texts(extensions@).map_values(
            |e: Seq<char>| normalized_extension(e),
        ));
    }
    match collected {
        Err(e) => Err(e),
        Ok(()) => {
            let ghost found = collected_paths(
                scans@,
                texts(extensions@).map_values(|e: Seq<char>| normalized_extension(e)),
                texts(excluded_files@),
            );
            assert(texts(matching_files@).len() == matching_files@.len());
            assert(texts(old(matching_files)@).len() == before_len);
            if matching_files.len() == before_len {
                assert(found.len() == 0);
                Err(RandomFileError::NoMatchingFiles { extensions: extensions_normalized })
            } else {
                assert(found.len() > 0);
                Ok(())
            }
        },
    }
}

/// The index drawn next out of `len` files, from a `draw` below `len`, or
/// below `len - 1` where the previous pick is one of the files: the draw
/// skips over the previous pick, so that every other file is equally
/// likely and the previous one never comes back at once.
pub open spec fn next_index_spec(len: nat, prev_index: Option<usize>, draw: nat) -> nat {
    if prev_index matches Some(p) && p < len && draw >= p {
        draw + 1
    } else {
        draw
    }
}

/// The draws map one to one onto the files other than the previous pick:
/// a draw below `len - 1` gives a file other than the previous one, two
/// different draws give two different files, and every file `j` other than
/// the previous one is given by some draw, so each of them is equally
/// likely under a uniform draw.
pub proof fn lemma_next_index_is_a_bijection(len: nat, p: usize, d1: nat, d2: nat, j: nat)
    requires
        len >= 2,
        p < len,
    ensures
        d1 < len - 1 ==> next_index_spec(len, Some(p), d1) < len && next_index_spec(
            len,
            Some(p),
            d1,
        ) != p,
        d1 < len - 1 && d2 < len - 1 && d1 != d2 ==> next_index_spec(len, Some(p), d1)
            != next_index_spec(len, Some(p), d2),
        j < len && j != p ==> exists|d: nat| d < len - 1 && #[trigger] next_index_spec(
            len,
            Some(p),
            d,
        ) == j,
{
    if j < len && j != p {
        let d: nat = if j < p {
            j
        } else {
            (j - 1) as nat
        };
        assert(next_index_spec(len, Some(p), d) == j);
    }
}

/// Without a previous pick among the files, the draw is the file.
pub proof fn lemma_next_index_without_previous(len: nat, prev_index: Option<usize>, d: nat)
    requires
        !avoids(len, prev_index),
    ensures
        next_index_spec(len, prev_index, d) == d,
{
}

/// Whether the previous pick is one of `len` files and so is to be
/// avoided.
pub open spec fn avoids(len: nat, prev_index: Option<usize>) -> bool {
    prev_index matches Some(p) && p < len
}

/// The index picked out of `len` files for a draw below `len` (or below
/// `len - 1` where the previous pick is to be avoided).
pub fn next_index(len: usize, prev_index: Option<usize>, draw: usize) -> (res: usize)
    requires
        len >= 2,
        draw < (if avoids(len as nat, prev_index) { len - 1 } else { len as int }),
    ensures
        res == next_index_spec(len as nat, prev_index, draw as nat),
        res < len,
        prev_index matches Some(p) ==> (p < len ==> res != p),
{
    match prev_index {
        Some(p) => {
            if p < len && draw >= p {
                draw + 1
            } else {
                draw
            }
        },
        None => draw,
    }
}

/// Picks wallpaper files at random, never the same one twice in a row.
pub struct RandomFileSelector {
    directories: Vec<String>,
    extensions: Vec<String>,
    matching_files: Vec<String>,
    prev_index: Option<usize>,
}

impl RandomFileSelector {
    /// The directories searched.
    pub closed spec fn spec_directories(&self) -> Seq<Seq<char>> {
        texts(self.directories@)
    }

    /// The extensions matched, as given.
    pub closed spec fn spec_extensions(&self) -> Seq<Seq<char>> {
        texts(self.extensions@)
    }

    /// The files found by the last search.
    pub closed spec fn spec_matching_files(&self) -> Seq<Seq<char>> {
        texts(self.matching_files@)
    }

    /// The position of the file picked last, if any.
    pub closed spec fn spec_prev_index(&self) -> Option<usize> {
        self.prev_index
    }

    /// A selector of the given directories and extensions, which has found
    /// and picked nothing yet.
    pub fn new(directories: Vec<String>, extensions: Vec<String>) -> (res: RandomFileSelector)
        ensures
            res.spec_directories() == texts(directories@),
            res.spec_extensions() == texts(extensions@),
            res.spec_matching_files() == Seq::<Seq<char>>::empty(),
            res.spec_prev_index() is None,
    {
        let res = RandomFileSelector {
            directories,
            extensions,
            matching_files: Vec::new(),
            prev_index: None,
        };
        assert(texts(res.matching_files@) =~= Seq::<Seq<char>>::empty());
        res
    }

    /// The directories to scan before a search.
    pub fn directories(&self) -> (res: &[String])
        ensures
            texts(res@) == self.spec_directories(),
    {
        self.directories.as_slice()
    }

    /// Searches the directories again, given what reading each of them gave
    /// (in the order of `directories`). The files found replace those found
    /// before; on success the previous pick is forgotten, on failure it is
    /// kept and the files found are those collected up to the failing
    /// directory.
    pub fn refresh_matching_files(&mut self, scans: Vec<DirectoryScan>) -> (res: Result<
        (),
        RandomFileError,
    >)
        requires
            scans@.len() == old(self).spec_directories().len(),
        ensures
            final(self).spec_directories() == old(self).spec_directories(),
            final(self).spec_extensions() == old(self).spec_extensions(),
            fill_outcome(
                old(self).spec_directories(),
                scans@,
                old(self).spec_extensions(),
                Seq::empty(),
                Seq::empty(),
                final(self).spec_matching_files(),
                res,
            ),
            res is Ok ==> final(self).spec_prev_index() is None,
            res is Err ==> final(self).spec_prev_index() == old(self).spec_prev_index(),
    {
        self.matching_files.clear();
        let none: Vec<String> = Vec::new();
        proof {
            assert(texts(self.matching_files@) =~= Seq::<Seq<char>>::empty());
            assert(texts(none@) =~= Seq::<Seq<char>>::empty());
        }
        let res = fill_matching_files(
            self.directories.as_slice(),
            scans,
            self.extensions.as_slice(),
            none.as_slice(),
            &mut self.matching_files,
        );
        match res {
            Ok(()) => {
                self.prev_index = None;
                Ok(())
            },
            Err(e) => Err(e),
        }
    }

    /// Picks one of the files found at random. With one file that file is
    /// picked; with more, any but the one picked last. With none, the error
    /// names the configured extensions.
    pub fn pick_next(&mut self) -> (res: Result<String, RandomFileError>)
        ensures
            pick_outcome(*old(self), *final(self), res),
    {
        let len = self.matching_files.len();
        if len == 0 {
            return Err(
                RandomFileError::NoMatchingFiles {
                    extensions: copy_strings(self.extensions.as_slice()),
                },
            );
        }
        if len == 1 {
            self.prev_index = Some(0);
            let path = self.matching_files[0].clone();
            assert(path@ == texts(self.matching_files@)[0]);
            return Ok(path);
        }
        let avoid = match self.prev_index {
            Some(p) => p < len,
            None => false,
        };
        let bound = if avoid {
            len - 1
        } else {
            len
        };
        let draw = draw_below(bound);
        let index = next_index(len, self.prev_index, draw);
        self.prev_index = Some(index);
        let path = self.matching_files[index].clone();
        assert(path@ == texts(self.matching_files@)[index as int]);
        Ok(path)
    }
}

/// What a pick does: the files are kept; with none, the error names the
/// configured extensions and nothing else changes; else one of the files is
/// given and remembered as picked last: the only one where there is one,
/// and another than the one picked before where there are more.
pub open spec fn pick_outcome(
    before: RandomFileSelector,
    after: RandomFileSelector,
    res: Result<String, RandomFileError>,
) -> bool {
    let files = before.spec_matching_files();
    &&& after.spec_directories() == before.spec_directories()
    &&& after.spec_extensions() == before.spec_extensions()
    &&& after.spec_matching_files() == files
    &&& files.len() == 0 ==> (res matches Err(RandomFileError::NoMatchingFiles { extensions })
        && texts(extensions@) == before.spec_extensions() && after.spec_prev_index()
        == before.spec_prev_index())
    &&& files.len() > 0 ==> (res matches Ok(path) && after.spec_prev_index() matches Some(i) && i
        < files.len() && path@ == files[i as int])
    &&& files.len() == 1 ==> after.spec_prev_index() == Some(0usize)
    &&& files.len() >= 2 ==> (before.spec_prev_index() matches Some(p) ==> (p < files.len()
        ==> after.spec_prev_index() != Some(p)))
}

/// Two picks in a row out of two or more files never give the same file
/// (by its place in the list).
pub proof fn lemma_no_file_twice_in_a_row(
    s0: RandomFileSelector,
    s1: RandomFileSelector,
    s2: RandomFileSelector,
    r1: Result<String, RandomFileError>,
    r2: Result<String, RandomFileError>,
)
    requires
        pick_outcome(s0, s1, r1),
        pick_outcome(s1, s2, r2),
        s0.spec_matching_files().len() >= 2,
    ensures
        r1 is Ok && r2 is Ok,
        s1.spec_prev_index() is Some && s2.spec_prev_index() is Some,
        s1.spec_prev_index() != s2.spec_prev_index(),
{
}

/// Selects a random file out of `directories` (not searched recursively)
/// that has one of `extensions` (a leading `.` dropped, matched
/// case-sensitively) and is none of `excluded_files`; `scans` is what
/// reading each directory gave, in order.
pub fn select_random_file(
    directories: &[String],
    scans: Vec<DirectoryScan>,
    extensions: &[String],
    excluded_files: &[String],
) -> (res: Result<String, RandomFileError>)
    requires
        scans@.len() == directories@.len(),
    ensures
        directories@.len() == 0 ==> res matches Err(RandomFileError::NoDirectories),
        directories@.len() > 0 && extensions@.len() == 0 ==> (res matches Err(
            RandomFileError::NoMatchingFiles { extensions: e },
        ) && e@.len() == 0),
        directories@.len() > 0 && extensions@.len() > 0 ==> {
            let exts = texts(extensions@).map_values(|e: Seq<char>| normalized_extension(e));
            let found = collected_paths(scans@, exts, texts(excluded_files@));
            &&& first_failure(scans@) is Some ==> (res matches Err(e) && search_error(
                texts(directories@),
                scans@,
                e,
            ))
            &&& first_failure(scans@) is None && found.len() == 0 ==> (res matches Err(
                RandomFileError::NoMatchingFiles { extensions: e },
            ) && texts(e@) == exts)
            &&& first_failure(scans@) is None && found.len() > 0 ==> (res matches Ok(path)
                && found.contains(path@))
        },
{
    if directories.len() == 0 {
        return Err(RandomFileError::NoDirectories);
    }
    let extensions_normalized = normalize_extensions(extensions);
    if extensions_normalized.len() == 0 {
        return Err(RandomFileError::NoMatchingFiles { extensions: Vec::new() });
    }
    let mut matching_files: Vec<String> = Vec::new();
    proof {
        assert(texts(extensions_normalized@) =~= texts(extensions@).map_values(
            |e: Seq<char>| normalized_extension(e),
        ));
        assert(texts(matching_files@) =~= Seq::<Seq<char>>::empty());
    }
    let res = collect_matching_files(
        directories,
        scans,
        extensions_normalized.as_slice(),
        excluded_files,
        &mut matching_files,
    );
    match res {
        Err(e) => return Err(e),
        Ok(()) => {},
    }
    if matching_files.len() == 0 {
        return Err(RandomFileError::NoMatchingFiles { extensions: extensions_normalized });
    }
    let mut rng = thread_rng();
    match choose_path(matching_files.as_slice(), &mut rng) {
        Some(path) => {
            proof {
                let i = choose|i: int|
                    0 <= i < matching_files@.len() && #[trigger] matching_files@[i]@ == path@;
                assert(texts(matching_files@)[i] == path@);
            }
            Ok(path)
        },
        None => Err(RandomFileError::NoMatchingFiles { extensions: extensions_normalized }),
    }
}

} // verus!
