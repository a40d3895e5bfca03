//! A work and the layout of its files:
//!
//! - `<base_path>/<id>/` is the work's directory;
//! - `<base_path>/<id>/description.yml` holds the work's description;
//! - `<base_path>/<id>/chapters/<chapter>/<entry id>.txt` is the backing
//!   file of an entry, empty when it is made.

use vstd::prelude::*;

use super::entry::{entry_file, entry_id, Entry, EntryView};
use crate::text::{join, join_path};

verus! {

/// What a work is: its metadata and its entries in chapter order.
pub struct WorkView {
    pub id: Seq<char>,
    pub title: Seq<char>,
    pub author: Seq<char>,
    pub description: Seq<char>,
    pub base_path: Seq<char>,
    pub entries: Seq<EntryView>,
}

/// The kinds of failure of the operations on a work's files.
#[derive(Debug, Clone, Copy, PartialEq, Eq, Structural)]
pub enum WorkError {
    /// The description file to load does not exist.
    NotFound,
    /// The path to load names a directory, not a file.
    InvalidInput,
    /// The description file to create exists already.
    AlreadyExists,
    /// Any other failure to create, read or write a file or directory.
    Io,
    /// The description file does not hold a work.
    Deserialization,
}

/// The work's directory: `<base_path>/<id>`.
pub open spec fn work_dir(w: WorkView) -> Seq<char> {
    join_path(w.base_path, w.id)
}

/// The work's description file: `<work_dir>/description.yml`.
pub open spec fn description_file(w: WorkView) -> Seq<char> {
    join_path(work_dir(w), seq!['d', 'e', 's', 'c', 'r', 'i', 'p', 't', 'i', 'o', 'n', '.', 'y', 'm', 'l'])
}

/// The directory of a chapter: `<work_dir>/chapters/<chapter>`.
pub open spec fn chapter_dir(w: WorkView, chapter: Seq<char>) -> Seq<char> {
    join_path(join_path(work_dir(w), seq!['c', 'h', 'a', 'p', 't', 'e', 'r', 's']), chapter)
}

/// The entry that comes next under `chapter`: numbered after all the entries
/// the work holds, with an empty title.
pub open spec fn next_entry_of(w: WorkView, chapter: Seq<char>) -> EntryView {
    EntryView { id: entry_id(chapter, w.entries.len()), title: seq![] }
}

/// The work with the next entry under `chapter` appended, all else unchanged.
pub open spec fn with_next_entry(w: WorkView, chapter: Seq<char>) -> WorkView {
    WorkView {
        id: w.id,
        title: w.title,
        author: w.author,
        description: w.description,
        base_path: w.base_path,
        entries: w.entries.push(next_entry_of(w, chapter)),
    }
}

/// The work after `k` entries were added under `chapter`, one after another.
pub open spec fn with_next_entries(w: WorkView, chapter: Seq<char>, k: nat) -> WorkView
    decreases k,
{
    if k == 0 {
        w
    } else {
        with_next_entry(with_next_entries(w, chapter, (k - 1) as nat), chapter)
    }
}

/// Loading a description from a path: a missing path is `NotFound`, a
/// directory is `InvalidInput`, and a file may be read.
pub open spec fn load_target(exists: bool, is_dir: bool) -> Result<(), WorkError> {
    if !exists {
        Err(WorkError::NotFound)
    } else if is_dir {
        Err(WorkError::InvalidInput)
    } else {
        Ok(())
    }
}

/// Creating a description file never overwrites one.
pub open spec fn create_target(exists: bool) -> Result<(), WorkError> {
    if exists {
        Err(WorkError::AlreadyExists)
    } else {
        Ok(())
    }
}

/// Making a directory that exists already counts as success; any other
/// failure stands.
pub open spec fn dir_outcome(created: Result<(), WorkError>) -> Result<(), WorkError> {
    match created {
        Err(WorkError::AlreadyExists) => Ok(()),
        other => other,
    }
}

/// Initialising a work: the directory step first, then the strict creation
/// of the description file.
pub open spec fn init_outcome(created: Result<(), WorkError>, description_exists: bool) -> Result<(), WorkError> {
    match dir_outcome(created) {
        Err(e) => Err(e),
        Ok(()) => create_target(description_exists),
    }
}

/// Adding `k` entries under one chapter label to a work of `n` entries keeps
/// the `n` entries it had and gives the new ones, in the order of the calls,
/// the ids `<chapter>-<n + 1>`, `<chapter>-<n + 2>`, ... up to
/// `<chapter>-<n + k>`, each with an empty title.
pub proof fn lemma_sequential_ids(w: WorkView, chapter: Seq<char>, k: nat)
    ensures
        with_next_entries(w, chapter, k).entries.len() == w.entries.len() + k,
        forall|i: int| 0 <= i < w.entries.len() ==> #[trigger] with_next_entries(w, chapter, k).entries[i] == w.entries[i],
        forall|j: int| 0 <= j < k ==> #[trigger] with_next_entries(w, chapter, k).entries[w.entries.len() + j] == (EntryView {
            id: entry_id(chapter, (w.entries.len() + j) as nat),
            title: seq![],
        }),
        with_next_entries(w, chapter, k).id == w.id,
        with_next_entries(w, chapter, k).title == w.title,
        with_next_entries(w, chapter, k).author == w.author,
        with_next_entries(w, chapter, k).description == w.description,
        with_next_entries(w, chapter, k).base_path == w.base_path,
    decreases k,
{
    if k > 0 {
        lemma_sequential_ids(w, chapter, (k - 1) as nat);
        let prev = with_next_entries(w, chapter, (k - 1) as nat);
        let cur = with_next_entries(w, chapter, k);
        assert(cur == with_next_entry(prev, chapter));
        assert forall|i: int| 0 <= i < w.entries.len() implies #[trigger] cur.entries[i] == w.entries[i] by {
            assert(cur.entries[i] == prev.entries[i]);
        }
        assert forall|j: int| 0 <= j < k implies #[trigger] cur.entries[w.entries.len() + j] == (EntryView {
            id: entry_id(chapter, (w.entries.len() + j) as nat),
            title: seq![],
        }) by {
            if j < k - 1 {
                assert(cur.entries[w.entries.len() + j] == prev.entries[w.entries.len() + j]);
            }
        }
    }
}

/// Initialising a work a second time: the directory step takes the directory
/// that the first call made as made, so the failure comes from the
/// description step, which refuses to overwrite the description file that
/// the first call wrote (`AlreadyExists`). The first call, on a fresh
/// directory, goes through.
pub proof fn lemma_init_twice()
    ensures
        init_outcome(Ok(()), false) == Ok::<(), WorkError>(()),
        dir_outcome(Err(WorkError::AlreadyExists)) == Ok::<(), WorkError>(()),
        init_outcome(Err(WorkError::AlreadyExists), true) == Err::<(), WorkError>(WorkError::AlreadyExists),
{
}

/// The paths of a work depend on its base path and id alone: adding an entry
/// moves neither its directory, nor its description file, nor a chapter's
/// directory.
pub proof fn lemma_paths_ignore_entries(w: WorkView, chapter: Seq<char>)
    ensures
        work_dir(with_next_entry(w, chapter)) == work_dir(w),
        description_file(with_next_entry(w, chapter)) == description_file(w),
        chapter_dir(with_next_entry(w, chapter), chapter) == chapter_dir(w, chapter),
{
}


/// A writing project: its metadata, the directory it lives under and its
/// entries in chapter order.
#[derive(Debug, PartialEq, Clone)]
pub struct Work {
    id: String,
    title: String,
    author: String,
    description: String,
    base_path: String,
    entries: Vec<Entry>,
}

impl View for Work {
    type V = WorkView;

    closed spec fn view(&self) -> WorkView {
        WorkView {
            id: self.id@,
            title: self.title@,
            author: self.author@,
            description: self.description@,
            base_path: self.base_path@,
            entries: self.entries@.map_values(|e: Entry| e@),
        }
    }
}

impl Work {
    /// A work with no entries yet.
    pub fn new(id: &str, author: &str, title: &str, description: &str, base_path: &str) -> (r: Work)
        ensures
            r@.id == id@,
            r@.author == author@,
            r@.title == title@,
            r@.description == description@,
            r@.base_path == base_path@,
            r@.entries == Seq::<EntryView>::empty(),
    {
        let r = Work {
            id: String::from_str(id),
            title: String::from_str(title),
            author: String::from_str(author),
            description: String::from_str(description),
            base_path: String::from_str(base_path),
            entries: Vec::new(),
        };
        assert(r@.entries =~= Seq::<EntryView>::empty());
        r
    }

    /// Decides the steps of initialising the work. `created` is how making
    /// the work's directory went, and `description_exists` whether its
    /// description file is there. The result is the path to write the new
    /// description file to, or the error that stops the initialisation.
    pub fn init(&self, created: Result<(), WorkError>, description_exists: bool) -> (r: Result<String, WorkError>)
        ensures
            init_outcome(created, description_exists) is Ok ==> r is Ok && r->Ok_0@ == description_file(self@),
            init_outcome(created, description_exists) matches Err(e) ==> r == Err::<String, WorkError>(e),
    {
        match Self::generate_dir_if_exists(created) {
            Err(e) => Err(e),
            Ok(()) => match Self::check_create_target(description_exists) {
                Err(e) => Err(e),
                Ok(()) => Ok(self.description_path()),
            },
        }
    }

    /// The work's directory: `<base_path>/<id>`.
    pub fn work_dir_path(&self) -> (r: String)
        ensures
            r@ == work_dir(self@),
    {
        join(self.base_path.as_str(), self.id.as_str())
    }

    /// The work's description file: `<work_dir>/description.yml`.
    pub fn description_path(&self) -> (r: String)
        ensures
            r@ == description_file(self@),
    {
        let dir = self.work_dir_path();
        let r = join(dir.as_str(), "description.yml");
        proof {
            reveal_strlit("description.yml");
            assert("description.yml"@ =~= seq!['d', 'e', 's', 'c', 'r', 'i', 'p', 't', 'i', 'o', 'n', '.', 'y', 'm', 'l']);
        }
        r
    }

    /// The directory that holds the entries of `chapter`:
    /// `<work_dir>/chapters/<chapter>`.
    pub fn chapter_dir_path(&self, chapter: &str) -> (r: String)
        ensures
            r@ == chapter_dir(self@, chapter@),
    {
        let dir = self.work_dir_path();
        let chapters = join(dir.as_str(), "chapters");
        proof {
            reveal_strlit("chapters");
            assert("chapters"@ =~= seq!['c', 'h', 'a', 'p', 't', 'e', 'r', 's']);
        }
        join(chapters.as_str(), chapter)
    }

    /// The entry that `add_entry(chapter)` appends, made before its backing
    /// file is created.
    pub fn next_entry(&self, chapter: &str) -> (r: Entry)
        requires
            self@.entries.len() < usize::MAX,
        ensures
            r@ == next_entry_of(self@, chapter@),
    {
        let n = self.entries.len();
        let r = Entry::new(chapter, &n, "");
        proof {
            reveal_strlit("");
        }
        assert(r@.title =~= Seq::<char>::empty());
        r
    }

    /// The work with one more entry under `chapter`, numbered after all the
    /// entries it holds; everything else is unchanged.
    pub fn add_entry(self, chapter: &str) -> (r: Work)
        requires
            self@.entries.len() < usize::MAX,
        ensures
            r@ == with_next_entry(self@, chapter@),
    {
        let entry = self.next_entry(chapter);
        let ghost before = self@;
        let mut w = self;
        w.entries.push(entry);
        assert(w@.entries =~= before.entries.push(next_entry_of(before, chapter@)));
        w
    }

    /// Whether a description can be loaded from a path: `exists` and `is_dir`
    /// say what the path names.
    pub fn check_load_target(exists: bool, is_dir: bool) -> (r: Result<(), WorkError>)
        ensures
            r == load_target(exists, is_dir),
    {
        if !exists {
            Err(WorkError::NotFound)
        } else if is_dir {
            Err(WorkError::InvalidInput)
        } else {
            Ok(())
        }
    }

    /// Whether a description file can be created, given whether it exists.
    pub fn check_create_target(exists: bool) -> (r: Result<(), WorkError>)
        ensures
            r == create_target(exists),
    {
        if exists {
            Err(WorkError::AlreadyExists)
        } else {
            Ok(())
        }
    }

    /// The outcome of making a directory, once one that exists already is
    /// taken as made.
    pub fn generate_dir_if_exists(created: Result<(), WorkError>) -> (r: Result<(), WorkError>)
        ensures
            r == dir_outcome(created),
    {
        match created {
            Err(WorkError::AlreadyExists) => Ok(()),
            other => other,
        }
    }

    /// A work as a stored description gives it.
    pub fn from_parts(
        id: &str,
        author: &str,
        title: &str,
        description: &str,
        base_path: &str,
        entries: Vec<Entry>,
    ) -> (r: Work)
        ensures
            r@.id == id@,
            r@.author == author@,
            r@.title == title@,
            r@.description == description@,
            r@.base_path == base_path@,
            r@.entries == entries@.map_values(|e: Entry| e@),
    {
        Work {
            id: String::from_str(id),
            title: String::from_str(title),
            author: String::from_str(author),
            description: String::from_str(description),
            base_path: String::from_str(base_path),
            entries,
        }
    }

    /// A line for people: `<title>, written by <author>`.
    pub fn describe(&self) -> (r: String)
        ensures
            r@ == self@.title + seq![',', ' ', 'w', 'r', 'i', 't', 't', 'e', 'n', ' ', 'b', 'y', ' '] + self@.author,
    {
        let mut r = String::from_str(self.title.as_str());
        r.append(", written by ");
        r.append(self.author.as_str());
        proof {
            reveal_strlit(", written by ");
        }
        assert(r@ =~= self@.title + seq![',', ' ', 'w', 'r', 'i', 't', 't', 'e', 'n', ' ', 'b', 'y', ' '] + self@.author);
        r
    }

    pub fn id(&self) -> (r: &str)
        ensures
            r@ == self@.id,
    {
        self.id.as_str()
    }

    pub fn title(&self) -> (r: &str)
        ensures
            r@ == self@.title,
    {
        self.title.as_str()
    }

    pub fn author(&self) -> (r: &str)
        ensures
            r@ == self@.author,
    {
        self.author.as_str()
    }

    pub fn description(&self) -> (r: &str)
        ensures
            r@ == self@.description,
    {
        self.description.as_str()
    }

    pub fn base_path(&self) -> (r: &str)
        ensures
            r@ == self@.base_path,
    {
        self.base_path.as_str()
    }

    /// The entries in chapter order.
    pub fn entries(&self) -> (r: &Vec<Entry>)
        ensures
            r@.map_values(|e: Entry| e@) == self@.entries,
    {
        &self.entries
    }
}

} // verus!
