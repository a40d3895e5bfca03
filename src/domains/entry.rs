//! An entry of a work: a chapter or an episode, with its backing file.

use vstd::prelude::*;

use crate::text::{decimal, join, join_path, to_decimal};

verus! {

/// What an entry is: its id and its title.
pub struct EntryView {
    pub id: Seq<char>,
    pub title: Seq<char>,
}

/// The id of the entry that follows `index` entries under `chapter`:
/// `<chapter>-<index + 1>`.
pub open spec fn entry_id(chapter: Seq<char>, index: nat) -> Seq<char> {
    chapter + seq!['-'] + decimal(index + 1)
}

/// The name of an entry's backing file: `<id>.txt`.
pub open spec fn entry_file(id: Seq<char>) -> Seq<char> {
    id + seq!['.', 't', 'x', 't']
}

/// A chapter or episode of a work. Its id is given once, when the entry is
/// made, and is never changed.
#[derive(Debug, PartialEq, Clone)]
pub struct Entry {
    id: String,
    title: String,
}

impl View for Entry {
    type V = EntryView;

    closed spec fn view(&self) -> EntryView {
        EntryView { id: self.id@, title: self.title@ }
    }
}

impl Entry {
    /// The entry that follows `entry_size` entries under `chapter`.
    pub fn new(chapter: &str, entry_size: &usize, title: &str) -> (r: Entry)
        requires
            *entry_size < usize::MAX,
        ensures
            r@.id == entry_id(chapter@, *entry_size as nat),
            r@.title == title@,
    {
        Entry { id: Self::generate_id(chapter, entry_size), title: String::from_str(title) }
    }

    /// An entry with the given id and title, as a stored description holds it.
    pub fn from_parts(id: &str, title: &str) -> (r: Entry)
        ensures
            r@.id == id@,
            r@.title == title@,
    {
        Entry { id: String::from_str(id), title: String::from_str(title) }
    }

    pub fn id(&self) -> (r: &str)
        ensures
            r@ == self@.id,
    {
        self.id.as_str()
    }

    pub fn title(&self) -> (r: &str)
        ensures
            r@ == self@.title,
    {
        self.title.as_str()
    }

    /// The relative name of the backing file: `./<id>.txt`.
    pub fn file_name(&self) -> (r: String)
        ensures
            r@ == seq!['.', '/'] + entry_file(self@.id),
    {
        let mut r = String::from_str("./");
        r.append(self.id.as_str());
        r.append(".txt");
        proof {
            reveal_strlit("./");
            reveal_strlit(".txt");
        }
        assert(r@ =~= seq!['.', '/'] + entry_file(self@.id));
        r
    }

    /// The path of the backing file in the directory `chapter_dir`.
    pub fn entry_path(&self, chapter_dir: &str) -> (r: String)
        ensures
            r@ == join_path(chapter_dir@, entry_file(self@.id)),
    {
        let mut name = String::from_str(self.id.as_str());
        name.append(".txt");
        proof {
            reveal_strlit(".txt");
        }
        assert(name@ =~= entry_file(self@.id));
        join(chapter_dir, name.as_str())
    }

    fn generate_id(chapter: &str, entry_size: &usize) -> (r: String)
        requires
            *entry_size < usize::MAX,
        ensures
            r@ == entry_id(chapter@, *entry_size as nat),
    {
        let number = to_decimal(*entry_size + 1);
        let mut r = String::from_str(chapter);
        r.append("-");
        r.append(number.as_str());
        proof {
            reveal_strlit("-");
        }
        assert(r@ =~= entry_id(chapter@, *entry_size as nat));
        r
    }
}

} // verus!
