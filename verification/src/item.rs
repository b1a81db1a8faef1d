//! One directory child's metadata snapshot: its name, byte size, a
//! human-readable rendering of its permission bits, its modification time
//! as seconds since the Unix epoch, and whether it is a directory.
//!
//! A whole list of these is built afresh on every directory load and
//! discarded on the next one; a value is never mutated once built.

use vstd::prelude::*;

verus! {

/// Metadata snapshot of one filesystem child.
#[derive(Clone, Debug, PartialEq, Eq)]
pub struct Item {
    /// The child's file name, one path component without separators.
    pub name: String,
    /// Byte length reported by the filesystem.
    pub size: u64,
    /// Human-readable permission string such as `drwxr-xr-x`.
    pub perms: String,
    /// Last modification time, seconds since the Unix epoch.
    pub modified_date: i64,
    /// Whether the child is itself a directory.
    pub is_dir: bool,
}

impl Item {
    /// The blank snapshot: empty strings, zero size and time, not a
    /// directory. A panel holds a blank snapshot as its edit target while
    /// no edit is in progress.
    pub open spec fn is_blank(self) -> bool {
        &&& self.name@ == Seq::<char>::empty()
        &&& self.size == 0
        &&& self.perms@ == Seq::<char>::empty()
        &&& self.modified_date == 0
        &&& !self.is_dir
    }

    /// A fresh snapshot with every field at its empty value.
    pub fn new() -> (r: Item)
        ensures
            r.is_blank(),
    {
        Item {
            name: String::new(),
            size: 0,
            perms: String::new(),
            modified_date: 0,
            is_dir: false,
        }
    }

    /// The same snapshot with `name` replaced.
    pub fn with_name(self, name: &str) -> (r: Item)
        ensures
            r.name@ == name@,
            r.size == self.size,
            r.perms == self.perms,
            r.modified_date == self.modified_date,
            r.is_dir == self.is_dir,
    {
        Item { name: name.to_owned(), ..self }
    }

    /// The same snapshot with `size` replaced.
    pub fn with_size(self, size: u64) -> (r: Item)
        ensures
            r == (Item { size, ..self }),
    {
        Item { size, ..self }
    }

    /// The same snapshot with `perms` replaced.
    pub fn with_perms(self, perms: &str) -> (r: Item)
        ensures
            r.perms@ == perms@,
            r.name == self.name,
            r.size == self.size,
            r.modified_date == self.modified_date,
            r.is_dir == self.is_dir,
    {
        Item { perms: perms.to_owned(), ..self }
    }

    /// The same snapshot with `modified_date` replaced.
    pub fn with_modified_date(self, modified_date: i64) -> (r: Item)
        ensures
            r == (Item { modified_date, ..self }),
    {
        Item { modified_date, ..self }
    }

    /// The same snapshot with `is_dir` replaced.
    pub fn is_dir(self, dir: bool) -> (r: Item)
        ensures
            r == (Item { is_dir: dir, ..self }),
    {
        Item { is_dir: dir, ..self }
    }
}

impl Default for Item {
    /// The blank snapshot; see [`Item::is_blank`].
    fn default() -> (r: Item)
        ensures
            r.is_blank(),
    {
        Item::new()
    }
}

} // verus!
