//! The shared inventory table: the single owner of all entries.
//!
//! Each entry pairs a stable identifier and user-owned fields (read
//! progress, favorite flag) with an optional remote metadata record that
//! is absent until a fetch for that id succeeds. Identifiers are unique
//! across the table at all times.

use vstd::prelude::*;

use crate::api::Manga;

verus! {

/// What the table shows about a reader's progress on one entry.
#[derive(Debug)]
pub enum ReadStatus {
    /// Every known volume has been read.
    Read,
    /// This many volumes remain unread.
    Unread(u8),
    /// The volume count is not known (no metadata, or none reported).
    Unknown,
}

/// The progress cell's value: unknown without a volume count; read when
/// the reader has reached (or somehow passed) the count; otherwise the
/// number of volumes still unread.
pub open spec fn read_status_spec(volume_count: Option<u8>, num_read: u8) -> ReadStatus {
    match volume_count {
        None => ReadStatus::Unknown,
        Some(v) => if num_read >= v {
            ReadStatus::Read
        } else {
            ReadStatus::Unread((v - num_read) as u8)
        },
    }
}

/// Computes the progress shown beside an entry from its fetched volume
/// count and the user's read counter.
pub fn read_status(volume_count: Option<u8>, num_read: u8) -> (r: ReadStatus)
    ensures
        r == read_status_spec(volume_count, num_read),
{
    match volume_count {
        None => ReadStatus::Unknown,
        Some(v) => if num_read >= v {
            ReadStatus::Read
        } else {
            ReadStatus::Unread(v - num_read)
        },
    }
}

/// An entry with its favorite flag replaced; every other field kept.
pub open spec fn with_favorite(e: InventoryManga, favorite: bool) -> InventoryManga {
    InventoryManga {
        id: e.id,
        num_read: e.num_read,
        is_favorite: favorite,
        manga_data: e.manga_data,
    }
}

/// One row of the inventory: the merge key `id`, the user-editable
/// fields, and the remote metadata, absent until fetched.
#[derive(Debug)]
pub struct InventoryManga {
    pub id: String,
    pub num_read: u8,
    pub is_favorite: bool,
    pub manga_data: Option<Manga>,
}

/// The whole collection, ordered for display; `reversed` flips the
/// display order without reordering the stored entries.
#[derive(Debug)]
pub struct MangaTable {
    pub reversed: bool,
    pub manga_list: Vec<InventoryManga>,
}

impl MangaTable {
    /// Well-formedness: entry ids are unique across the collection.
    pub open spec fn wf(&self) -> bool {
        forall|i: int, j: int|
            0 <= i < j < self.manga_list@.len() ==> self.manga_list@[i].id@ != self.manga_list@[j].id@
    }

    /// Number of entries in the table.
    pub fn len(&self) -> (n: usize)
        ensures
            n == self.manga_list@.len(),
    {
        self.manga_list.len()
    }

    /// Read access for the presentation layer: one entry by position.
    pub fn get(&self, i: usize) -> (entry: &InventoryManga)
        requires
            i < self.manga_list@.len(),
        ensures
            *entry == self.manga_list@[i as int],
    {
        &self.manga_list[i]
    }

    /// Maps a display row to the stored position, honouring the
    /// display-order reversal flag.
    pub fn display_index(&self, row: usize) -> (idx: usize)
        requires
            row < self.manga_list@.len(),
        ensures
            idx < self.manga_list@.len(),
            self.reversed ==> idx == self.manga_list@.len() - 1 - row,
            !self.reversed ==> idx == row,
    {
        if self.reversed {
            self.manga_list.len() - 1 - row
        } else {
            row
        }
    }

    /// Position of the first entry whose id matches, if any.
    pub fn index_of(&self, id: &String) -> (r: Option<usize>)
        ensures
            match r {
                Some(i) => i < self.manga_list@.len() && self.manga_list@[i as int].id@ == id@
                    && (forall|j: int| 0 <= j < i ==> self.manga_list@[j].id@ != id@),
                None => forall|j: int|
                    0 <= j < self.manga_list@.len() ==> self.manga_list@[j].id@ != id@,
            },
    {
        let mut i: usize = 0;
        while i < self.manga_list.len()
            invariant
                i <= self.manga_list@.len(),
                forall|j: int| 0 <= j < i ==> self.manga_list@[j].id@ != id@,
            decreases self.manga_list@.len() - i,
        {
            if self.manga_list[i].id == *id {
                return Some(i);
            }
            i += 1;
        }
        None
    }

    /// The user-field mutation entry point: sets the favorite flag of
    /// the entry keyed by `id`, touching nothing else. It goes through
    /// the same exclusive access as a merge, so it can never observe or
    /// produce a half-written entry.
    pub fn set_favorite(&mut self, id: &String, favorite: bool) -> (found: bool)
        requires
            old(self).wf(),
        ensures
            final(self).wf(),
            final(self).reversed == old(self).reversed,
            final(self).manga_list@.len() == old(self).manga_list@.len(),
            forall|k: int|
                0 <= k < old(self).manga_list@.len() && old(self).manga_list@[k].id@ != id@
                    ==> final(self).manga_list@[k] == old(self).manga_list@[k],
            forall|k: int|
                0 <= k < old(self).manga_list@.len() && old(self).manga_list@[k].id@ == id@
                    ==> final(self).manga_list@[k] == with_favorite(
                    old(self).manga_list@[k],
                    favorite,
                ),
            found == (exists|k: int|
                0 <= k < old(self).manga_list@.len() && old(self).manga_list@[k].id@ == id@),
    {
        match self.index_of(id) {
            Some(i) => {
                let mut entry = self.manga_list.remove(i);
                entry.is_favorite = favorite;
                self.manga_list.insert(i, entry);
                proof {
                    assert(old(self).manga_list@[i as int].id@ == id@);
                }
                true
            },
            None => false,
        }
    }

    /// Removes the entry keyed by `id`, if present; later entries keep
    /// their relative order. A fetch already in flight for the removed
    /// id is harmless: its merge will find no matching entry.
    pub fn remove_entry(&mut self, id: &String) -> (removed: Option<InventoryManga>)
        requires
            old(self).wf(),
        ensures
            final(self).wf(),
            final(self).reversed == old(self).reversed,
            match removed {
                Some(e) => e.id@ == id@ && exists|i: int|
                    0 <= i < old(self).manga_list@.len() && old(self).manga_list@[i] == e
                        && final(self).manga_list@ == old(self).manga_list@.remove(i),
                None => final(self).manga_list@ == old(self).manga_list@ && (forall|j: int|
                    0 <= j < old(self).manga_list@.len() ==> old(self).manga_list@[j].id@ != id@),
            },
    {
        match self.index_of(id) {
            Some(i) => {
                let entry = self.manga_list.remove(i);
                proof {
                    old(self).manga_list@.remove_ensures(i as int);
                    assert(forall|a: int, b: int|
                        0 <= a < b < self.manga_list@.len()
                            ==> self.manga_list@[a].id@ != self.manga_list@[b].id@);
                }
                Some(entry)
            },
            None => None,
        }
    }

    /// Flips the display order; the stored entries are untouched.
    pub fn toggle_reversed(&mut self)
        ensures
            final(self).reversed == !old(self).reversed,
            final(self).manga_list == old(self).manga_list,
    {
        self.reversed = !self.reversed;
    }
}

impl Default for MangaTable {
    /// The starter collection shown before any persisted state exists:
    /// four entries, no metadata, default display order.
    fn default() -> (r: Self)
        ensures
            r.wf(),
            !r.reversed,
            r.manga_list@.len() == 4,
            r.manga_list@[0].id@ == "66"@,
            r.manga_list@[0].num_read == 1,
            !r.manga_list@[0].is_favorite,
            r.manga_list@[0].manga_data is None,
            r.manga_list@[1].id@ == "78"@,
            r.manga_list@[1].num_read == 17,
            r.manga_list@[1].is_favorite,
            r.manga_list@[1].manga_data is None,
            r.manga_list@[2].id@ == "88"@,
            r.manga_list@[2].num_read == 0,
            !r.manga_list@[2].is_favorite,
            r.manga_list@[2].manga_data is None,
            r.manga_list@[3].id@ == "99"@,
            r.manga_list@[3].num_read == 17,
            r.manga_list@[3].is_favorite,
            r.manga_list@[3].manga_data is None,
    {
        let mut manga_vec: Vec<InventoryManga> = Vec::new();
        manga_vec.push(InventoryManga {
            id: "66".to_owned(),
            num_read: 1,
            is_favorite: false,
            manga_data: None,
        });
        manga_vec.push(InventoryManga {
            id: "78".to_owned(),
            num_read: 17,
            is_favorite: true,
            manga_data: None,
        });
        manga_vec.push(InventoryManga {
            id: "88".to_owned(),
            num_read: 0,
            is_favorite: false,
            manga_data: None,
        });
        manga_vec.push(InventoryManga {
            id: "99".to_owned(),
            num_read: 17,
            is_favorite: true,
            manga_data: None,
        });
        proof {
            reveal_strlit("66");
            reveal_strlit("78");
            reveal_strlit("88");
            reveal_strlit("99");
            assert("66"@ != "78"@) by {
                assert("66"@[0] == '6' && "78"@[0] == '7');
            }
            assert("66"@ != "88"@) by {
                assert("66"@[0] == '6' && "88"@[0] == '8');
            }
            assert("66"@ != "99"@) by {
                assert("66"@[0] == '6' && "99"@[0] == '9');
            }
            assert("78"@ != "88"@) by {
                assert("78"@[0] == '7' && "88"@[0] == '8');
            }
            assert("78"@ != "99"@) by {
                assert("78"@[0] == '7' && "99"@[0] == '9');
            }
            assert("88"@ != "99"@) by {
                assert("88"@[0] == '8' && "99"@[0] == '9');
            }
        }
        MangaTable { reversed: false, manga_list: manga_vec }
    }
}

} // verus!
