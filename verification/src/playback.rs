use vstd::prelude::*;

verus! {

use crate::data::{clone_entries, entries_view, ColumnEntry, EntryView};
use crate::errors::{DataError, Error};

/// A provider that replays a pre-loaded ordered run of samples behind a
/// cursor.
#[derive(Debug)]
pub struct PlaybackDataProvider {
    data: Vec<ColumnEntry>,
    current_index: usize,
}

/// The mathematical value of a playback provider: the stored run and the
/// cursor into it.
pub struct PlaybackView {
    pub data: Seq<EntryView>,
    pub current_index: int,
}

impl View for PlaybackDataProvider {
    type V = PlaybackView;

    closed spec fn view(&self) -> PlaybackView {
        PlaybackView { data: entries_view(self.data@), current_index: self.current_index as int }
    }
}

/// Where the cursor lands after `skip`: moved by `count` and clamped into
/// `[0, len - 1]`.
pub open spec fn skip_target(cur: int, count: int, len: int) -> int {
    if count < 0 {
        if cur + count < 0 {
            0
        } else {
            cur + count
        }
    } else {
        if cur + count > len - 1 {
            len - 1
        } else {
            cur + count
        }
    }
}

impl PlaybackDataProvider {
    /// A provider over a stored run, cursor at its start.
    pub fn new(data: Vec<ColumnEntry>) -> (r: Self)
        ensures
            r@.data == entries_view(data@),
            r@.current_index == 0,
    {
        PlaybackDataProvider { data, current_index: 0 }
    }

    /// A provider over a stored run with the cursor already placed.
    pub fn with_index(data: Vec<ColumnEntry>, index: usize) -> (r: Self)
        ensures
            r@.data == entries_view(data@),
            r@.current_index == index,
    {
        PlaybackDataProvider { data, current_index: index }
    }

    /// Return the entry at the cursor and advance it. Fails with
    /// `EmptyDataError` on an empty run and with `NoDataError` once the
    /// cursor has passed the last entry.
    pub fn get_next_entry(&mut self, number_plates: usize) -> (r: Result<ColumnEntry, Error>)
        ensures
            old(self)@.data.len() == 0 ==> (r matches Err(Error::DataError(
                DataError::EmptyDataError)) && final(self)@ == old(self)@),
            old(self)@.data.len() > 0 && old(self)@.current_index >= old(self)@.data.len()
                ==> (r matches Err(Error::DataError(DataError::NoDataError)) && final(self)@
                == old(self)@),
            old(self)@.data.len() > 0 && old(self)@.current_index < old(self)@.data.len()
                ==> (r matches Ok(e) && e@ == old(self)@.data[old(self)@.current_index]
                && final(self)@.data == old(self)@.data
                && final(self)@.current_index == old(self)@.current_index + 1),
    {
        if self.data.len() == 0 {
            return Err(Error::DataError(DataError::EmptyDataError));
        }
        if self.current_index >= self.data.len() {
            return Err(Error::DataError(DataError::NoDataError));
        }
        let entry = self.data[self.current_index].clone();
        self.current_index = self.current_index + 1;
        Ok(entry)
    }

    /// Move the cursor by `count`, clamped to the run: never below zero,
    /// never past the last entry. Fails only on an empty run.
    pub fn skip(&mut self, count: i64) -> (r: Result<(), Error>)
        ensures
            old(self)@.data.len() == 0 ==> (r matches Err(Error::DataError(
                DataError::EmptyDataError)) && final(self)@ == old(self)@),
            old(self)@.data.len() > 0 ==> (r matches Ok(u) && final(self)@.data == old(self)@.data
                && final(self)@.current_index == skip_target(
                old(self)@.current_index,
                count as int,
                old(self)@.data.len() as int,
            )),
    {
        if self.data.len() == 0 {
            return Err(Error::DataError(DataError::EmptyDataError));
        }
        let cur: u64 = self.current_index as u64;
        if count < 0 {
            let mag: u64 = (-(count as i128)) as u64;
            if mag >= cur {
                self.current_index = 0;
            } else {
                self.current_index = (cur - mag) as usize;
            }
        } else {
            let t: u128 = (cur as u128) + (count as u128);
            let last: u128 = (self.data.len() - 1) as u128;
            if t > last {
                self.current_index = self.data.len() - 1;
            } else {
                self.current_index = t as usize;
            }
        }
        Ok(())
    }

    /// Rewind the cursor to the start of the run.
    pub fn reset(&mut self) -> (r: Result<(), Error>)
        ensures
            r matches Ok(u),
            final(self)@.data == old(self)@.data,
            final(self)@.current_index == 0,
    {
        self.current_index = 0;
        Ok(())
    }

    /// The cursor position.
    pub fn get_current_index(&self) -> (r: usize)
        ensures
            r == self@.current_index,
    {
        self.current_index
    }

    /// Playback holds no outside connection; disconnecting always succeeds.
    pub fn disconnect(&self) -> (r: Result<(), Error>)
        ensures
            r matches Ok(u),
    {
        Ok(())
    }
}

impl Clone for PlaybackDataProvider {
    /// A clone denotes the same run and cursor.
    fn clone(&self) -> (r: Self)
        ensures
            r@.data == self@.data,
            r@.current_index == self@.current_index,
    {
        PlaybackDataProvider {
            data: clone_entries(&self.data),
            current_index: self.current_index,
        }
    }
}

} // verus!

verus! {

/// The clamp the cursor obeys: wherever it starts inside the run, a large
/// backward skip lands on the first entry, a large forward skip on the
/// last, and every skip stays inside the run.
pub proof fn lemma_skip_target_clamps(cur: int, count: int, len: int)
    requires
        0 <= cur < len,
    ensures
        0 <= skip_target(cur, count, len) < len,
        count <= -cur ==> skip_target(cur, count, len) == 0,
        count >= len - 1 - cur ==> skip_target(cur, count, len) == len - 1,
{
}

} // verus!
