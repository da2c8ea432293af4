//! What the catalog knows of a demo, and how demos are asked for.

use crate::path::{file_name, file_name_of};
use vstd::prelude::*;

verus! {

/// A demo as the catalog records it, as far as a transfer reads it.
#[derive(Debug, PartialEq, Eq)]
pub struct Demo {
    /// The number the catalog knows the demo by.
    pub id: u32,
    /// Where the demo lies on its backend; the last component is the file's name.
    pub path: String,
    /// Where the demo can be downloaded.
    pub url: String,
    /// The digest of the file's content, as recorded.
    pub hash: [u8; 16],
    /// How long the recorded match lasted, in seconds.
    pub duration: u16,
}

/// A [`Demo`] with its texts and digest as sequences.
pub struct DemoView {
    pub id: u32,
    pub path: Seq<char>,
    pub url: Seq<char>,
    pub hash: Seq<u8>,
    pub duration: u16,
}

impl DemoView {
    /// The name of the demo's file: the last component of its path.
    pub open spec fn file_name(self) -> Seq<char> {
        file_name_of(self.path)
    }

    /// Room to set aside before the demo is downloaded: a kibibyte for each
    /// full minute it lasted.
    pub open spec fn download_capacity(self) -> int {
        self.duration as int / 60 * 1024
    }
}

impl View for Demo {
    type V = DemoView;

    open spec fn view(&self) -> DemoView {
        DemoView {
            id: self.id,
            path: self.path@,
            url: self.url@,
            hash: self.hash@,
            duration: self.duration,
        }
    }
}

impl Clone for Demo {
    /// A second record of the same demo.
    fn clone(&self) -> (demo: Demo)
        ensures
            demo@ == self@,
    {
        Demo {
            id: self.id,
            path: self.path.clone(),
            url: self.url.clone(),
            hash: self.hash,
            duration: self.duration,
        }
    }
}

impl Demo {
    /// The name of the demo's file.
    pub fn file_name(&self) -> (name: &str)
        ensures
            name@ == self@.file_name(),
    {
        file_name(self.path.as_str())
    }

    /// Room to set aside before the demo is downloaded.
    pub fn download_capacity(&self) -> (capacity: usize)
        ensures
            capacity == self@.download_capacity(),
    {
        let minutes: usize = self.duration as usize / 60;
        minutes * 1024
    }
}

/// The order in which the catalog lists demos.
#[derive(Debug, Clone, Copy, PartialEq, Eq, Structural)]
pub enum ListOrder {
    /// Oldest first.
    Ascending,
    /// Newest first.
    Descending,
}

/// Which demos to ask the catalog for.
#[derive(Debug, PartialEq, Eq)]
pub struct ListQuery {
    /// Only demos from before this moment, in nanoseconds since the epoch.
    pub before: i128,
    /// The order of the answer.
    pub order: ListOrder,
    /// Only demos that lie on this backend.
    pub backend: String,
    /// Which page of the answer, counted from 1.
    pub page: u32,
}

impl Clone for ListQuery {
    /// The same question once more.
    fn clone(&self) -> (query: ListQuery)
        ensures
            query.before == self.before,
            query.order == self.order,
            query.backend@ == self.backend@,
            query.page == self.page,
    {
        ListQuery {
            before: self.before,
            order: self.order,
            backend: self.backend.clone(),
            page: self.page,
        }
    }
}

} // verus!
