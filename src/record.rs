//! The metadata record kept for each stored asset.
use vstd::prelude::*;

verus! {

/// What the journal knows of one stored file.
pub struct AssetRecord {
    pub file: String,
    pub size_bytes: u64,
    pub title: Option<String>,
    pub creation_date: String,
    pub last_modified: String,
}

/// The mathematical value of an `AssetRecord`.
pub struct RecordView {
    pub file: Seq<char>,
    pub size_bytes: u64,
    pub title: Option<Seq<char>>,
    pub creation_date: Seq<char>,
    pub last_modified: Seq<char>,
}

pub open spec fn opt_text_view(t: Option<String>) -> Option<Seq<char>> {
    match t {
        Some(s) => Some(s@),
        None => None,
    }
}

impl View for AssetRecord {
    type V = RecordView;

    open spec fn view(&self) -> RecordView {
        RecordView {
            file: self.file@,
            size_bytes: self.size_bytes,
            title: opt_text_view(self.title),
            creation_date: self.creation_date@,
            last_modified: self.last_modified@,
        }
    }
}

pub fn clone_opt_text(t: &Option<String>) -> (r: Option<String>)
    ensures
        opt_text_view(r) == opt_text_view(*t),
{
    match t {
        Some(s) => Some(s.clone()),
        None => None,
    }
}

impl AssetRecord {
    pub fn duplicate(&self) -> (r: AssetRecord)
        ensures
            r@ == self@,
    {
        AssetRecord {
            file: self.file.clone(),
            size_bytes: self.size_bytes,
            title: clone_opt_text(&self.title),
            creation_date: self.creation_date.clone(),
            last_modified: self.last_modified.clone(),
        }
    }
}

} // verus!
