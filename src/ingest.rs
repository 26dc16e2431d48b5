//! The ingestion orchestrator: decode, check the name, then describe what is stored and
//! journalled. The file write and the journal's persistence are done by the caller,
//! between `prepare_ingest` and `ingest_outcome`.
use crate::name::{is_safe_name, rejection_of, sanitize, NameRejected, SafeName};
use crate::record::{AssetRecord, RecordView};
use crate::upload::{decode, decode_spec, stream_view, DecodeError, Received};
use vstd::prelude::*;

verus! {

/// Why an upload was not stored.
#[derive(Debug, Clone, Copy, PartialEq, Eq, Structural)]
pub enum IngestError {
    /// The body could not be decoded (a client error).
    Upload(DecodeError),
    /// The file name may not be used as a storage key (a client error).
    InvalidName(NameRejected),
    /// The payload could not be written (a server error).
    WriteFailed,
}

/// How a stored upload fared in the journal.
#[derive(Debug, Clone, Copy, PartialEq, Eq, Structural)]
pub enum IngestOutcome {
    Indexed,
    /// The file is stored but its record could not be journalled.
    StoredWithMetadataWarning,
}

/// An upload that may be written: its checked name and its fields.
pub struct PreparedAsset {
    pub name: SafeName,
    pub payload: Vec<u8>,
    pub title: Option<String>,
    pub creation_date: Option<String>,
}

pub struct PreparedView {
    pub name: Seq<char>,
    pub payload: Seq<u8>,
    pub title: Option<Seq<char>>,
    pub creation_date: Option<Seq<char>>,
}

impl View for PreparedAsset {
    type V = PreparedView;

    open spec fn view(&self) -> PreparedView {
        PreparedView {
            name: self.name@,
            payload: self.payload@,
            title: match self.title {
                Some(t) => Some(t@),
                None => None,
            },
            creation_date: match self.creation_date {
                Some(d) => Some(d@),
                None => None,
            },
        }
    }
}

/// The name under which an upload is stored: its file name, or the empty name.
pub open spec fn stored_name(f: Option<Seq<char>>) -> Seq<char> {
    match f {
        Some(n) => n,
        None => Seq::empty(),
    }
}

/// What `prepare_ingest` gives for the stream `s`.
pub open spec fn prepare_spec(s: Seq<crate::upload::ReceivedView>, ceiling: u64) -> Result<
    PreparedView,
    IngestError,
> {
    match decode_spec(s, ceiling) {
        Err(e) => Err(IngestError::Upload(e)),
        Ok(u) => {
            let n = stored_name(u.filename);
            if is_safe_name(n) {
                Ok(
                    PreparedView {
                        name: n,
                        payload: u.payload,
                        title: u.title,
                        creation_date: u.creation_date,
                    },
                )
            } else {
                Err(IngestError::InvalidName(rejection_of(n)))
            }
        },
    }
}

/// Decodes `stream` under `ceiling` and checks the file name; nothing is written.
pub fn prepare_ingest(stream: &Vec<Received>, ceiling: u64) -> (r: Result<PreparedAsset, IngestError>)
    ensures
        match (r, prepare_spec(stream_view(stream@), ceiling)) {
            (Ok(p), Ok(v)) => p@ == v,
            (Err(e), Err(f)) => e == f,
            _ => false,
        },
{
    match decode(stream, ceiling) {
        Err(e) => Err(IngestError::Upload(e)),
        Ok(u) => {
            let raw = match &u.filename {
                Some(f) => f.clone(),
                None => String::new(),
            };
            match sanitize(raw.as_str()) {
                Err(e) => Err(IngestError::InvalidName(e)),
                Ok(name) => Ok(
                    PreparedAsset {
                        name,
                        payload: u.payload,
                        title: u.title,
                        creation_date: u.creation_date,
                    },
                ),
            }
        },
    }
}

/// The record journalled for `p` stored at time `now`: the creation date is the
/// client's when it gave a valid one, else `now`.
pub open spec fn record_spec(p: PreparedView, now: Seq<char>) -> RecordView {
    RecordView {
        file: p.name,
        size_bytes: p.payload.len() as u64,
        title: p.title,
        creation_date: match p.creation_date {
            Some(d) => d,
            None => now,
        },
        last_modified: now,
    }
}

/// The record for the stored asset `p`, written at time `now`.
pub fn record_for(p: &PreparedAsset, now: &String) -> (r: AssetRecord)
    ensures
        r@ == record_spec(p@, now@),
        r@.size_bytes == p@.payload.len(),
{
    let creation_date = match &p.creation_date {
        Some(d) => d.clone(),
        None => now.clone(),
    };
    let title = match &p.title {
        Some(t) => Some(t.clone()),
        None => None,
    };
    AssetRecord {
        file: p.name.to_text(),
        size_bytes: p.payload.len() as u64,
        title,
        creation_date,
        last_modified: now.clone(),
    }
}

/// What the client is told once the payload write and the journal update have been
/// tried: a failed write is an error, a failed journal update only a warning.
pub open spec fn ingest_outcome_spec(written: bool, indexed: bool) -> Result<IngestOutcome, IngestError> {
    if !written {
        Err(IngestError::WriteFailed)
    } else if indexed {
        Ok(IngestOutcome::Indexed)
    } else {
        Ok(IngestOutcome::StoredWithMetadataWarning)
    }
}

pub fn ingest_outcome(written: bool, indexed: bool) -> (r: Result<IngestOutcome, IngestError>)
    ensures
        r == ingest_outcome_spec(written, indexed),
{
    if !written {
        Err(IngestError::WriteFailed)
    } else if indexed {
        Ok(IngestOutcome::Indexed)
    } else {
        Ok(IngestOutcome::StoredWithMetadataWarning)
    }
}


/// The stored files and the journal that an orchestrated operation works on.
pub struct StoreState {
    pub files: Map<Seq<char>, Seq<u8>>,
    pub journal: Seq<RecordView>,
}

/// One ingestion of the stream `s` as the orchestrator runs it: `prepare_ingest`, then
/// the payload write (which succeeds when `write_ok`), then, only after a write, the
/// journal append of `record_for` (which persists when `index_ok`), then
/// `ingest_outcome`.
pub open spec fn ingest_run(
    st: StoreState,
    s: Seq<crate::upload::ReceivedView>,
    ceiling: u64,
    now: Seq<char>,
    write_ok: bool,
    index_ok: bool,
) -> (StoreState, Result<IngestOutcome, IngestError>) {
    match prepare_spec(s, ceiling) {
        Err(e) => (st, Err(e)),
        Ok(p) => if !write_ok {
            (st, ingest_outcome_spec(false, index_ok))
        } else {
            let files = st.files.insert(p.name, p.payload);
            let journal = if index_ok {
                st.journal.push(record_spec(p, now))
            } else {
                st.journal
            };
            (StoreState { files, journal }, ingest_outcome_spec(true, index_ok))
        },
    }
}

} // verus!
