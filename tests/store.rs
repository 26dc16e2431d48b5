use asset_store::delete::{delete_outcome, delete_target, DeleteError, DeleteOutcome};
use asset_store::ingest::{ingest_outcome, prepare_ingest, record_for, IngestError, IngestOutcome};
use asset_store::journal::Journal;
use asset_store::name::{sanitize, NameRejected};
use asset_store::record::AssetRecord;
use asset_store::upload::{decode, DecodeError, Part, Received, UPLOAD_CEILING};
use std::collections::BTreeMap;

fn part(name: &str, filename: Option<&str>, data: &[u8]) -> Received {
    Received::Part(Part {
        name: name.to_string(),
        filename: filename.map(|f| f.to_string()),
        data: data.to_vec(),
    })
}

fn record(file: &str, size: u64) -> AssetRecord {
    AssetRecord {
        file: file.to_string(),
        size_bytes: size,
        title: None,
        creation_date: "2024-01-01T00:00:00+00:00".to_string(),
        last_modified: "2024-01-01T00:00:00+00:00".to_string(),
    }
}

fn files_of(j: &Journal) -> Vec<String> {
    j.records().iter().map(|r| r.file.clone()).collect()
}

#[test]
fn sanitize_accepts_plain_name() {
    let s = sanitize("cat.png").unwrap();
    assert_eq!(s.as_str(), "cat.png");
    assert_eq!(s.to_text(), "cat.png".to_string());
}

#[test]
fn sanitize_rejects_empty() {
    assert_eq!(sanitize("").err(), Some(NameRejected::Empty));
}

#[test]
fn sanitize_rejects_separators() {
    assert_eq!(sanitize("../etc/passwd").err(), Some(NameRejected::Separator));
    assert_eq!(sanitize("a\\b.png").err(), Some(NameRejected::Separator));
    assert_eq!(sanitize("/").err(), Some(NameRejected::Separator));
}

#[test]
fn decode_without_file_part() {
    let stream = vec![part("title", None, b"hello")];
    assert_eq!(decode(&stream, UPLOAD_CEILING).err(), Some(DecodeError::NoFile));
    assert_eq!(decode(&Vec::new(), UPLOAD_CEILING).err(), Some(DecodeError::NoFile));
}

#[test]
fn decode_transport_fault() {
    let stream = vec![part("file", Some("a.png"), b"abc"), Received::Fault];
    assert_eq!(decode(&stream, UPLOAD_CEILING).err(), Some(DecodeError::Transport));
}

#[test]
fn decode_over_ceiling() {
    let stream = vec![part("file", Some("a.png"), &[1u8; 8]), part("title", None, b"xyz")];
    assert_eq!(decode(&stream, 10).err(), Some(DecodeError::TooLarge));
    assert!(decode(&stream, 11).is_ok());
}

#[test]
fn decode_fields() {
    let stream = vec![
        part("other", None, b"ignored"),
        part("file", Some("cat.png"), &[1, 2, 3, 4, 5]),
        part("title", None, b"A cat"),
        part("creationDate", None, b"2024-01-02T03:04:05Z"),
    ];
    let u = decode(&stream, UPLOAD_CEILING).unwrap();
    assert_eq!(u.payload, vec![1, 2, 3, 4, 5]);
    assert_eq!(u.filename, Some("cat.png".to_string()));
    assert_eq!(u.title, Some("A cat".to_string()));
    assert_eq!(u.creation_date, Some("2024-01-02T03:04:05+00:00".to_string()));
}

#[test]
fn decode_title_is_lossy() {
    let stream = vec![part("file", Some("a.png"), b"x"), part("title", None, &[0x66, 0xFF])];
    let u = decode(&stream, UPLOAD_CEILING).unwrap();
    assert_eq!(u.title, Some("f\u{FFFD}".to_string()));
}

#[test]
fn decode_bad_date_is_absent() {
    let stream = vec![part("file", Some("a.png"), b"x"), part("creationDate", None, b"yesterday")];
    let u = decode(&stream, UPLOAD_CEILING).unwrap();
    assert_eq!(u.creation_date, None);
}

#[test]
fn decode_keeps_last_valid_date() {
    let stream = vec![
        part("file", Some("a.png"), b"x"),
        part("creationDate", None, b"2020-05-06T07:08:09+02:00"),
        part("creationDate", None, b"not a date"),
    ];
    let u = decode(&stream, UPLOAD_CEILING).unwrap();
    assert_eq!(u.creation_date, Some("2020-05-06T07:08:09+02:00".to_string()));
}

#[test]
fn prepare_rejects_traversal_names() {
    let stream = vec![part("file", Some("../evil.png"), b"x")];
    assert_eq!(
        prepare_ingest(&stream, UPLOAD_CEILING).err(),
        Some(IngestError::InvalidName(NameRejected::Separator))
    );
    let stream = vec![part("file", Some("..\\evil.png"), b"x")];
    assert_eq!(
        prepare_ingest(&stream, UPLOAD_CEILING).err(),
        Some(IngestError::InvalidName(NameRejected::Separator))
    );
}

#[test]
fn prepare_rejects_missing_filename() {
    let stream = vec![part("file", None, b"x")];
    assert_eq!(
        prepare_ingest(&stream, UPLOAD_CEILING).err(),
        Some(IngestError::InvalidName(NameRejected::Empty))
    );
}

#[test]
fn prepare_passes_decode_errors() {
    let stream = vec![part("file", Some("a.png"), &[0u8; 4])];
    assert_eq!(
        prepare_ingest(&stream, 3).err(),
        Some(IngestError::Upload(DecodeError::TooLarge))
    );
}

#[test]
fn record_uses_client_date() {
    let stream = vec![
        part("file", Some("dog.jpg"), &[9u8; 12]),
        part("title", None, b"Dog"),
        part("creationDate", None, b"2021-03-04T05:06:07Z"),
    ];
    let p = prepare_ingest(&stream, UPLOAD_CEILING).unwrap();
    let now = "2030-01-01T00:00:00+00:00".to_string();
    let r = record_for(&p, &now);
    assert_eq!(r.file, "dog.jpg");
    assert_eq!(r.size_bytes, 12);
    assert_eq!(r.title, Some("Dog".to_string()));
    assert_eq!(r.creation_date, "2021-03-04T05:06:07+00:00");
    assert_eq!(r.last_modified, now);
}

#[test]
fn journal_append_keeps_order_and_duplicates() {
    let mut j = Journal::new();
    j.append(record("a.png", 1));
    j.append(record("b.png", 2));
    j.append(record("a.png", 3));
    assert_eq!(j.len(), 3);
    assert_eq!(files_of(&j), vec!["a.png", "b.png", "a.png"]);
    assert!(j.contains_file(&"b.png".to_string()));
}

#[test]
fn journal_remove_drops_every_match() {
    let mut j = Journal::from_records(vec![record("a.png", 1), record("b.png", 2), record("a.png", 3)]);
    assert_eq!(j.remove_file(&"a.png".to_string()), 2);
    assert_eq!(files_of(&j), vec!["b.png"]);
    assert!(!j.contains_file(&"a.png".to_string()));
}

#[test]
fn journal_remove_absent_is_noop() {
    let mut j = Journal::from_records(vec![record("a.png", 1)]);
    assert_eq!(j.remove_file(&"z.png".to_string()), 0);
    assert_eq!(files_of(&j), vec!["a.png"]);
    assert_eq!(j.into_records().len(), 1);
}

#[test]
fn outcomes_of_ingest() {
    assert_eq!(ingest_outcome(false, true), Err(IngestError::WriteFailed));
    assert_eq!(ingest_outcome(true, true), Ok(IngestOutcome::Indexed));
    assert_eq!(ingest_outcome(true, false), Ok(IngestOutcome::StoredWithMetadataWarning));
}

#[test]
fn outcomes_of_delete() {
    assert_eq!(delete_target("a/b").err(), Some(DeleteError::InvalidName));
    assert_eq!(delete_target("").err(), Some(DeleteError::InvalidName));
    assert_eq!(delete_target("a.png").unwrap().as_str(), "a.png");
    assert_eq!(delete_outcome(false, true, true), Err(DeleteError::NotFound));
    assert_eq!(delete_outcome(true, false, true), Err(DeleteError::RemoveFailed));
    assert_eq!(delete_outcome(true, true, true), Ok(DeleteOutcome::Deleted));
    assert_eq!(delete_outcome(true, true, false), Ok(DeleteOutcome::DeletedWithMetadataWarning));
}

// A store kept in a map stands in for the content directory in the scenarios below.
struct Store {
    files: BTreeMap<String, Vec<u8>>,
    journal: Journal,
}

impl Store {
    fn new() -> Store {
        Store { files: BTreeMap::new(), journal: Journal::new() }
    }

    fn ingest(&mut self, stream: &Vec<Received>, now: &str) -> Result<IngestOutcome, IngestError> {
        let p = prepare_ingest(stream, UPLOAD_CEILING)?;
        self.files.insert(p.name.to_text(), p.payload.clone());
        let r = record_for(&p, &now.to_string());
        self.journal.append(r);
        ingest_outcome(true, true)
    }

    fn delete(&mut self, name: &str) -> Result<DeleteOutcome, DeleteError> {
        let target = delete_target(name)?;
        let exists = self.files.contains_key(target.as_str());
        if !exists {
            return delete_outcome(false, false, false);
        }
        self.files.remove(target.as_str());
        self.journal.remove_file(&target.to_text());
        delete_outcome(true, true, true)
    }
}

#[test]
fn scenario_cat_upload_list_fetch_delete() {
    let mut store = Store::new();
    let now = "2025-06-01T12:00:00+00:00";
    let stream = vec![part("file", Some("cat.png"), &[1, 2, 3, 4, 5])];
    assert_eq!(store.ingest(&stream, now), Ok(IngestOutcome::Indexed));
    let listed = store.journal.records();
    assert_eq!(listed.len(), 1);
    assert_eq!(listed[0].file, "cat.png");
    assert_eq!(listed[0].size_bytes, 5);
    assert_eq!(listed[0].title, None);
    assert_eq!(listed[0].creation_date, now);
    assert_eq!(listed[0].last_modified, now);
    assert_eq!(store.files.get("cat.png"), Some(&vec![1, 2, 3, 4, 5]));
    assert_eq!(store.delete("cat.png"), Ok(DeleteOutcome::Deleted));
    assert_eq!(store.journal.len(), 0);
    assert_eq!(store.files.get("cat.png"), None);
}

#[test]
fn scenario_delete_twice() {
    let mut store = Store::new();
    let stream = vec![part("file", Some("a.png"), b"abc")];
    store.ingest(&stream, "t").unwrap();
    assert_eq!(store.delete("a.png"), Ok(DeleteOutcome::Deleted));
    assert_eq!(store.delete("a.png"), Err(DeleteError::NotFound));
}

#[test]
fn scenario_delete_absent_keeps_journal() {
    let mut store = Store::new();
    store.ingest(&vec![part("file", Some("a.png"), b"abc")], "t").unwrap();
    assert_eq!(store.delete("b.png"), Err(DeleteError::NotFound));
    assert_eq!(files_of(&store.journal), vec!["a.png"]);
}

#[test]
fn scenario_reingest_appends_second_record() {
    let mut store = Store::new();
    store.ingest(&vec![part("file", Some("a.png"), b"abc")], "t1").unwrap();
    store.ingest(&vec![part("file", Some("a.png"), b"defg")], "t2").unwrap();
    assert_eq!(files_of(&store.journal), vec!["a.png", "a.png"]);
    assert_eq!(store.files.get("a.png"), Some(&b"defg".to_vec()));
    assert_eq!(store.journal.records()[1].size_bytes, 4);
}

#[test]
fn scenario_oversize_leaves_store_unchanged() {
    let mut store = Store::new();
    let big = vec![0u8; (UPLOAD_CEILING + 1) as usize];
    let stream = vec![part("file", Some("big.bin"), &big)];
    assert_eq!(store.ingest(&stream, "t"), Err(IngestError::Upload(DecodeError::TooLarge)));
    assert!(store.files.is_empty());
    assert_eq!(store.journal.len(), 0);
}

#[test]
fn scenario_traversal_touches_nothing() {
    let mut store = Store::new();
    let stream = vec![part("file", Some("../x.png"), b"abc")];
    assert!(store.ingest(&stream, "t").is_err());
    assert_eq!(store.delete("../x.png"), Err(DeleteError::InvalidName));
    assert_eq!(store.delete("..\\x.png"), Err(DeleteError::InvalidName));
    assert!(store.files.is_empty());
    assert_eq!(store.journal.len(), 0);
}

#[test]
fn scenario_many_distinct_ingests() {
    let mut store = Store::new();
    for i in 0..20 {
        let name = format!("img{}.png", i);
        store.ingest(&vec![part("file", Some(&name), &[i as u8])], "t").unwrap();
    }
    assert_eq!(store.journal.len(), 20);
    for i in 0..20 {
        assert!(store.journal.contains_file(&format!("img{}.png", i)));
    }
}
