//! Properties of the store that hold across its operations.
use crate::delete::{delete_run, DeleteError, DeleteOutcome};
use crate::ingest::{
    ingest_run, prepare_spec, record_spec, stored_name, IngestError, IngestOutcome, StoreState,
};
use crate::journal::{count_file, has_file, without_file};
use crate::name::{is_safe_name, is_separator, NameRejected};
use crate::record::RecordView;
use crate::upload::{decode_spec, file_part, has_fault, total_len, DecodeError, ReceivedView};
use vstd::prelude::*;

verus! {

/// No record for `name` is left once its records are dropped.
pub proof fn lemma_without_file_drops(js: Seq<RecordView>, name: Seq<char>)
    ensures
        !has_file(without_file(js, name), name),
        count_file(without_file(js, name), name) == 0,
    decreases js.len(),
{
    if js.len() > 0 {
        let rest = without_file(js.drop_last(), name);
        lemma_without_file_drops(js.drop_last(), name);
        if js.last().file != name {
            assert(rest.push(js.last()).drop_last() =~= rest);
            assert forall|i: int| 0 <= i < rest.push(js.last()).len() implies (#[trigger] rest.push(
                js.last(),
            )[i]).file != name by {
                if i < rest.len() {
                    assert(rest.push(js.last())[i] == rest[i]);
                }
            }
        }
    }
}

/// Appending one record adds exactly one record for its file.
pub proof fn lemma_count_push(js: Seq<RecordView>, r: RecordView)
    ensures
        count_file(js.push(r), r.file) == count_file(js, r.file) + 1,
        has_file(js.push(r), r.file),
{
    assert(js.push(r).drop_last() =~= js);
    assert(js.push(r)[js.len() as int] == r);
}

/// The payload of the `file` part is part of the stream's total.
pub proof fn lemma_file_within_total(s: Seq<ReceivedView>)
    ensures
        file_part(s) matches Some(f) ==> f.data.len() <= total_len(s),
    decreases s.len(),
{
    if s.len() > 0 {
        lemma_file_within_total(s.drop_last());
    }
}

/// A valid upload under the ceiling, stored and journalled, gives exactly one new record:
/// for the uploaded file name and of the payload's exact size; the payload is what is
/// stored under that name.
pub proof fn law_ingest_records_once(
    st: StoreState,
    s: Seq<ReceivedView>,
    ceiling: u64,
    now: Seq<char>,
)
    requires
        decode_spec(s, ceiling) is Ok,
        is_safe_name(stored_name(decode_spec(s, ceiling)->Ok_0.filename)),
    ensures
        ({
            let u = decode_spec(s, ceiling)->Ok_0;
            let name = stored_name(u.filename);
            let (after, r) = ingest_run(st, s, ceiling, now, true, true);
            &&& r == Ok::<IngestOutcome, IngestError>(IngestOutcome::Indexed)
            &&& after.journal.len() == st.journal.len() + 1
            &&& after.journal.last().file == name
            &&& after.journal.last().size_bytes == u.payload.len()
            &&& after.journal.drop_last() == st.journal
            &&& count_file(after.journal, name) == count_file(st.journal, name) + 1
            &&& after.files[name] == u.payload
        }),
{
    let u = decode_spec(s, ceiling)->Ok_0;
    let p = prepare_spec(s, ceiling)->Ok_0;
    let rec = record_spec(p, now);
    assert(total_len(s) <= ceiling);
    lemma_file_within_total(s);
    lemma_count_push(st.journal, rec);
    assert(st.journal.push(rec).drop_last() =~= st.journal);
}

/// An upload over the ceiling is refused whatever storage would do, and leaves the
/// files and the journal as they were.
pub proof fn law_oversize_rejected(
    st: StoreState,
    s: Seq<ReceivedView>,
    ceiling: u64,
    now: Seq<char>,
    write_ok: bool,
    index_ok: bool,
)
    requires
        total_len(s) > ceiling,
    ensures
        ({
            let (after, r) = ingest_run(st, s, ceiling, now, write_ok, index_ok);
            &&& after == st
            &&& r is Err
            &&& !has_fault(s) ==> r == Err::<IngestOutcome, IngestError>(
                IngestError::Upload(DecodeError::TooLarge),
            )
        }),
{
}

/// Deleting a valid name that is not stored reports not-found and changes nothing.
pub proof fn law_delete_absent(st: StoreState, name: Seq<char>, remove_ok: bool, index_ok: bool)
    requires
        is_safe_name(name),
        !st.files.contains_key(name),
    ensures
        delete_run(st, name, remove_ok, index_ok) == (st, Err::<DeleteOutcome, DeleteError>(
            DeleteError::NotFound,
        )),
{
}

/// Deleting a stored name removes the file and every record for it, so neither a
/// listing nor a fetch by name finds it afterwards.
pub proof fn law_delete_present(st: StoreState, name: Seq<char>)
    requires
        is_safe_name(name),
        st.files.contains_key(name),
    ensures
        ({
            let (after, r) = delete_run(st, name, true, true);
            &&& r == Ok::<DeleteOutcome, DeleteError>(DeleteOutcome::Deleted)
            &&& !after.files.contains_key(name)
            &&& !has_file(after.journal, name)
            &&& after.journal == without_file(st.journal, name)
        }),
{
    lemma_without_file_drops(st.journal, name);
}

/// Deleting the same name twice succeeds and then reports not-found.
pub proof fn law_delete_twice(st: StoreState, name: Seq<char>)
    requires
        is_safe_name(name),
        st.files.contains_key(name),
    ensures
        ({
            let (mid, r1) = delete_run(st, name, true, true);
            let (last, r2) = delete_run(mid, name, true, true);
            &&& r1 == Ok::<DeleteOutcome, DeleteError>(DeleteOutcome::Deleted)
            &&& r2 == Err::<DeleteOutcome, DeleteError>(DeleteError::NotFound)
            &&& last == mid
        }),
{
}

/// Ingesting the same upload twice overwrites the file and journals a second record:
/// the journal is not deduplicated by file name.
pub proof fn law_reingest_appends(st: StoreState, s: Seq<ReceivedView>, ceiling: u64, now: Seq<char>)
    requires
        decode_spec(s, ceiling) is Ok,
        is_safe_name(stored_name(decode_spec(s, ceiling)->Ok_0.filename)),
    ensures
        ({
            let u = decode_spec(s, ceiling)->Ok_0;
            let name = stored_name(u.filename);
            let (mid, r1) = ingest_run(st, s, ceiling, now, true, true);
            let (last, r2) = ingest_run(mid, s, ceiling, now, true, true);
            &&& r1 is Ok && r2 is Ok
            &&& count_file(last.journal, name) == count_file(st.journal, name) + 2
            &&& last.journal.len() == st.journal.len() + 2
            &&& last.files[name] == u.payload
            &&& last.files.dom() == st.files.dom().insert(name)
        }),
{
    law_ingest_records_once(st, s, ceiling, now);
    let (mid, r1) = ingest_run(st, s, ceiling, now, true, true);
    law_ingest_records_once(mid, s, ceiling, now);
    let (last, r2) = ingest_run(mid, s, ceiling, now, true, true);
    let name = stored_name(decode_spec(s, ceiling)->Ok_0.filename);
    assert(last.files.dom() =~= st.files.dom().insert(name));
}

/// A name with a path separator is refused by deletion, and as an upload's file name by
/// ingestion, with the files and the journal left as they were.
pub proof fn law_traversal_refused(
    st: StoreState,
    name: Seq<char>,
    i: int,
    s: Seq<ReceivedView>,
    ceiling: u64,
    now: Seq<char>,
    write_ok: bool,
    index_ok: bool,
    remove_ok: bool,
)
    requires
        0 <= i < name.len(),
        is_separator(name[i]),
    ensures
        delete_run(st, name, remove_ok, index_ok) == (st, Err::<DeleteOutcome, DeleteError>(
            DeleteError::InvalidName,
        )),
        decode_spec(s, ceiling) matches Ok(u) && u.filename == Some(name) ==> ingest_run(
            st,
            s,
            ceiling,
            now,
            write_ok,
            index_ok,
        ) == (st, Err::<IngestOutcome, IngestError>(
            IngestError::InvalidName(NameRejected::Separator),
        )),
{
}

/// The uploads `ss` ingested one after another, each stored and journalled; the
/// journal's lock puts concurrent ingestions in some such order.
pub open spec fn ingest_each(st: StoreState, ss: Seq<Seq<ReceivedView>>, ceiling: u64, now: Seq<char>) -> StoreState
    decreases ss.len(),
{
    if ss.len() == 0 {
        st
    } else {
        ingest_run(ingest_each(st, ss.drop_last(), ceiling, now), ss.last(), ceiling, now, true, true).0
    }
}

/// The file name that the valid upload `s` is stored under.
pub open spec fn upload_name(s: Seq<ReceivedView>, ceiling: u64) -> Seq<char> {
    stored_name(decode_spec(s, ceiling)->Ok_0.filename)
}

/// Valid uploads ingested in any order all end up journalled and stored: no update is
/// lost, and the journal grows by exactly one record per upload.
pub proof fn law_no_lost_updates(st: StoreState, ss: Seq<Seq<ReceivedView>>, ceiling: u64, now: Seq<char>)
    requires
        forall|i: int|
            0 <= i < ss.len() ==> #[trigger] decode_spec(ss[i], ceiling) is Ok && is_safe_name(
                upload_name(ss[i], ceiling),
            ),
    ensures
        ({
            let after = ingest_each(st, ss, ceiling, now);
            &&& after.journal.len() == st.journal.len() + ss.len()
            &&& after.journal.take(st.journal.len() as int) == st.journal
            &&& forall|i: int|
                0 <= i < ss.len() ==> after.journal[st.journal.len() + i].file == upload_name(
                    #[trigger] ss[i],
                    ceiling,
                )
            &&& forall|i: int|
                0 <= i < ss.len() ==> has_file(after.journal, upload_name(#[trigger] ss[i], ceiling))
                    && after.files.contains_key(upload_name(ss[i], ceiling))
        }),
    decreases ss.len(),
{
    if ss.len() > 0 {
        let prefix = ss.drop_last();
        assert forall|i: int| 0 <= i < prefix.len() implies #[trigger] decode_spec(prefix[i], ceiling) is Ok
            && is_safe_name(upload_name(prefix[i], ceiling)) by {
            assert(prefix[i] == ss[i]);
        }
        law_no_lost_updates(st, prefix, ceiling, now);
        let mid = ingest_each(st, prefix, ceiling, now);
        let last = ss.last();
        assert(decode_spec(ss[ss.len() - 1], ceiling) is Ok);
        law_ingest_records_once(mid, last, ceiling, now);
        let after = ingest_each(st, ss, ceiling, now);
        assert(after.journal.drop_last() == mid.journal);
        assert(after.journal.take(st.journal.len() as int) =~= mid.journal.take(st.journal.len() as int));
        assert forall|i: int| 0 <= i < ss.len() implies after.journal[st.journal.len() + i].file
            == upload_name(#[trigger] ss[i], ceiling) && has_file(after.journal, upload_name(ss[i], ceiling))
            && after.files.contains_key(upload_name(ss[i], ceiling)) by {
            let k = st.journal.len() + i;
            if i < prefix.len() {
                assert(prefix[i] == ss[i]);
                assert(after.journal[k] == mid.journal[k]);
            } else {
                assert(ss[i] == last);
            }
            assert(after.journal[k].file == upload_name(ss[i], ceiling));
        }
    }
}

} // verus!
