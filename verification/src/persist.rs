//! The store as a file: CSV records of two fields, a name and a portable
//! path, without a header row. Reading and writing CSV is the work of the `csv`
//! crate; which rows make a store, and which records a store is written as, is
//! decided here.

use vstd::prelude::*;
use vstd::string::*;
use crate::store::{
    entries_for, entries_of, index_of, is_listed, lemma_mapping_at, mapping_of, sorted_by_name,
    Entry, Shortcut, Store,
};
use crate::text::{decimal, decimal_string};

verus! {

/// The rows that the CSV reader finds in `bytes`, each a list of fields; `None`
/// where it fails on them.
pub uninterp spec fn csv_rows(bytes: Seq<u8>) -> Option<Seq<Seq<Seq<char>>>>;

/// The bytes that the CSV writer writes for one record of the two fields `name`
/// and `path`; `None` where it fails.
pub uninterp spec fn csv_record(name: Seq<char>, path: Seq<char>) -> Option<Seq<u8>>;

/// The error type of the `csv` crate.
#[verifier::external_type_specification]
#[verifier::external_body]
pub struct ExCsvError(csv::Error);

/// `csv::Reader::records`, on the reader that `csv::ReaderBuilder` makes over
/// `bytes` with `has_headers(false)`: all records in order, each as the list
/// of its fields, or the first error of the reader. What comes out is a
/// function of the bytes alone and is given the name `csv_rows`; nothing more
/// is claimed of it.
#[verifier::external_body]
fn read_rows(bytes: &[u8]) -> (r: Result<Vec<Vec<String>>, csv::Error>)
    ensures
        match r {
            Ok(rows) => csv_rows(bytes@) == Some(rows.deep_view()),
            Err(_) => csv_rows(bytes@) is None,
        },
{
    let mut reader = csv::ReaderBuilder::new().has_headers(false).from_reader(bytes);
    reader.records().map(|row| row.map(|r| r.iter().map(String::from).collect())).collect()
}

/// `csv::Writer::write_record` with the two fields `name` and `path`, on the
/// writer that `csv::WriterBuilder` makes over an empty vector with
/// `has_headers(false)`, followed by `csv::Writer::into_inner`: the bytes
/// written, or the error of the writer. What comes out is a function of the
/// two fields alone and is given the name `csv_record`; nothing more is
/// claimed of it.
#[verifier::external_body]
fn write_record(name: &str, path: &str) -> (r: Result<Vec<u8>, csv::Error>)
    ensures
        match r {
            Ok(bytes) => csv_record(name@, path@) == Some(bytes@),
            Err(_) => csv_record(name@, path@) is None,
        },
{
    let mut writer = csv::WriterBuilder::new().has_headers(false).from_writer(Vec::new());
    writer.write_record([name, path])?;
    writer.into_inner().map_err(|e| csv::Error::from(e.into_error()))
}

/// The message of a `csv::Error`, as its `Display` gives it. Nothing is claimed
/// of the text.
#[verifier::external_body]
fn error_text(error: &csv::Error) -> String {
    error.to_string()
}

/// What was found where the store is kept.
#[derive(Debug, PartialEq, Eq)]
pub enum StoreFile {
    /// There is no file.
    Missing,
    /// The file's contents.
    Contents(Vec<u8>),
    /// The file could not be read, with the cause.
    Unreadable(String),
}

/// The model of a [`StoreFile`].
pub enum StoreFileView {
    Missing,
    Contents(Seq<u8>),
    Unreadable(Seq<char>),
}

impl View for StoreFile {
    type V = StoreFileView;

    open spec fn view(&self) -> StoreFileView {
        match self {
            StoreFile::Missing => StoreFileView::Missing,
            StoreFile::Contents(bytes) => StoreFileView::Contents(bytes@),
            StoreFile::Unreadable(cause) => StoreFileView::Unreadable(cause@),
        }
    }
}

/// The store could not be loaded.
#[derive(Debug, PartialEq, Eq)]
pub struct LoadError {
    /// What went wrong, for the user.
    pub cause: String,
}

/// The store could not be saved.
#[derive(Debug, PartialEq, Eq)]
pub struct SaveError {
    /// What went wrong, for the user.
    pub cause: String,
}

/// Every row has the two fields that a shortcut is made of.
pub open spec fn rows_complete(rows: Seq<Seq<Seq<char>>>) -> bool {
    forall|i: int| 0 <= i < rows.len() ==> (#[trigger] rows[i]).len() >= 2
}

/// `row` is the first row with fewer than two fields.
pub open spec fn is_first_short_row(rows: Seq<Seq<Seq<char>>>, row: int) -> bool {
    &&& 0 <= row < rows.len()
    &&& rows[row].len() < 2
    &&& forall|i: int| 0 <= i < row ==> (#[trigger] rows[i]).len() >= 2
}

/// The mapping that complete rows stand for: the first field of each row is a
/// name, the second its path, further fields are ignored, and of two rows with
/// one name the later counts.
pub open spec fn mapping_of_rows(rows: Seq<Seq<Seq<char>>>) -> Map<Seq<char>, Seq<char>>
    decreases rows.len(),
{
    if rows.len() == 0 {
        Map::empty()
    } else {
        mapping_of_rows(rows.drop_last()).insert(rows.last()[0], rows.last()[1])
    }
}

/// What is reported of a row with too few fields: the row's number, counted
/// from one, and the number of its fields.
pub open spec fn short_row_cause(row: nat, fields: nat) -> Seq<char> {
    "row "@ + decimal(row + 1) + ": found "@ + decimal(fields) + " of 2 fields"@
}

/// The first row with fewer than two fields.
pub open spec fn first_short_row(rows: Seq<Seq<Seq<char>>>) -> int {
    choose|row: int| is_first_short_row(rows, row)
}

/// What `rows` are loaded as: the mapping they stand for, or what is reported
/// of the first row with fewer than two fields.
pub open spec fn loaded_rows(rows: Seq<Seq<Seq<char>>>) -> Result<
    Map<Seq<char>, Seq<char>>,
    Seq<char>,
> {
    if rows_complete(rows) {
        Ok(mapping_of_rows(rows))
    } else {
        let row = first_short_row(rows);
        Err(short_row_cause(row as nat, rows[row].len()))
    }
}

/// There is one first row with fewer than two fields, if any.
pub proof fn lemma_first_short_row(rows: Seq<Seq<Seq<char>>>, row: int)
    requires
        is_first_short_row(rows, row),
    ensures
        !rows_complete(rows),
        first_short_row(rows) == row,
{
}

/// The rows that `entries` are written as.
pub open spec fn rows_of(entries: Seq<Entry>) -> Seq<Seq<Seq<char>>> {
    Seq::new(entries.len(), |i: int| seq![entries[i].0, entries[i].1])
}

/// The rows that a store is written as, read back, give the store's mapping.
pub proof fn lemma_rows_read_back(entries: Seq<Entry>)
    requires
        sorted_by_name(entries),
    ensures
        rows_complete(rows_of(entries)),
        mapping_of_rows(rows_of(entries)) == mapping_of(entries),
    decreases entries.len(),
{
    let rows = rows_of(entries);
    if entries.len() > 0 {
        let last = entries.len() - 1;
        let front = entries.drop_last();
        assert(rows.drop_last() =~= rows_of(front));
        lemma_rows_read_back(front);
        let left = mapping_of(front).insert(entries[last].0, entries[last].1);
        let right = mapping_of(entries);
        assert forall|name: Seq<char>| left.contains_key(name) <==> right.contains_key(name) by {
            if right.contains_key(name) {
                let k = index_of(entries, name);
                if k < last {
                    assert(front[k].0 == name);
                }
            }
        }
        assert forall|name: Seq<char>| right.contains_key(name) implies
            left[name] == right[name] by {
            let k = index_of(entries, name);
            lemma_mapping_at(entries, last);
            if k < last {
                lemma_mapping_at(front, k);
            }
        }
    }
}

/// The store that `rows` stand for, or what is wrong with the first row that
/// has fewer than two fields.
pub fn store_from_rows(rows: &Vec<Vec<String>>) -> (r: Result<Store, LoadError>)
    ensures
        load_view(r) == loaded_rows(rows.deep_view()),
{
    let ghost all = rows.deep_view();
    let mut store = Store::new();
    let mut i: usize = 0;
    while i < rows.len()
        invariant
            i <= rows@.len(),
            all == rows.deep_view(),
            forall|k: int| 0 <= k < i ==> (#[trigger] all[k]).len() >= 2,
            store@ == mapping_of_rows(all.take(i as int)),
        decreases rows@.len() - i,
    {
        let row = &rows[i];
        if row.len() < 2 {
            let cause = String::from_str("row ").concat(
                decimal_string(i + 1).as_str(),
            ).concat(": found ").concat(decimal_string(row.len()).as_str()).concat(
                " of 2 fields",
            );
            proof {
                lemma_first_short_row(all, i as int);
            }
            return Err(LoadError { cause });
        }
        store.set(row[0].clone(), row[1].clone());
        assert(all.take(i + 1).drop_last() == all.take(i as int));
        i = i + 1;
    }
    assert(all.take(i as int) == all);
    Ok(store)
}

/// What loading `file` gives: the mapping, or the cause of the failure. Where
/// the CSV reader fails, what it reports is the cause, and nothing is said of
/// its text.
pub open spec fn is_load_of(
    file: StoreFileView,
    loaded: Result<Map<Seq<char>, Seq<char>>, Seq<char>>,
) -> bool {
    match file {
        StoreFileView::Missing => loaded == Ok::<Map<Seq<char>, Seq<char>>, Seq<char>>(
            Map::empty(),
        ),
        StoreFileView::Unreadable(cause) => loaded == Err::<Map<Seq<char>, Seq<char>>, Seq<char>>(
            cause,
        ),
        StoreFileView::Contents(bytes) => match csv_rows(bytes) {
            None => loaded is Err,
            Some(rows) => loaded == loaded_rows(rows),
        },
    }
}

/// The outcome of a load, as a model.
pub open spec fn load_view(r: Result<Store, LoadError>) -> Result<
    Map<Seq<char>, Seq<char>>,
    Seq<char>,
> {
    match r {
        Ok(store) => Ok(store@),
        Err(e) => Err(e.cause@),
    }
}

/// The store that is kept in `file`. A missing file is the empty store. A file
/// that could not be read, contents that are not CSV, and a row with fewer
/// than two fields are errors.
pub fn load_shortcuts(file: StoreFile) -> (r: Result<Store, LoadError>)
    ensures
        is_load_of(file@, load_view(r)),
{
    match file {
        StoreFile::Missing => Ok(Store::new()),
        StoreFile::Unreadable(cause) => Err(LoadError { cause }),
        StoreFile::Contents(bytes) => match read_rows(bytes.as_slice()) {
            Ok(rows) => store_from_rows(&rows),
            Err(error) => Err(LoadError { cause: error_text(&error) }),
        },
    }
}

/// The bytes of `records`, one after the other.
pub open spec fn joined(records: Seq<Seq<u8>>) -> Seq<u8>
    decreases records.len(),
{
    if records.len() == 0 {
        Seq::empty()
    } else {
        joined(records.drop_last()) + records.last()
    }
}

/// The records that `entries` are written as, one for each, or `None` where
/// the CSV writer fails on one of them.
pub open spec fn records_of(entries: Seq<Entry>) -> Option<Seq<Seq<u8>>>
    decreases entries.len(),
{
    if entries.len() == 0 {
        Some(Seq::empty())
    } else {
        match (records_of(entries.drop_last()), csv_record(entries.last().0, entries.last().1)) {
            (Some(records), Some(record)) => Some(records.push(record)),
            _ => None,
        }
    }
}

/// What is reported where the CSV writer fails on a record.
pub open spec fn unwritable_cause() -> Seq<char> {
    "a shortcut could not be written as a CSV record"@
}

/// The contents of the file that `store` is saved as: the records of its
/// entries in the order of the names, one after the other.
pub open spec fn encoded(store: Map<Seq<char>, Seq<char>>) -> Result<Seq<u8>, Seq<char>> {
    match records_of(entries_for(store)) {
        Some(records) => Ok(joined(records)),
        None => Err(unwritable_cause()),
    }
}

/// The outcome of a save, as a model.
pub open spec fn save_view(r: Result<Vec<u8>, SaveError>) -> Result<Seq<u8>, Seq<char>> {
    match r {
        Ok(bytes) => Ok(bytes@),
        Err(e) => Err(e.cause@),
    }
}

/// The bytes of `records`, one after the other.
pub fn join_records(records: &Vec<Vec<u8>>) -> (bytes: Vec<u8>)
    ensures
        bytes@ == joined(records.deep_view()),
{
    let ghost all = records.deep_view();
    let mut bytes: Vec<u8> = Vec::new();
    let mut i: usize = 0;
    while i < records.len()
        invariant
            i <= records@.len(),
            all == records.deep_view(),
            bytes@ == joined(all.take(i as int)),
        decreases records@.len() - i,
    {
        let record = &records[i];
        bytes.extend_from_slice(record.as_slice());
        assert(all.take(i + 1).drop_last() == all.take(i as int));
        i = i + 1;
    }
    assert(all.take(i as int) == all);
    bytes
}

/// The contents of the file that `store` is saved as: one record for each
/// shortcut, in the order of the names, replacing whatever the file held.
pub fn save_shortcuts(store: &Store) -> (r: Result<Vec<u8>, SaveError>)
    ensures
        save_view(r) == encoded(store@),
{
    let shortcuts = store.shortcuts();
    let ghost entries = entries_for(store@);
    let mut records: Vec<Vec<u8>> = Vec::new();
    let mut i: usize = 0;
    while i < shortcuts.len()
        invariant
            i <= shortcuts@.len(),
            entries == entries_of(shortcuts@),
            entries == entries_for(store@),
            records_of(entries.take(i as int)) == Some(records.deep_view()),
        decreases shortcuts@.len() - i,
    {
        let shortcut: &Shortcut = &shortcuts[i];
        assert(entries.take(i + 1).drop_last() == entries.take(i as int));
        match write_record(shortcut.name.as_str(), shortcut.path.as_str()) {
            Ok(record) => {
                assert(record.deep_view() =~= record@);
                records.push(record);
            },
            Err(_) => {
                proof {
                    lemma_records_fail(entries, i as int);
                }
                return Err(
                    SaveError {
                        cause: String::from_str("a shortcut could not be written as a CSV record"),
                    },
                );
            },
        }
        i = i + 1;
    }
    assert(entries.take(i as int) == entries);
    Ok(join_records(&records))
}

/// Saving and loading give the store back, as far as that lies with this
/// library: where the CSV reader finds, in what was written for a store, the
/// rows of the store's entries, loading what was written gives the store.
pub proof fn lemma_saved_store_loads(store: Map<Seq<char>, Seq<char>>, bytes: Seq<u8>)
    requires
        is_listed(store),
    ensures
        encoded(store) == Ok::<Seq<u8>, Seq<char>>(bytes) && csv_rows(bytes) == Some(
            rows_of(entries_for(store)),
        ) ==> is_load_of(StoreFileView::Contents(bytes), Ok(store)),
{
    lemma_rows_read_back(entries_for(store));
}

/// Where the records of a front part of `entries` fail, those of all fail.
proof fn lemma_records_fail(entries: Seq<Entry>, i: int)
    requires
        0 <= i < entries.len(),
        records_of(entries.take(i + 1)) is None,
    ensures
        records_of(entries) is None,
    decreases entries.len() - i,
{
    if i + 1 < entries.len() {
        assert(entries.take(i + 2).drop_last() == entries.take(i + 1));
        lemma_records_fail(entries, i + 1);
    } else {
        assert(entries.take(i + 1) == entries);
    }
}

} // verus!
