//! The host table as it is kept on disk: a header line, then one record for
//! each host, in the comma-separated form that the `csv` crate reads and
//! writes.

use crate::failure::Failure;
use crate::hosts::{
    host_views, upserted, views_of_pushed, without, Host, HostDirectory, HostView,
};
use crate::text::{blank, is_blank};
use vstd::prelude::*;

verus! {

/// The error of the `csv` crate.
#[verifier::external_type_specification]
#[verifier::external_body]
pub struct ExCsvError(csv::Error);

/// What the `csv` reader makes of a text whose first record is a header:
/// the fields of each record after the header, or, where the reader reports
/// an error, the words of its first error.
pub uninterp spec fn csv_reading(contents: Seq<char>) -> Result<Seq<Seq<Seq<char>>>, Seq<char>>;

/// Reads a text with `csv::Reader::records`, the reader taking the first
/// record for a header. The outcome depends on the text alone: the records
/// after the header, each as its fields, or the reader's first error, taken
/// by the words that its `Display` gives.
#[verifier::external_body]
fn read_records(contents: &str) -> (outcome: Result<Vec<Vec<String>>, String>)
    ensures
        match outcome {
            Ok(rows) => csv_reading(contents@) == Ok::<Seq<Seq<Seq<char>>>, Seq<char>>(
                rows.deep_view(),
            ),
            Err(words) => csv_reading(contents@) == Err::<Seq<Seq<Seq<char>>>, Seq<char>>(words@),
        },
{
    let mut reader = csv::ReaderBuilder::new().has_headers(true).from_reader(contents.as_bytes());
    let records: Result<Vec<csv::StringRecord>, csv::Error> = reader.records().collect();
    match records {
        Ok(rows) => Ok(rows.iter().map(|row| row.iter().map(String::from).collect()).collect()),
        Err(error) => Err(error.to_string()),
    }
}

/// The words of an error of the `csv` crate, as its `Display` gives them.
#[verifier::external_body]
fn error_words(error: &csv::Error) -> (words: String) {
    error.to_string()
}

/// What the reader makes of what the table's file held: without a file, no
/// record.
pub open spec fn stored_reading(stored: Option<&str>) -> Result<Seq<Seq<Seq<char>>>, Seq<char>> {
    match stored {
        Some(contents) => csv_reading(contents@),
        None => Ok(Seq::empty()),
    }
}

/// Whether a record holds a host: it has a name and a description.
pub open spec fn holds_host() -> spec_fn(Seq<Seq<char>>) -> bool {
    |fields: Seq<Seq<char>>| fields.len() >= 2
}

/// The host that a record holds: its first field is the name, its second
/// the description.
pub open spec fn host_of() -> spec_fn(Seq<Seq<char>>) -> HostView {
    |fields: Seq<Seq<char>>| HostView { hostname: fields[0], description: fields[1] }
}

/// The hosts that records hold, in the order of the records. A record of
/// fewer than two fields holds none and is passed over.
pub open spec fn hosts_of(rows: Seq<Seq<Seq<char>>>) -> Seq<HostView> {
    rows.filter(holds_host()).map_values(host_of())
}

impl HostDirectory {
    /// The list that records hold, in the order of the records.
    pub fn from_records(rows: &Vec<Vec<String>>) -> (directory: HostDirectory)
        ensures
            directory@ == hosts_of(rows.deep_view()),
    {
        let ghost texts = rows.deep_view();
        let mut hosts: Vec<Host> = Vec::new();
        let mut at: usize = 0;
        proof {
            assert(texts.take(0) =~= Seq::<Seq<Seq<char>>>::empty());
            reveal(Seq::filter);
            assert(host_views(hosts@) =~= hosts_of(texts.take(0)));
        }
        while at < rows.len()
            invariant
                at <= rows@.len(),
                texts == rows.deep_view(),
                host_views(hosts@) == hosts_of(texts.take(at as int)),
            decreases rows@.len() - at,
        {
            let row = &rows[at];
            proof {
                assert(texts[at as int] == row.deep_view());
                assert(texts.take(at + 1) =~= texts.take(at as int).push(row.deep_view()));
                Seq::lemma_filter_push(texts.take(at as int), row.deep_view(), holds_host());
            }
            if row.len() >= 2 {
                let host = Host { hostname: row[0].clone(), description: row[1].clone() };
                proof {
                    views_of_pushed(hosts@, host);
                    assert(host@ == host_of()(row.deep_view()));
                    assert(hosts_of(texts.take(at + 1)) =~= hosts_of(texts.take(at as int)).push(
                        host@,
                    ));
                }
                hosts.push(host);
            }
            at += 1;
        }
        proof {
            assert(texts.take(at as int) =~= texts);
        }
        HostDirectory { hosts }
    }

    /// Reads the list from the text of the table. The first record is the
    /// header; every later record of two fields or more is a host. Fails
    /// where the text is no table, with the reader's words.
    pub fn parse(contents: &str) -> (outcome: Result<HostDirectory, Failure>)
        ensures
            match csv_reading(contents@) {
                Ok(rows) => outcome matches Ok(directory) && directory@ == hosts_of(rows),
                Err(words) => outcome matches Err(Failure::Malformed(detail)) && detail@ == words,
            },
    {
        match read_records(contents) {
            Ok(rows) => Ok(HostDirectory::from_records(&rows)),
            Err(words) => Err(Failure::Malformed(words)),
        }
    }

    /// Reads the list from what the table's file held. Without a file the
    /// list is empty.
    pub fn load(stored: Option<&str>) -> (outcome: Result<HostDirectory, Failure>)
        ensures
            match stored_reading(stored) {
                Ok(rows) => outcome matches Ok(directory) && directory@ == hosts_of(rows),
                Err(words) => outcome matches Err(Failure::Malformed(detail)) && detail@ == words,
            },
            stored is None ==> (outcome matches Ok(directory) && directory@ == Seq::<
                HostView,
            >::empty()),
    {
        match stored {
            None => {
                proof {
                    reveal(Seq::filter);
                    assert(hosts_of(Seq::empty()) =~= Seq::<HostView>::empty());
                }
                Ok(HostDirectory::new())
            },
            Some(contents) => HostDirectory::parse(contents),
        }
    }

    /// The list once a host is saved into what the table's file held. The
    /// host's name is looked at first: a host whose name is empty or blank
    /// is refused, whatever the file held. Then the file's text must be a
    /// table, and the host takes the place of the first host of its name,
    /// or the end of the list where there is none.
    pub fn saved(stored: Option<&str>, host: Host) -> (outcome: Result<HostDirectory, Failure>)
        ensures
            match outcome {
                Ok(directory) => {
                    &&& !blank(host.hostname@)
                    &&& stored_reading(stored) matches Ok(rows) && directory@ == upserted(
                        hosts_of(rows),
                        host@,
                    )
                },
                Err(Failure::EmptyHostname) => blank(host.hostname@),
                Err(Failure::Malformed(detail)) => {
                    &&& !blank(host.hostname@)
                    &&& stored_reading(stored) == Err::<Seq<Seq<Seq<char>>>, Seq<char>>(detail@)
                },
                Err(_) => false,
            },
    {
        if is_blank(host.hostname.as_str()) {
            return Err(Failure::EmptyHostname);
        }
        match HostDirectory::load(stored) {
            Ok(mut directory) => {
                directory.put(host);
                Ok(directory)
            },
            Err(failure) => Err(failure),
        }
    }

    /// The list once the hosts of a name are deleted from what the table's
    /// file held. Fails where the file's text is no table.
    pub fn removed(stored: Option<&str>, hostname: &str) -> (outcome: Result<
        HostDirectory,
        Failure,
    >)
        ensures
            match stored_reading(stored) {
                Ok(rows) => outcome matches Ok(directory) && directory@ == without(
                    hosts_of(rows),
                    hostname@,
                ),
                Err(words) => outcome matches Err(Failure::Malformed(detail)) && detail@ == words,
            },
    {
        match HostDirectory::load(stored) {
            Ok(mut directory) => {
                directory.delete(hostname);
                Ok(directory)
            },
            Err(failure) => Err(failure),
        }
    }
}

/// A writer of the `csv` crate that writes into memory.
#[verifier::external_body]
pub struct TableWriter {
    inner: csv::Writer<Vec<u8>>,
}

/// The records that a writer has taken so far, each as its fields.
pub uninterp spec fn written(writer: TableWriter) -> Seq<Seq<Seq<char>>>;

/// The bytes that the `csv` writer, as `csv::WriterBuilder::new` sets it up,
/// makes of records.
pub uninterp spec fn csv_bytes(records: Seq<Seq<Seq<char>>>) -> Seq<u8>;

/// A writer into memory, set up by `csv::WriterBuilder::new`, that has
/// taken no record yet.
#[verifier::external_body]
fn memory_writer() -> (writer: TableWriter)
    ensures
        written(writer) == Seq::<Seq<Seq<char>>>::empty(),
{
    TableWriter { inner: csv::WriterBuilder::new().from_writer(Vec::new()) }
}

/// Whether a writer takes a record: it takes its first record whatever it
/// holds, and every later one that has as many fields as the first.
pub open spec fn takes(taken: Seq<Seq<Seq<char>>>, fields: Seq<Seq<char>>) -> bool {
    taken.len() == 0 || fields.len() == taken[0].len()
}

/// Hands one record to `csv::Writer::write_record`. The writer refuses a
/// record only for the number of its fields. Where it takes the record, it
/// is the last of the records that the writer has taken; where it refuses,
/// the writer is given up.
#[verifier::external_body]
fn write_fields(writer: TableWriter, fields: &Vec<String>) -> (outcome: Result<
    TableWriter,
    csv::Error,
>)
    ensures
        outcome is Ok <==> takes(written(writer), fields.deep_view()),
        outcome matches Ok(next) ==> written(next) == written(writer).push(fields.deep_view()),
{
    let mut writer = writer;
    writer.inner.write_record(fields)?;
    Ok(writer)
}

/// Ends the writing with `csv::Writer::into_inner`, which cannot fail on a
/// writer into memory: the bytes are those that the writer makes of the
/// records it has taken.
#[verifier::external_body]
fn written_bytes(writer: TableWriter) -> (outcome: Result<Vec<u8>, csv::Error>)
    ensures
        outcome is Ok,
        outcome matches Ok(bytes) ==> bytes@ == csv_bytes(written(writer)),
{
    writer.inner.into_inner().map_err(|refused| csv::Error::from(refused.into_error()))
}

/// The header of the table.
pub open spec fn header_fields() -> Seq<Seq<char>> {
    seq!["hostname"@, "description"@]
}

/// The record of a host: its name, then its description.
pub open spec fn fields_of() -> spec_fn(HostView) -> Seq<Seq<char>> {
    |host: HostView| seq![host.hostname, host.description]
}

/// The records of the table for a list: the header, then one record for
/// each host, in the order of the list.
pub open spec fn table_of(hosts: Seq<HostView>) -> Seq<Seq<Seq<char>>> {
    seq![header_fields()] + hosts.map_values(fields_of())
}

fn header_row() -> (fields: Vec<String>)
    ensures
        fields.deep_view() == header_fields(),
{
    let mut fields: Vec<String> = Vec::new();
    fields.push(String::from_str("hostname"));
    fields.push(String::from_str("description"));
    proof {
        assert(fields.deep_view() =~= header_fields());
    }
    fields
}

fn host_row(host: &Host) -> (fields: Vec<String>)
    ensures
        fields.deep_view() == fields_of()(host@),
{
    let mut fields: Vec<String> = Vec::new();
    fields.push(host.hostname.clone());
    fields.push(host.description.clone());
    proof {
        assert(fields.deep_view() =~= fields_of()(host@));
    }
    fields
}

impl HostDirectory {
    /// The records of the table for this list: the header, then one record
    /// for each host.
    pub fn rows(&self) -> (rows: Vec<Vec<String>>)
        ensures
            rows.deep_view() == table_of(self@),
    {
        let mut rows: Vec<Vec<String>> = Vec::new();
        rows.push(header_row());
        let mut at: usize = 0;
        proof {
            assert(rows.deep_view() =~= table_of(self@.take(0)));
        }
        while at < self.hosts.len()
            invariant
                at <= self.hosts@.len(),
                rows.deep_view() == table_of(self@.take(at as int)),
            decreases self.hosts@.len() - at,
        {
            let ghost before = rows.deep_view();
            let row = host_row(&self.hosts[at]);
            rows.push(row);
            at += 1;
            proof {
                assert(rows.deep_view() =~= before.push(row.deep_view()));
                assert(self@.take(at as int) =~= self@.take(at - 1).push(self@[at - 1]));
                assert(rows.deep_view() =~= table_of(self@.take(at as int)));
            }
        }
        proof {
            assert(self@.take(at as int) =~= self@);
        }
        rows
    }

    /// Writes the table for this list: the bytes that the `csv` writer
    /// makes of the header and of one record for each host. Every record
    /// has two fields, so the writer refuses none, and the writing succeeds.
    pub fn render(&self) -> (outcome: Result<Vec<u8>, Failure>)
        ensures
            outcome matches Ok(bytes) && bytes@ == csv_bytes(table_of(self@)),
    {
        let rows = self.rows();
        let mut writer = memory_writer();
        let mut at: usize = 0;
        proof {
            table_of_pairs(self@);
        }
        while at < rows.len()
            invariant
                at <= rows@.len(),
                rows.deep_view() == table_of(self@),
                written(writer) == rows.deep_view().take(at as int),
                forall|row: int| 0 <= row < table_of(self@).len() ==> (#[trigger] table_of(
                    self@,
                )[row]).len() == 2,
            decreases rows@.len() - at,
        {
            proof {
                assert(rows@[at as int].deep_view() == table_of(self@)[at as int]);
                if at > 0 {
                    assert(written(writer)[0] == table_of(self@)[0]);
                }
            }
            writer = match write_fields(writer, &rows[at]) {
                Ok(next) => next,
                Err(error) => {
                    return Err(Failure::Unwritten(error_words(&error)));
                },
            };
            at += 1;
            proof {
                assert(rows.deep_view().take(at as int) =~= rows.deep_view().take(at - 1).push(
                    rows@[at - 1].deep_view(),
                ));
            }
        }
        proof {
            assert(rows.deep_view().take(at as int) =~= rows.deep_view());
        }
        match written_bytes(writer) {
            Ok(bytes) => Ok(bytes),
            Err(error) => Err(Failure::Unwritten(error_words(&error))),
        }
    }
}

/// Every record of the table for a list has two fields.
pub proof fn table_of_pairs(hosts: Seq<HostView>)
    ensures
        table_of(hosts).len() == hosts.len() + 1,
        forall|row: int|
            0 <= row < table_of(hosts).len() ==> (#[trigger] table_of(hosts)[row]).len() == 2,
{
    assert forall|row: int| 0 <= row < table_of(hosts).len() implies (#[trigger] table_of(
        hosts,
    )[row]).len() == 2 by {
        if row > 0 {
            assert(table_of(hosts)[row] == fields_of()(hosts[row - 1]));
        }
    }
}

} // verus!
