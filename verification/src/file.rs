//! An MMSDM file as the loader sees it: its header, and its tables, each named by a
//! file key (data set, table, version).

use vstd::prelude::*;

verus! {

/// Names one table of an MMSDM file: the data set, the table within it (if the file names
/// one), and the version of the table's layout.
#[derive(Debug)]
pub struct FileKey {
    pub data_set_name: String,
    pub table_name: Option<String>,
    pub version: i32,
}

/// What a file key names, as values.
pub struct KeyModel {
    pub data_set: Seq<char>,
    pub table: Option<Seq<char>>,
    pub version: i32,
}

/// The text of an optional string.
pub open spec fn opt_text(t: Option<String>) -> Option<Seq<char>> {
    match t {
        Some(s) => Some(s@),
        None => None,
    }
}

impl View for FileKey {
    type V = KeyModel;

    open spec fn view(&self) -> KeyModel {
        KeyModel { data_set: self.data_set_name@, table: opt_text(self.table_name), version: self.version }
    }
}

/// The sub type that the file log records for a key: the table name, or nothing.
pub open spec fn sub_type(k: KeyModel) -> Seq<char> {
    match k.table {
        Some(t) => t,
        None => Seq::empty(),
    }
}

impl FileKey {
    /// The table name of the key, or the empty text when the key names none.
    pub fn table_name(&self) -> (r: String)
        ensures
            r@ == sub_type(self@),
    {
        match &self.table_name {
            Some(t) => t.clone(),
            None => String::new(),
        }
    }
}

/// The header line of an MMSDM file.
pub struct AemoHeader {
    pub data_source: String,
    pub participant_name: String,
    pub privacy_level: String,
    /// The date and time from which the file is effective.
    pub effective: String,
    pub serial_number: i64,
}

/// One table of a file: its key and its records, each a list of fields.
pub struct FileTable {
    pub key: FileKey,
    pub records: Vec<Vec<String>>,
}

/// An MMSDM file: its header and its tables, in the order in which they are loaded.
pub struct AemoFile {
    pub header: AemoHeader,
    pub data: Vec<FileTable>,
}

/// The key of each table of a file, in order.
pub open spec fn file_keys(f: AemoFile) -> Seq<KeyModel> {
    f.data@.map_values(|t: FileTable| t@)
}

impl View for FileTable {
    type V = KeyModel;

    open spec fn view(&self) -> KeyModel {
        self.key@
    }
}

/// The values that go into the row of the file log that records the loading of one table.
pub struct FileLogRecord {
    pub data_source: String,
    pub participant_name: String,
    pub privacy_level: String,
    pub effective_date: String,
    pub serial_number: i64,
    pub data_set: String,
    pub sub_type: String,
    pub version: i32,
}

/// The text fields of a file log row, as values.
pub struct RecordModel {
    pub data_source: Seq<char>,
    pub participant_name: Seq<char>,
    pub privacy_level: Seq<char>,
    pub effective_date: Seq<char>,
    pub serial_number: i64,
    pub data_set: Seq<char>,
    pub sub_type: Seq<char>,
    pub version: i32,
}

impl View for FileLogRecord {
    type V = RecordModel;

    open spec fn view(&self) -> RecordModel {
        RecordModel {
            data_source: self.data_source@,
            participant_name: self.participant_name@,
            privacy_level: self.privacy_level@,
            effective_date: self.effective_date@,
            serial_number: self.serial_number,
            data_set: self.data_set@,
            sub_type: self.sub_type@,
            version: self.version,
        }
    }
}

/// The file log row for the table `k` of a file with header `h`.
pub open spec fn record_for(h: AemoHeader, k: KeyModel) -> RecordModel {
    RecordModel {
        data_source: h.data_source@,
        participant_name: h.participant_name@,
        privacy_level: h.privacy_level@,
        effective_date: h.effective@,
        serial_number: h.serial_number,
        data_set: k.data_set,
        sub_type: sub_type(k),
        version: k.version,
    }
}

impl AemoFile {
    /// The values of the file log row that records the loading of the table `key` of this
    /// file: the header's source, participant, privacy level, effective date and serial
    /// number, and the key's data set, table name and version.
    pub fn file_log_record(&self, key: &FileKey) -> (r: FileLogRecord)
        ensures
            r@ == record_for(self.header, key@),
            r.data_source@ == self.header.data_source@,
            r.participant_name@ == self.header.participant_name@,
            r.privacy_level@ == self.header.privacy_level@,
            r.effective_date@ == self.header.effective@,
            r.serial_number == self.header.serial_number,
            r.data_set@ == key.data_set_name@,
            key.table_name matches Some(t) ==> r.sub_type@ == t@,
            key.table_name is None ==> r.sub_type@.len() == 0,
            r.version == key.version,
    {
        FileLogRecord {
            data_source: self.header.data_source.clone(),
            participant_name: self.header.participant_name.clone(),
            privacy_level: self.header.privacy_level.clone(),
            effective_date: self.header.effective.clone(),
            serial_number: self.header.serial_number,
            data_set: key.data_set_name.clone(),
            sub_type: key.table_name(),
            version: key.version,
        }
    }
}

} // verus!
