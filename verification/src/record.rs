//! The GELF record: the fixed fields of the schema and the additional
//! fields, which are a flat mapping.

use vstd::prelude::*;
use vstd::std_specs::convert::FromSpecImpl;
use crate::flat::{all_scalar, as_mapping, map_of, strictly_sorted, FlatMap, Pair};
use crate::key::KeyNaming;
use crate::level::{level_of_log, level_of_ordinal, GelfLevel};
use crate::ser::flatten;
use crate::to_flat_dict;
use crate::value::{Value, ValueView};

verus! {

/// The mathematical model of a [`GelfRecord`]. The version and the name of
/// the level are no parts of it: the first is constant and the second
/// follows from the level.
pub struct GelfRecordView {
    pub facility: Seq<char>,
    pub file: Seq<char>,
    pub host: Seq<char>,
    pub level: GelfLevel,
    pub line: u32,
    pub short_message: Seq<char>,
    /// The bit pattern of the seconds since the epoch, a double-precision
    /// number.
    pub timestamp: u64,
    pub full_message: Option<Seq<char>>,
    pub additional_fields: Map<Seq<char>, ValueView>,
}

/// The version of the GELF schema.
pub open spec fn spec_version() -> Seq<char> {
    "1.1"@
}

/// The name of the host where the system gave none.
pub open spec fn fallback_host() -> Seq<char> {
    "localhost"@
}

/// The host of a new record, given what the system said of its name.
pub open spec fn host_or_fallback(host: Option<Seq<char>>) -> Seq<char> {
    match host {
        Some(name) => name,
        None => fallback_host(),
    }
}

/// The record that construction starts from, on the host `host` at the time
/// `timestamp`.
pub open spec fn initial_record(host: Seq<char>, timestamp: u64) -> GelfRecordView {
    GelfRecordView {
        facility: "main"@,
        file: "main"@,
        host,
        level: GelfLevel::Alert,
        line: 0,
        short_message: Seq::empty(),
        timestamp,
        full_message: None,
        additional_fields: Map::empty(),
    }
}

/// What `add_additional_fields` makes of a record: data that could not be
/// turned into a value leaves it as it is; a value is flattened from the
/// root, and its entries replace entries of the same name.
pub open spec fn with_added_fields(
    record: GelfRecordView,
    naming: KeyNaming,
    data: Option<ValueView>,
) -> GelfRecordView {
    match data {
        Some(value) => GelfRecordView {
            additional_fields: record.additional_fields.union_prefer_right(
                flatten(naming, Seq::empty(), Seq::empty(), value),
            ),
            ..record
        },
        None => record,
    }
}

/// The model of a mapping of text, or nothing.
pub open spec fn text_view(text: Option<String>) -> Option<Seq<char>> {
    match text {
        Some(s) => Some(s@),
        None => None,
    }
}

/// The model of the outcome of turning data into a value: the value, or
/// nothing where it failed.
pub open spec fn outcome_view(outcome: Result<Value, serde_value::SerializerError>) -> Option<
    ValueView,
> {
    match outcome {
        Ok(value) => Some(value@),
        Err(_) => None,
    }
}

/// The fixed fields of an encoded record, in the order of the schema. The
/// full message is left out where there is none.
pub open spec fn schema_fields(record: GelfRecordView) -> Seq<Pair> {
    seq![
        ("facility"@, ValueView::String(record.facility)),
        ("file"@, ValueView::String(record.file)),
        ("host"@, ValueView::String(record.host)),
        ("level"@, ValueView::U32(record.level.spec_ordinal())),
        ("_levelname"@, ValueView::String(record.level.spec_name())),
        ("line"@, ValueView::U32(record.line)),
        ("short_message"@, ValueView::String(record.short_message)),
        ("timestamp"@, ValueView::F64(record.timestamp)),
        ("version"@, ValueView::String(spec_version())),
    ] + match record.full_message {
        Some(text) => seq![("full_message"@, ValueView::String(text))],
        None => Seq::empty(),
    }
}

/// The record that an event of a logging facade is recorded as on the host
/// `host`: the target becomes the facility, and the source file and the line
/// that logged become the file and the line. A missing source file is the
/// empty text and a missing line is 0.
pub open spec fn event_record(host: Seq<char>, event: LogEvent) -> GelfRecordView {
    GelfRecordView {
        facility: event.target@,
        file: match event.file {
            Some(file) => file@,
            None => Seq::empty(),
        },
        level: level_of_log(event.level),
        line: match event.line {
            Some(line) => line,
            None => 0,
        },
        short_message: event.message@,
        ..initial_record(host, event.timestamp)
    }
}

/// The record that copies the attributes that another record reports, on the
/// host `host`. The additional fields that the other reports are flattened
/// again, as a mapping of one level.
pub open spec fn copied_record(
    host: Seq<char>,
    file: Seq<char>,
    facility: Seq<char>,
    level: GelfLevel,
    line: u32,
    timestamp: u64,
    message: Seq<char>,
    full_message: Option<Seq<char>>,
    fields: Seq<Pair>,
) -> GelfRecordView {
    with_added_fields(
        GelfRecordView {
            facility,
            file,
            level,
            line,
            short_message: message,
            full_message,
            ..initial_record(host, timestamp)
        },
        KeyNaming::active(),
        Some(as_mapping(fields)),
    )
}

/// The fluent construction of a record.
pub trait GelfRecordBuilder: Sized {
    /// A new record, stamped with `timestamp`.
    fn new(timestamp: u64) -> Self;

    /// Sets the short message.
    fn set_message(self, short_message: String) -> Self;

    /// Sets the level, and with it the name of the level.
    fn set_level(self, level: GelfLevel) -> Self;

    /// Sets the timestamp.
    fn set_timestamp(self, timestamp: u64) -> Self;

    /// Flattens structured data into the additional fields. The data comes
    /// as the outcome of turning an object into a value; a failure leaves
    /// the record as it is.
    fn add_additional_fields(
        self,
        additional_fields: Result<Value, serde_value::SerializerError>,
    ) -> Self
        requires
            additional_fields matches Ok(value) ==> value@.has_text_keys(),
    ;

    /// Merges an already flat mapping into the additional fields.
    fn extend_additional_fields(self, additional_fields: FlatMap) -> Self;

    /// Sets the facility.
    fn set_facility(self, facility: String) -> Self;

    /// Sets the line.
    fn set_line(self, line: u32) -> Self;

    /// Sets the file.
    fn set_file(self, file: String) -> Self;

    /// Sets the full message.
    fn set_full_message(self, full_message: Option<String>) -> Self;
}

/// Mutable access to the attributes of a record.
pub trait GelfRecordSetter {
    /// The short message.
    fn message_mut(&mut self) -> &mut String;

    /// The timestamp.
    fn timestamp_mut(&mut self) -> &mut u64;

    /// The level.
    fn level_mut(&mut self) -> &mut GelfLevel;

    /// The additional fields.
    fn additional_fields_mut(&mut self) -> &mut FlatMap;

    /// The facility.
    fn facility_mut(&mut self) -> &mut String;

    /// The line.
    fn line_mut(&mut self) -> &mut u32;

    /// The file.
    fn file_mut(&mut self) -> &mut String;

    /// The full message.
    fn full_message_mut(&mut self) -> &mut Option<String>;
}

/// Read access to the attributes of a record.
pub trait GelfRecordGetter {
    /// The short message.
    fn message(&self) -> String;

    /// The timestamp.
    fn timestamp(&self) -> u64;

    /// The level.
    fn level(&self) -> GelfLevel;

    /// The additional fields.
    fn additional_fields(&self) -> FlatMap;

    /// The facility.
    fn facility(&self) -> String;

    /// The line.
    fn line(&self) -> u32;

    /// The file.
    fn file(&self) -> String;

    /// The version of the schema. Where a record does not say otherwise, it
    /// is the version of this library's schema.
    fn version() -> (version: &'static str)
        default_ensures
            version@ == spec_version(),
    {
        "1.1"
    }

    /// The full message. Where a record does not say otherwise, it has
    /// none.
    fn full_message(&self) -> (full_message: Option<String>)
        default_ensures
            full_message is None,
    {
        None
    }
}

/// An event of a logging facade, as plain values.
#[derive(Debug)]
pub struct LogEvent {
    /// The target of the event, which becomes the facility.
    pub target: String,
    /// The source file that logged.
    pub file: Option<String>,
    /// The level of the event.
    pub level: log::Level,
    /// The line that logged.
    pub line: Option<u32>,
    /// The message.
    pub message: String,
    /// The bit pattern of the seconds since the epoch at which the event is
    /// recorded.
    pub timestamp: u64,
}

/// A log record.
#[derive(Debug, PartialEq)]
pub struct GelfRecord {
    facility: String,
    file: String,
    host: String,
    level: u32,
    levelname: String,
    line: u32,
    short_message: String,
    timestamp: u64,
    version: String,
    full_message: Option<String>,
    additional_fields: FlatMap,
}

impl View for GelfRecord {
    type V = GelfRecordView;

    closed spec fn view(&self) -> GelfRecordView {
        GelfRecordView {
            facility: self.facility@,
            file: self.file@,
            host: self.host@,
            level: level_of_ordinal(self.level),
            line: self.line,
            short_message: self.short_message@,
            timestamp: self.timestamp,
            full_message: text_view(self.full_message),
            additional_fields: self.additional_fields@,
        }
    }
}

/// `hostname::get_hostname`: the name of this host, where the system gives
/// one. Nothing is claimed of the name.
#[verifier::external_body]
fn host_name() -> Option<String> {
    hostname::get_hostname()
}

impl GelfRecord {
    /// The level and its name go together, and the version is constant.
    #[verifier::type_invariant]
    spec fn well_formed(&self) -> bool {
        &&& self.level <= 7
        &&& self.levelname@ == level_of_ordinal(self.level).spec_name()
        &&& self.version@ == spec_version()
    }

    /// The additional fields as the record holds them: in the order of
    /// their names.
    pub closed spec fn additional_pairs(&self) -> Seq<Pair> {
        self.additional_fields.pairs()
    }

    /// A new record on the host `host`; where the system gave no name, the
    /// host is `localhost`.
    pub fn with_host(host: Option<String>, timestamp: u64) -> (record: GelfRecord)
        ensures
            record@ == initial_record(host_or_fallback(text_view(host)), timestamp),
    {
        let host = match host {
            Some(name) => name,
            None => "localhost".to_string(),
        };
        GelfRecord {
            facility: "main".to_string(),
            file: "main".to_string(),
            host,
            level: GelfLevel::Alert.ordinal(),
            levelname: String::from(GelfLevel::Alert),
            line: 0,
            short_message: String::new(),
            timestamp,
            version: "1.1".to_string(),
            full_message: None,
            additional_fields: FlatMap::new(),
        }
    }

    /// A record on this host with the attributes that another record
    /// reported. The additional fields are flattened again.
    pub fn copy_of(
        file: String,
        facility: String,
        level: GelfLevel,
        line: u32,
        timestamp: u64,
        message: String,
        full_message: Option<String>,
        additional_fields: &FlatMap,
    ) -> (record: GelfRecord)
        ensures
            record@ == copied_record(
                record@.host,
                file@,
                facility@,
                level,
                line,
                timestamp,
                message@,
                text_view(full_message),
                additional_fields.pairs(),
            ),
    {
        GelfRecord::new(timestamp).set_file(file).set_facility(facility).set_level(
            level,
        ).set_line(line).set_timestamp(timestamp).set_message(message).set_full_message(
            full_message,
        ).add_additional_fields(Ok(additional_fields.to_value()))
    }

    /// The host that the record was made on.
    pub fn host(&self) -> (host: String)
        ensures
            host@ == self@.host,
    {
        self.host.clone()
    }

    /// The name of the level.
    pub fn levelname(&self) -> (name: String)
        ensures
            name@ == self@.level.spec_name(),
    {
        proof {
            use_type_invariant(self);
        }
        self.levelname.clone()
    }

    /// The fields of the encoded record, in the order in which they are
    /// written: the fixed fields of the schema, then the additional fields
    /// as their siblings, in the order of their names.
    pub fn fields(&self) -> (fields: Vec<(String, Value)>)
        ensures
            fields@.len() == (schema_fields(self@) + self.additional_pairs()).len(),
            forall|i: int|
                0 <= i < fields@.len() ==> ((#[trigger] fields@[i]).0@, fields@[i].1@) == (
                    schema_fields(self@) + self.additional_pairs()
                )[i],
            strictly_sorted(self.additional_pairs()),
            all_scalar(self.additional_pairs()),
            map_of(self.additional_pairs()) == self@.additional_fields,
    {
        proof {
            use_type_invariant(self);
        }
        let mut fields: Vec<(String, Value)> = Vec::new();
        fields.push(("facility".to_string(), Value::String(self.facility.clone())));
        fields.push(("file".to_string(), Value::String(self.file.clone())));
        fields.push(("host".to_string(), Value::String(self.host.clone())));
        fields.push(("level".to_string(), Value::U32(self.level)));
        fields.push(("_levelname".to_string(), Value::String(self.levelname.clone())));
        fields.push(("line".to_string(), Value::U32(self.line)));
        fields.push(("short_message".to_string(), Value::String(self.short_message.clone())));
        fields.push(("timestamp".to_string(), Value::F64(self.timestamp)));
        fields.push(("version".to_string(), Value::String(self.version.clone())));
        match &self.full_message {
            Some(text) => {
                fields.push(("full_message".to_string(), Value::String(text.clone())));
            },
            None => {},
        }
        let ghost fixed = schema_fields(self@);
        assert(fields@.len() == fixed.len());
        assert forall|i: int| 0 <= i < fields@.len() implies ((#[trigger] fields@[i]).0@, fields@[i].1@)
            == fixed[i] by {}
        let count = self.additional_fields.len();
        let mut i: usize = 0;
        while i < count
            invariant
                i <= count == self.additional_pairs().len(),
                fixed == schema_fields(self@),
                fields@.len() == fixed.len() + i,
                forall|j: int|
                    0 <= j < fields@.len() ==> ((#[trigger] fields@[j]).0@, fields@[j].1@) == (fixed
                        + self.additional_pairs())[j],
            decreases count - i,
        {
            let key = self.additional_fields.key_at(i).clone();
            let value = self.additional_fields.value_at(i).clone();
            fields.push((key, value));
            i += 1;
        }
        fields
    }
}

impl Clone for GelfRecord {
    /// A copy with the same attributes.
    fn clone(&self) -> (copy: GelfRecord)
        ensures
            copy@ == self@,
            copy.additional_pairs() == self.additional_pairs(),
    {
        proof {
            use_type_invariant(self);
        }
        GelfRecord {
            facility: self.facility.clone(),
            file: self.file.clone(),
            host: self.host.clone(),
            level: self.level,
            levelname: self.levelname.clone(),
            line: self.line,
            short_message: self.short_message.clone(),
            timestamp: self.timestamp,
            version: self.version.clone(),
            full_message: match &self.full_message {
                Some(text) => Some(text.clone()),
                None => None,
            },
            additional_fields: self.additional_fields.clone(),
        }
    }
}

impl GelfRecordBuilder for GelfRecord {
    /// A new record with the facility `main`, the placeholder file `main`,
    /// the level `Alert`, line 0, an empty message, no full message and no
    /// additional fields. The host is what the system says, or `localhost`.
    fn new(timestamp: u64) -> (record: GelfRecord)
        ensures
            record@ == initial_record(record@.host, timestamp),
    {
        GelfRecord::with_host(host_name(), timestamp)
    }

    fn set_message(self, short_message: String) -> (record: GelfRecord)
        ensures
            record@ == (GelfRecordView { short_message: short_message@, ..self@ }),
    {
        let mut record = self;
        proof {
            use_type_invariant(&record);
        }
        record.short_message = short_message;
        record
    }

    fn set_level(self, level: GelfLevel) -> (record: GelfRecord)
        ensures
            record@ == (GelfRecordView { level: level, ..self@ }),
    {
        proof {
            use_type_invariant(&self);
        }
        GelfRecord {
            facility: self.facility,
            file: self.file,
            host: self.host,
            level: level.ordinal(),
            levelname: String::from(level),
            line: self.line,
            short_message: self.short_message,
            timestamp: self.timestamp,
            version: self.version,
            full_message: self.full_message,
            additional_fields: self.additional_fields,
        }
    }

    fn set_timestamp(self, timestamp: u64) -> (record: GelfRecord)
        ensures
            record@ == (GelfRecordView { timestamp: timestamp, ..self@ }),
    {
        let mut record = self;
        proof {
            use_type_invariant(&record);
        }
        record.timestamp = timestamp;
        record
    }

    fn add_additional_fields(
        self,
        additional_fields: Result<Value, serde_value::SerializerError>,
    ) -> (record: GelfRecord)
        ensures
            record@ == with_added_fields(
                self@,
                KeyNaming::active(),
                outcome_view(additional_fields),
            ),
            additional_fields is Err ==> record == self,
    {
        match additional_fields {
            Ok(value) => match to_flat_dict(Ok(value)) {
                Ok(fields) => self.extend_additional_fields(fields),
                Err(_) => self,
            },
            Err(_) => self,
        }
    }

    fn extend_additional_fields(self, additional_fields: FlatMap) -> (record: GelfRecord)
        ensures
            record@ == (GelfRecordView {
                additional_fields: self@.additional_fields.union_prefer_right(additional_fields@),
                ..self@
            }),
    {
        let mut record = self;
        proof {
            use_type_invariant(&record);
        }
        let mut merged = FlatMap::new();
        std::mem::swap(&mut merged, &mut record.additional_fields);
        merged.extend(additional_fields);
        record.additional_fields = merged;
        record
    }

    fn set_facility(self, facility: String) -> (record: GelfRecord)
        ensures
            record@ == (GelfRecordView { facility: facility@, ..self@ }),
    {
        let mut record = self;
        proof {
            use_type_invariant(&record);
        }
        record.facility = facility;
        record
    }

    fn set_line(self, line: u32) -> (record: GelfRecord)
        ensures
            record@ == (GelfRecordView { line: line, ..self@ }),
    {
        let mut record = self;
        proof {
            use_type_invariant(&record);
        }
        record.line = line;
        record
    }

    fn set_file(self, file: String) -> (record: GelfRecord)
        ensures
            record@ == (GelfRecordView { file: file@, ..self@ }),
    {
        let mut record = self;
        proof {
            use_type_invariant(&record);
        }
        record.file = file;
        record
    }

    fn set_full_message(self, full_message: Option<String>) -> (record: GelfRecord)
        ensures
            record@ == (GelfRecordView { full_message: text_view(full_message), ..self@ }),
    {
        let mut record = self;
        proof {
            use_type_invariant(&record);
        }
        record.full_message = full_message;
        record
    }
}

impl GelfRecordGetter for GelfRecord {
    fn message(&self) -> (message: String)
        ensures
            message@ == self@.short_message,
    {
        self.short_message.clone()
    }

    fn timestamp(&self) -> (timestamp: u64)
        ensures
            timestamp == self@.timestamp,
    {
        self.timestamp
    }

    fn level(&self) -> (level: GelfLevel)
        ensures
            level == self@.level,
    {
        GelfLevel::from(self.level)
    }

    fn additional_fields(&self) -> (fields: FlatMap)
        ensures
            fields@ == self@.additional_fields,
            fields.pairs() == self.additional_pairs(),
    {
        self.additional_fields.clone()
    }

    fn facility(&self) -> (facility: String)
        ensures
            facility@ == self@.facility,
    {
        self.facility.clone()
    }

    fn line(&self) -> (line: u32)
        ensures
            line == self@.line,
    {
        self.line
    }

    fn file(&self) -> (file: String)
        ensures
            file@ == self@.file,
    {
        self.file.clone()
    }

    fn version() -> (version: &'static str)
        ensures
            version@ == spec_version(),
    {
        "1.1"
    }

    fn full_message(&self) -> (full_message: Option<String>)
        ensures
            text_view(full_message) == self@.full_message,
    {
        self.full_message.clone()
    }
}

impl From<&LogEvent> for GelfRecord {
    /// The record of an event of a logging facade, on this host.
    fn from(event: &LogEvent) -> (record: GelfRecord)
        ensures
            record@ == event_record(record@.host, *event),
    {
        let file = match &event.file {
            Some(file) => file.clone(),
            None => String::new(),
        };
        let line = match event.line {
            Some(line) => line,
            None => 0,
        };
        GelfRecord::new(event.timestamp).set_facility(event.target.clone()).set_file(
            file,
        ).set_level(GelfLevel::from(event.level)).set_line(line).set_message(
            event.message.clone(),
        )
    }
}

impl FromSpecImpl<&LogEvent> for GelfRecord {
    open spec fn obeys_from_spec() -> bool {
        false
    }

    open spec fn from_spec(event: &LogEvent) -> GelfRecord {
        choose|record: GelfRecord| record@ == event_record(record@.host, *event)
    }
}

impl<R: GelfRecordGetter> From<&R> for GelfRecord {
    /// A record on this host with the attributes that `other` reports. The
    /// additional fields that it reports are flattened again.
    fn from(other: &R) -> (record: GelfRecord)
        ensures
            exists|
                file: String,
                facility: String,
                level: GelfLevel,
                line: u32,
                timestamp: u64,
                message: String,
                full_message: Option<String>,
                fields: FlatMap,
            |
                {
                    &&& call_ensures(R::file, (other,), file)
                    &&& call_ensures(R::facility, (other,), facility)
                    &&& call_ensures(R::level, (other,), level)
                    &&& call_ensures(R::line, (other,), line)
                    &&& call_ensures(R::timestamp, (other,), timestamp)
                    &&& call_ensures(R::message, (other,), message)
                    &&& call_ensures(R::full_message, (other,), full_message)
                    &&& call_ensures(R::additional_fields, (other,), fields)
                    &&& record@ == copied_record(
                        record@.host,
                        file@,
                        facility@,
                        level,
                        line,
                        timestamp,
                        message@,
                        text_view(full_message),
                        fields.pairs(),
                    )
                },
    {
        let file = other.file();
        let facility = other.facility();
        let level = other.level();
        let line = other.line();
        let timestamp = other.timestamp();
        let message = other.message();
        let full_message = other.full_message();
        let fields = other.additional_fields();
        GelfRecord::copy_of(
            file,
            facility,
            level,
            line,
            timestamp,
            message,
            full_message,
            &fields,
        )
    }
}

impl<R: GelfRecordGetter> FromSpecImpl<&R> for GelfRecord {
    open spec fn obeys_from_spec() -> bool {
        false
    }

    open spec fn from_spec(other: &R) -> GelfRecord {
        arbitrary()
    }
}

} // verus!
