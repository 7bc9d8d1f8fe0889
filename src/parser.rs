use vstd::prelude::*;

use crate::number::{float_text, is_float_text};
use crate::text::{chars_of, split_on, split_text, string_of, trim, trimmed};
use crate::time::{parse_rfc3339, rfc3339_instant, Instant};
use crate::wire::{fields_view, json_object, json_object_fields, Field, WireValue, KIND_NUMBER, KIND_TEXT};

verus! {

/// How records are framed on the wire.
#[derive(Debug, Clone, Copy, PartialEq, Eq, Structural)]
pub enum FrameFormat {
    Jsonl,
    Csv,
}

/// Why a line was rejected.
#[derive(Debug, Clone, Copy, PartialEq, Eq, Structural)]
pub enum ParseError {
    InvalidJson,
    InvalidTimestamp,
}

impl ParseError {
    /// The human-readable text recorded for this error.
    pub fn message(&self) -> (r: String)
        ensures
            *self == ParseError::InvalidJson ==> r@ == "invalid json"@,
            *self == ParseError::InvalidTimestamp ==> r@ == "invalid timestamp"@,
    {
        match self {
            ParseError::InvalidJson => String::from_str("invalid json"),
            ParseError::InvalidTimestamp => String::from_str("invalid timestamp"),
        }
    }
}

/// Settings of the delimited-text format.
#[derive(Debug, Clone)]
pub struct CsvConfig {
    pub has_header: bool,
    pub columns: Vec<String>,
    pub delimiter: String,
}

/// A field outside the reserved channels: a number (as its text) or a
/// non-empty trimmed text.
#[derive(Debug, Clone)]
pub struct Extra {
    pub key: String,
    pub number_value: Option<String>,
    pub text_value: Option<String>,
}

pub open spec fn opt_view(o: Option<String>) -> Option<Seq<char>> {
    match o {
        Some(s) => Some(s@),
        None => None,
    }
}

impl View for Extra {
    type V = (Seq<char>, Option<Seq<char>>, Option<Seq<char>>);

    open spec fn view(&self) -> (Seq<char>, Option<Seq<char>>, Option<Seq<char>>) {
        (self.key@, opt_view(self.number_value), opt_view(self.text_value))
    }
}

/// A canonical sample. Channel values are the wire's numeric text; the
/// calibration offsets are added where the text becomes a number.
#[derive(Debug, Clone)]
pub struct Sample {
    pub ts: Instant,
    pub bt_c: Option<String>,
    pub et_c: Option<String>,
    pub power_pct: Option<String>,
    pub fan_pct: Option<String>,
    pub drum_rpm: Option<String>,
    pub extras: Vec<Extra>,
}

pub struct SampleModel {
    pub ts: (int, int),
    pub bt_c: Option<Seq<char>>,
    pub et_c: Option<Seq<char>>,
    pub power_pct: Option<Seq<char>>,
    pub fan_pct: Option<Seq<char>>,
    pub drum_rpm: Option<Seq<char>>,
    pub extras: Seq<(Seq<char>, Option<Seq<char>>, Option<Seq<char>>)>,
}

pub open spec fn extras_view(e: Seq<Extra>) -> Seq<(Seq<char>, Option<Seq<char>>, Option<Seq<char>>)> {
    e.map_values(|x: Extra| x@)
}

impl View for Sample {
    type V = SampleModel;

    open spec fn view(&self) -> SampleModel {
        SampleModel {
            ts: self.ts@,
            bt_c: opt_view(self.bt_c),
            et_c: opt_view(self.et_c),
            power_pct: opt_view(self.power_pct),
            fan_pct: opt_view(self.fan_pct),
            drum_rpm: opt_view(self.drum_rpm),
            extras: extras_view(self.extras@),
        }
    }
}

/// The numeric text a wire value carries, if any: a JSON number, or a
/// non-empty string that reads as a float.
pub open spec fn number_of(kind: u8, text: Seq<char>) -> Option<Seq<char>> {
    if kind == KIND_NUMBER {
        Some(text)
    } else if kind == KIND_TEXT && text.len() > 0 && is_float_text(text) {
        Some(text)
    } else {
        None
    }
}

/// The channel `name` of a record: the number of its last field so named.
pub open spec fn channel_of(r: Seq<(Seq<char>, u8, Seq<char>)>, name: Seq<char>) -> Option<Seq<char>>
    decreases r.len(),
{
    if r.len() == 0 {
        None
    } else if r.last().0 == name {
        number_of(r.last().1, r.last().2)
    } else {
        channel_of(r.drop_last(), name)
    }
}

pub open spec fn is_reserved(key: Seq<char>) -> bool {
    key == "ts"@ || key == "btC"@ || key == "etC"@ || key == "powerPct"@ || key == "fanPct"@
        || key == "drumRpm"@
}

/// The extra entry a field contributes: none, or one.
pub open spec fn extra_of(f: (Seq<char>, u8, Seq<char>)) -> Seq<(Seq<char>, Option<Seq<char>>, Option<Seq<char>>)> {
    if is_reserved(f.0) {
        Seq::empty()
    } else if number_of(f.1, f.2) is Some {
        seq![(f.0, number_of(f.1, f.2), None)]
    } else if f.1 == KIND_TEXT && trimmed(f.2).len() > 0 {
        seq![(f.0, None, Some(trimmed(f.2)))]
    } else {
        Seq::empty()
    }
}

/// The extra entries of a record, in field order.
pub open spec fn extras_of(r: Seq<(Seq<char>, u8, Seq<char>)>) -> Seq<(Seq<char>, Option<Seq<char>>, Option<Seq<char>>)>
    decreases r.len(),
{
    if r.len() == 0 {
        Seq::empty()
    } else {
        extras_of(r.drop_last()) + extra_of(r.last())
    }
}

pub open spec fn is_ts_text(f: (Seq<char>, u8, Seq<char>)) -> bool {
    f.0 == "ts"@ && f.1 == KIND_TEXT
}

/// A `ts` field that is not a string holding a date-time.
pub open spec fn is_bad_ts(f: (Seq<char>, u8, Seq<char>)) -> bool {
    f.0 == "ts"@ && (f.1 != KIND_TEXT || rfc3339_instant(f.2) is None)
}

/// Some `ts` field of the record is not a string holding a date-time.
pub open spec fn has_bad_ts(r: Seq<(Seq<char>, u8, Seq<char>)>) -> bool {
    exists|i: int| 0 <= i < r.len() && is_bad_ts(#[trigger] r[i])
}

/// The instant of the record's last `ts` string, if it has one.
pub open spec fn wire_ts(r: Seq<(Seq<char>, u8, Seq<char>)>) -> Option<(int, int)>
    decreases r.len(),
{
    if r.len() == 0 {
        None
    } else if is_ts_text(r.last()) {
        rfc3339_instant(r.last().2)
    } else {
        wire_ts(r.drop_last())
    }
}

/// The sample a record describes, stamped `now` if it carries no time.
pub open spec fn sample_of(r: Seq<(Seq<char>, u8, Seq<char>)>, now: (int, int)) -> SampleModel {
    SampleModel {
        ts: match wire_ts(r) {
            Some(t) => t,
            None => now,
        },
        bt_c: channel_of(r, "btC"@),
        et_c: channel_of(r, "etC"@),
        power_pct: channel_of(r, "powerPct"@),
        fan_pct: channel_of(r, "fanPct"@),
        drum_rpm: channel_of(r, "drumRpm"@),
        extras: extras_of(r),
    }
}

/// A sample is kept only if some channel or extra is present.
pub open spec fn carries_data(m: SampleModel) -> bool {
    m.bt_c is Some || m.et_c is Some || m.power_pct is Some || m.fan_pct is Some || m.drum_rpm is Some
        || m.extras.len() > 0
}

/// What a record yields.
pub open spec fn record_outcome(r: Seq<(Seq<char>, u8, Seq<char>)>, now: (int, int)) -> Result<Option<SampleModel>, ParseError> {
    if has_bad_ts(r) {
        Err(ParseError::InvalidTimestamp)
    } else if carries_data(sample_of(r, now)) {
        Ok(Some(sample_of(r, now)))
    } else {
        Ok(None)
    }
}

pub open spec fn outcome_view(r: Result<Option<Sample>, ParseError>) -> Result<Option<SampleModel>, ParseError> {
    match r {
        Ok(Some(s)) => Ok(Some(s@)),
        Ok(None) => Ok(None),
        Err(e) => Err(e),
    }
}

pub open spec fn strings_view(v: Seq<String>) -> Seq<Seq<char>> {
    v.map_values(|s: String| s@)
}

/// The column names used when none are configured or announced.
pub open spec fn default_columns() -> Seq<Seq<char>> {
    seq!["ts"@, "btC"@, "etC"@, "powerPct"@, "fanPct"@, "drumRpm"@]
}

/// The pieces of a delimited line, each trimmed.
pub open spec fn csv_parts(line: Seq<char>, delimiter: Seq<char>) -> Seq<Seq<char>> {
    split_text(line, delimiter).map_values(|p: Seq<char>| trimmed(p))
}

/// Pieces paired with column names by position; pieces past the last column are dropped.
pub open spec fn csv_record(parts: Seq<Seq<char>>, columns: Seq<Seq<char>>) -> Seq<(Seq<char>, u8, Seq<char>)> {
    let n = if parts.len() < columns.len() {
        parts.len()
    } else {
        columns.len()
    };
    Seq::new(n, |i: int| (columns[i], KIND_TEXT, parts[i]))
}

fn key_eq(k: &String, lit: &str) -> (r: bool)
    ensures
        r == (k@ == lit@),
{
    let l = String::from_str(lit);
    *k == l
}

fn reserved(k: &String) -> (r: bool)
    ensures
        r == is_reserved(k@),
{
    key_eq(k, "ts") || key_eq(k, "btC") || key_eq(k, "etC") || key_eq(k, "powerPct") || key_eq(
        k,
        "fanPct",
    ) || key_eq(k, "drumRpm")
}

pub(crate) fn clone_opt(o: &Option<String>) -> (r: Option<String>)
    ensures
        r == *o,
{
    match o {
        Some(s) => Some(s.clone()),
        None => None,
    }
}

pub fn clone_strings(v: &Vec<String>) -> (r: Vec<String>)
    ensures
        r@ == v@,
{
    let mut r: Vec<String> = Vec::new();
    let mut i: usize = 0;
    while i < v.len()
        invariant
            i <= v@.len(),
            r@ == v@.take(i as int),
        decreases v@.len() - i,
    {
        r.push(v[i].clone());
        assert(r@ =~= v@.take(i as int + 1));
        i = i + 1;
    }
    assert(v@.take(v@.len() as int) =~= v@);
    r
}

/// The numeric text of a wire value, if it has one.
pub fn parse_number(value: &WireValue) -> (r: Option<String>)
    ensures
        opt_view(r) == number_of(value.kind(), value.text()),
{
    match value {
        WireValue::Number(n) => Some(n.clone()),
        WireValue::Text(s) => {
            if s.as_str().is_empty() {
                None
            } else {
                let cs = chars_of(s.as_str());
                if float_text(cs.as_slice()) {
                    Some(s.clone())
                } else {
                    None
                }
            }
        },
        WireValue::Other => None,
    }
}

/// Reads a date-time with offset.
pub fn parse_timestamp(value: &str) -> (r: Result<Instant, ParseError>)
    ensures
        match r {
            Ok(t) => rfc3339_instant(value@) == Some(t@),
            Err(e) => e == ParseError::InvalidTimestamp && rfc3339_instant(value@) is None,
        },
{
    match parse_rfc3339(value) {
        Some(t) => Ok(t),
        None => Err(ParseError::InvalidTimestamp),
    }
}

/// Turns the fields of one record into a sample, stamped `now` when the
/// record carries no `ts`.
pub fn to_sample(record: Vec<Field>, now: Instant) -> (r: Result<Option<Sample>, ParseError>)
    ensures
        outcome_view(r) == record_outcome(fields_view(record@), now@),
{
    let ghost rv = fields_view(record@);
    let n = record.len();
    let mut ts_value: Option<Instant> = None;
    let mut i: usize = 0;
    while i < n
        invariant
            n == record@.len(),
            rv == fields_view(record@),
            i <= n,
            forall|j: int|
                0 <= j < i ==> !is_bad_ts(#[trigger] rv[j]),
            match ts_value {
                Some(t) => wire_ts(rv.take(i as int)) == Some(t@),
                None => wire_ts(rv.take(i as int)) is None,
            },
        decreases n - i,
    {
        let f = &record[i];
        assert(rv.take(i as int + 1).drop_last() =~= rv.take(i as int));
        assert(rv[i as int] == f@);
        if key_eq(&f.key, "ts") {
            match &f.value {
                WireValue::Text(text) => {
                    match parse_timestamp(text.as_str()) {
                        Ok(t) => {
                            ts_value = Some(t);
                        },
                        Err(e) => {
                            assert(is_bad_ts(rv[i as int]));
                            return Err(e);
                        },
                    }
                },
                _ => {
                    assert(is_bad_ts(rv[i as int]));
                    return Err(ParseError::InvalidTimestamp);
                },
            }
        }
        i = i + 1;
    }
    assert(rv.take(n as int) =~= rv);
    assert(!has_bad_ts(rv));
    let ts = match ts_value {
        Some(t) => t,
        None => now,
    };
    let mut bt_c: Option<String> = None;
    let mut et_c: Option<String> = None;
    let mut power_pct: Option<String> = None;
    let mut fan_pct: Option<String> = None;
    let mut drum_rpm: Option<String> = None;
    let mut extras: Vec<Extra> = Vec::new();
    i = 0;
    while i < n
        invariant
            n == record@.len(),
            rv == fields_view(record@),
            i <= n,
            opt_view(bt_c) == channel_of(rv.take(i as int), "btC"@),
            opt_view(et_c) == channel_of(rv.take(i as int), "etC"@),
            opt_view(power_pct) == channel_of(rv.take(i as int), "powerPct"@),
            opt_view(fan_pct) == channel_of(rv.take(i as int), "fanPct"@),
            opt_view(drum_rpm) == channel_of(rv.take(i as int), "drumRpm"@),
            extras_view(extras@) == extras_of(rv.take(i as int)),
        decreases n - i,
    {
        let f = &record[i];
        let ghost pre = rv.take(i as int);
        let ghost ex0 = extras@;
        assert(rv.take(i as int + 1).drop_last() =~= pre);
        assert(rv.take(i as int + 1).last() == f@);
        let num = parse_number(&f.value);
        if key_eq(&f.key, "btC") {
            bt_c = clone_opt(&num);
        }
        if key_eq(&f.key, "etC") {
            et_c = clone_opt(&num);
        }
        if key_eq(&f.key, "powerPct") {
            power_pct = clone_opt(&num);
        }
        if key_eq(&f.key, "fanPct") {
            fan_pct = clone_opt(&num);
        }
        if key_eq(&f.key, "drumRpm") {
            drum_rpm = clone_opt(&num);
        }
        if !reserved(&f.key) {
            match num {
                Some(t) => {
                    let e = Extra { key: f.key.clone(), number_value: Some(t), text_value: None };
                    extras.push(e);
                    assert(extras_view(extras@) =~= extras_view(ex0) + extra_of(f@));
                },
                None => {
                    match &f.value {
                        WireValue::Text(text) => {
                            let cs = chars_of(text.as_str());
                            let tv = trim(&cs);
                            if tv.len() > 0 {
                                let e = Extra {
                                    key: f.key.clone(),
                                    number_value: None,
                                    text_value: Some(string_of(tv.as_slice())),
                                };
                                extras.push(e);
                                assert(extras_view(extras@) =~= extras_view(ex0) + extra_of(f@));
                            } else {
                                assert(extra_of(f@) =~= Seq::empty());
                                assert(extras_view(extras@) =~= extras_view(ex0) + extra_of(f@));
                            }
                        },
                        _ => {
                            assert(extra_of(f@) =~= Seq::empty());
                            assert(extras_view(extras@) =~= extras_view(ex0) + extra_of(f@));
                        },
                    }
                },
            }
        } else {
            assert(extra_of(f@) =~= Seq::empty());
            assert(extras_view(extras@) =~= extras_view(ex0) + extra_of(f@));
        }
        i = i + 1;
    }
    assert(rv.take(n as int) =~= rv);
    let has_channels = bt_c.is_some() || et_c.is_some() || power_pct.is_some() || fan_pct.is_some()
        || drum_rpm.is_some();
    if !has_channels && extras.len() == 0 {
        return Ok(None);
    }
    let sample = Sample { ts, bt_c, et_c, power_pct, fan_pct, drum_rpm, extras };
    assert(sample@ == sample_of(rv, now@));
    Ok(Some(sample))
}

/// Turns raw lines into samples; remembers the column header of the
/// current connection.
pub struct TcpLineParser {
    pub format: FrameFormat,
    pub csv: CsvConfig,
    pub csv_header_parsed: bool,
    pub csv_columns: Vec<String>,
}

/// The column names in force: those announced or configured, else the defaults.
pub open spec fn active_columns(columns: Seq<String>) -> Seq<Seq<char>> {
    if columns.len() > 0 {
        strings_view(columns)
    } else {
        default_columns()
    }
}

/// One line through the parser: `before` and `after` are its states, `out`
/// what the line yields.
pub open spec fn line_step(
    before: TcpLineParser,
    after: TcpLineParser,
    line: Seq<char>,
    now: (int, int),
    out: Result<Option<SampleModel>, ParseError>,
) -> bool {
    let t = trimmed(line);
    &&& after.format == before.format
    &&& after.csv == before.csv
    &&& t.len() == 0 ==> out == Ok::<Option<SampleModel>, ParseError>(None) && after.unchanged(&before)
    &&& t.len() > 0 && before.format == FrameFormat::Jsonl ==> {
        &&& after.unchanged(&before)
        &&& match json_object_fields(t) {
            None => out == Err::<Option<SampleModel>, ParseError>(ParseError::InvalidJson),
            Some(rec) => out == record_outcome(rec, now),
        }
    }
    &&& t.len() > 0 && before.format == FrameFormat::Csv ==> {
        let parts = csv_parts(t, before.csv.delimiter@);
        if before.csv.has_header && !before.csv_header_parsed {
            &&& out == Ok::<Option<SampleModel>, ParseError>(None)
            &&& after.csv_header_parsed
            &&& strings_view(after.csv_columns@) == parts
        } else {
            &&& after.unchanged(&before)
            &&& out == record_outcome(csv_record(parts, active_columns(before.csv_columns@)), now)
        }
    }
}

impl TcpLineParser {
    /// Same settings and the same header state.
    pub open spec fn unchanged(&self, other: &TcpLineParser) -> bool {
        &&& self.format == other.format
        &&& self.csv == other.csv
        &&& self.csv_header_parsed == other.csv_header_parsed
        &&& self.csv_columns@ == other.csv_columns@
    }

    pub fn new(format: FrameFormat, csv: CsvConfig) -> (r: Self)
        ensures
            r.format == format,
            r.csv == csv,
            !r.csv_header_parsed,
            r.csv_columns@ == csv.columns@,
    {
        let csv_columns = clone_strings(&csv.columns);
        TcpLineParser { format, csv, csv_header_parsed: false, csv_columns }
    }

    /// Forgets any header seen and restores the configured columns.
    pub fn reset(&mut self)
        ensures
            final(self).format == old(self).format,
            final(self).csv == old(self).csv,
            !final(self).csv_header_parsed,
            final(self).csv_columns@ == old(self).csv.columns@,
    {
        self.csv_header_parsed = false;
        self.csv_columns = clone_strings(&self.csv.columns);
    }

    /// Parses one line, trimmed; `now` stamps a record without `ts`.
    pub fn parse_line(&mut self, line: &str, now: Instant) -> (r: Result<Option<Sample>, ParseError>)
        ensures
            line_step(*old(self), *final(self), line@, now@, outcome_view(r)),
    {
        let cs = chars_of(line);
        let tv = trim(&cs);
        if tv.len() == 0 {
            return Ok(None);
        }
        let text = string_of(tv.as_slice());
        match self.format {
            FrameFormat::Jsonl => self.parse_json_line(text.as_str(), now),
            FrameFormat::Csv => self.parse_csv_line(text.as_str(), now),
        }
    }

    /// Parses a line that should hold one JSON object.
    pub fn parse_json_line(&self, line: &str, now: Instant) -> (r: Result<Option<Sample>, ParseError>)
        ensures
            match json_object_fields(line@) {
                None => r == Err::<Option<Sample>, ParseError>(ParseError::InvalidJson),
                Some(rec) => outcome_view(r) == record_outcome(rec, now@),
            },
    {
        match json_object(line) {
            None => Err(ParseError::InvalidJson),
            Some(record) => to_sample(record, now),
        }
    }

    /// Parses one delimited line: the header if one is still expected, else a record.
    pub fn parse_csv_line(&mut self, line: &str, now: Instant) -> (r: Result<Option<Sample>, ParseError>)
        ensures
            final(self).format == old(self).format,
            final(self).csv == old(self).csv,
            ({
                let parts = csv_parts(line@, old(self).csv.delimiter@);
                if old(self).csv.has_header && !old(self).csv_header_parsed {
                    &&& r == Ok::<Option<Sample>, ParseError>(None)
                    &&& final(self).csv_header_parsed
                    &&& strings_view(final(self).csv_columns@) == parts
                } else {
                    &&& final(self).unchanged(old(self))
                    &&& outcome_view(r) == record_outcome(
                        csv_record(parts, active_columns(old(self).csv_columns@)),
                        now@,
                    )
                }
            }),
    {
        let raw = split_on(line, self.csv.delimiter.as_str());
        let ghost pieces = split_text(line@, self.csv.delimiter@);
        let mut parts: Vec<String> = Vec::new();
        let mut i: usize = 0;
        while i < raw.len()
            invariant
                i <= raw@.len(),
                raw@.map_values(|p: String| p@) == pieces,
                parts@.len() == i,
                forall|j: int| 0 <= j < i ==> (#[trigger] parts@[j])@ == trimmed(pieces[j]),
            decreases raw@.len() - i,
        {
            assert(pieces[i as int] == raw@[i as int]@);
            let cs = chars_of(raw[i].as_str());
            let tv = trim(&cs);
            parts.push(string_of(tv.as_slice()));
            i = i + 1;
        }
        let ghost pv = csv_parts(line@, self.csv.delimiter@);
        assert(strings_view(parts@) =~= pv);
        if self.csv.has_header && !self.csv_header_parsed {
            self.csv_columns = parts;
            self.csv_header_parsed = true;
            return Ok(None);
        }
        let columns = if self.csv_columns.len() > 0 {
            clone_strings(&self.csv_columns)
        } else {
            default_column_names()
        };
        let ghost cv = active_columns(self.csv_columns@);
        assert(strings_view(columns@) =~= cv);
        let m = if parts.len() < columns.len() {
            parts.len()
        } else {
            columns.len()
        };
        let mut record: Vec<Field> = Vec::new();
        let mut k: usize = 0;
        while k < m
            invariant
                m <= parts@.len(),
                m <= columns@.len(),
                k <= m,
                strings_view(parts@) == pv,
                strings_view(columns@) == cv,
                record@.len() == k,
                forall|j: int| 0 <= j < k ==> (#[trigger] record@[j])@ == (cv[j], KIND_TEXT, pv[j]),
            decreases m - k,
        {
            assert(cv[k as int] == columns@[k as int]@);
            assert(pv[k as int] == parts@[k as int]@);
            record.push(Field { key: columns[k].clone(), value: WireValue::Text(parts[k].clone()) });
            k = k + 1;
        }
        assert(fields_view(record@) =~= csv_record(pv, cv));
        to_sample(record, now)
    }
}

fn default_column_names() -> (r: Vec<String>)
    ensures
        strings_view(r@) == default_columns(),
{
    let r = vec![
        String::from_str("ts"),
        String::from_str("btC"),
        String::from_str("etC"),
        String::from_str("powerPct"),
        String::from_str("fanPct"),
        String::from_str("drumRpm"),
    ];
    assert(strings_view(r@) =~= default_columns());
    r
}

/// A channel that no field of the record names is absent from its sample.
pub proof fn lemma_absent_channel(r: Seq<(Seq<char>, u8, Seq<char>)>, name: Seq<char>)
    requires
        forall|i: int| 0 <= i < r.len() ==> (#[trigger] r[i]).0 != name,
    ensures
        channel_of(r, name) is None,
    decreases r.len(),
{
    if r.len() > 0 {
        assert(r.last() == r[r.len() - 1]);
        let p = r.drop_last();
        assert forall|i: int| 0 <= i < p.len() implies (#[trigger] p[i]).0 != name by {
            assert(p[i] == r[i]);
        }
        lemma_absent_channel(p, name);
    }
}

/// A channel takes the number of the record's last field so named, unchanged:
/// the wire's own text.
pub proof fn lemma_channel_from_last_field(r: Seq<(Seq<char>, u8, Seq<char>)>, name: Seq<char>, k: int)
    requires
        0 <= k < r.len(),
        r[k].0 == name,
        forall|i: int| k < i < r.len() ==> (#[trigger] r[i]).0 != name,
    ensures
        channel_of(r, name) == number_of(r[k].1, r[k].2),
    decreases r.len(),
{
    if k < r.len() - 1 {
        let p = r.drop_last();
        assert(r.last() == r[r.len() - 1]);
        assert(p[k] == r[k]);
        assert forall|i: int| k < i < p.len() implies (#[trigger] p[i]).0 != name by {
            assert(p[i] == r[i]);
        }
        lemma_channel_from_last_field(p, name, k);
    }
}

} // verus!
