//! Limit source boundary and the v1 text limit-table format.
use vstd::prelude::*;

use crate::pretrade::gate::{LimitTable, LimitTableView};
use crate::text::{
    chars_of, decimal_digits, parse_i64_range, push_decimal, parse_i64_spec, parse_u32_range, parse_u32_spec, range_pieces,
    split_on, split_ranges, string_of_range, trim, trim_range,
};
use crate::types::{InstrumentId, Notional, Qty};

verus! {

/// Source of limit table updates.
pub trait LimitSource {
    /// Polls for a new limit table.
    fn poll_updates(&self) -> Option<LimitTable>;
}

/// Static v1 limit source.
#[derive(Debug, Clone)]
pub struct StaticLimitSource {
    limits: LimitTable,
}

impl View for StaticLimitSource {
    type V = crate::pretrade::gate::LimitTableView;

    closed spec fn view(&self) -> crate::pretrade::gate::LimitTableView {
        self.limits@
    }
}

impl StaticLimitSource {
    /// Creates a static limit source.
    pub fn new(limits: LimitTable) -> (s: Self)
        ensures
            s@ == limits@,
    {
        StaticLimitSource { limits }
    }
}

impl LimitSource for StaticLimitSource {
    /// Always offers a copy of the configured table.
    fn poll_updates(&self) -> (r: Option<LimitTable>)
        ensures
            r is Some && r->0@ == self@,
    {
        Some(self.limits.clone())
    }
}

/// One record of the text limit-table format.
#[derive(Debug, Clone, Copy, PartialEq, Eq, Structural)]
pub enum LimitRecord {
    /// `aggregate_notional,<limit>`
    AggregateNotional(i64),
    /// `per_order_notional,<instrument id>,<limit>`
    PerOrderNotional(u32, i64),
    /// `max_abs_position,<instrument id>,<limit>`
    MaxAbsPosition(u32, i64),
    /// `fat_finger_band_bps,<instrument id>,<band>`
    FatFingerBandBps(u32, u32),
}

/// Why a line of the text format was refused.
pub enum LimitLineError {
    /// Unknown record name, or the wrong number of fields for the name.
    InvalidRecord(Seq<char>),
    /// A field that should hold an integer does not.
    InvalidInteger(Seq<char>),
}

/// Reads the trimmed comma-separated fields of a record line.
pub open spec fn record_of_fields(fields: Seq<Seq<char>>) -> Result<LimitRecord, LimitLineError> {
    let name = fields[0];
    if name == "aggregate_notional"@ && fields.len() == 2 {
        match parse_i64_spec(fields[1]) {
            Some(limit) => Ok(LimitRecord::AggregateNotional(limit)),
            None => Err(LimitLineError::InvalidInteger(fields[1])),
        }
    } else if name == "per_order_notional"@ && fields.len() == 3 {
        match parse_u32_spec(fields[1]) {
            None => Err(LimitLineError::InvalidInteger(fields[1])),
            Some(id) => match parse_i64_spec(fields[2]) {
                None => Err(LimitLineError::InvalidInteger(fields[2])),
                Some(limit) => Ok(LimitRecord::PerOrderNotional(id, limit)),
            },
        }
    } else if name == "max_abs_position"@ && fields.len() == 3 {
        match parse_u32_spec(fields[1]) {
            None => Err(LimitLineError::InvalidInteger(fields[1])),
            Some(id) => match parse_i64_spec(fields[2]) {
                None => Err(LimitLineError::InvalidInteger(fields[2])),
                Some(limit) => Ok(LimitRecord::MaxAbsPosition(id, limit)),
            },
        }
    } else if name == "fat_finger_band_bps"@ && fields.len() == 3 {
        match parse_u32_spec(fields[1]) {
            None => Err(LimitLineError::InvalidInteger(fields[1])),
            Some(id) => match parse_u32_spec(fields[2]) {
                None => Err(LimitLineError::InvalidInteger(fields[2])),
                Some(band) => Ok(LimitRecord::FatFingerBandBps(id, band)),
            },
        }
    } else {
        Err(LimitLineError::InvalidRecord(name))
    }
}

/// What one line contributes: nothing for blank and `#` comment lines,
/// otherwise the record its trimmed comma-separated fields spell, or why
/// they spell none.
pub open spec fn line_outcome(line: Seq<char>) -> Option<Result<LimitRecord, LimitLineError>> {
    let t = trim(line);
    if t.len() == 0 || t[0] == '#' {
        None
    } else {
        Some(record_of_fields(split_on(t, ',').map_values(|f: Seq<char>| trim(f))))
    }
}

/// The table after one record: a later record for the same limit replaces
/// an earlier one.
pub open spec fn apply_record(t: LimitTableView, record: LimitRecord) -> LimitTableView {
    match record {
        LimitRecord::AggregateNotional(limit) => LimitTableView {
            aggregate_notional: Some(Notional(limit)),
            ..t
        },
        LimitRecord::PerOrderNotional(id, limit) => LimitTableView {
            per_order_notional: t.per_order_notional.insert(id, Notional(limit)),
            ..t
        },
        LimitRecord::MaxAbsPosition(id, limit) => LimitTableView {
            max_abs_position: t.max_abs_position.insert(id, Qty(limit)),
            ..t
        },
        LimitRecord::FatFingerBandBps(id, band) => LimitTableView {
            fat_finger_band_bps: t.fat_finger_band_bps.insert(id, band),
            ..t
        },
    }
}

/// The table that `lines` describe, starting from an empty table, or the
/// one-based number of the first refused line with the reason.
pub open spec fn parse_lines(lines: Seq<Seq<char>>) -> Result<LimitTableView, (int, LimitLineError)>
    decreases lines.len(),
{
    if lines.len() == 0 {
        Ok(LimitTableView::empty())
    } else {
        match parse_lines(lines.drop_last()) {
            Err(e) => Err(e),
            Ok(t) => match line_outcome(lines.last()) {
                None => Ok(t),
                Some(Ok(record)) => Ok(apply_record(t, record)),
                Some(Err(e)) => Err((lines.len() as int, e)),
            },
        }
    }
}

/// The result of parsing a text limit table: its lines are the pieces
/// between newlines (a carriage return before a newline is whitespace, and
/// every line is trimmed before it is read).
pub open spec fn parse_limit_table_spec(text: Seq<char>) -> Result<LimitTableView, (int, LimitLineError)> {
    parse_lines(split_on(text, '\n'))
}

/// A refused line ends the parse: later lines do not change the outcome.
pub proof fn lemma_parse_error_persists(lines: Seq<Seq<char>>, m: int)
    requires
        0 <= m <= lines.len(),
        parse_lines(lines.take(m)) is Err,
    ensures
        parse_lines(lines) == parse_lines(lines.take(m)),
    decreases lines.len(),
{
    if m == lines.len() {
        assert(lines.take(m) =~= lines);
    } else {
        assert(lines.drop_last().take(m) =~= lines.take(m));
        lemma_parse_error_persists(lines.drop_last(), m);
    }
}

/// Whether `s` spells `word`.
fn spells(s: &String, word: &str) -> (b: bool)
    ensures
        b == (s@ == word@),
{
    let w = word.to_owned();
    *s == w
}

/// Reads one line, `chars[start..end]`.
fn read_line(chars: &Vec<char>, start: usize, end: usize) -> (r: Option<
    Result<LimitRecord, ParseLimitTableErrorKind>,
>)
    requires
        start <= end <= chars@.len(),
    ensures
        match (r, line_outcome(chars@.subrange(start as int, end as int))) {
            (None, None) => true,
            (Some(Ok(a)), Some(Ok(b))) => a == b,
            (Some(Err(a)), Some(Err(b))) => a@ == b,
            _ => false,
        },
{
    let ghost line = chars@.subrange(start as int, end as int);
    let (ta, tb) = trim_range(chars, start, end);
    let ghost t = chars@.subrange(ta as int, tb as int);
    if ta == tb || chars[ta] == '#' {
        return None;
    }
    let pieces = split_ranges(chars, ta, tb, ',');
    let ghost fields = split_on(t, ',').map_values(|f: Seq<char>| trim(f));
    proof {
        crate::text::lemma_split_nonempty(t, ',');
        assert(pieces@.len() == fields.len());
    }
    let n = pieces.len();
    let (a0, b0) = trim_range(chars, pieces[0].0, pieces[0].1);
    assert(chars@.subrange(a0 as int, b0 as int) == fields[0]);
    let name = string_of_range(chars, a0, b0);
    let (a1, b1) = if n >= 2 {
        trim_range(chars, pieces[1].0, pieces[1].1)
    } else {
        (0, 0)
    };
    let (a2, b2) = if n >= 3 {
        trim_range(chars, pieces[2].0, pieces[2].1)
    } else {
        (0, 0)
    };
    proof {
        if n >= 2 {
            assert(chars@.subrange(a1 as int, b1 as int) == fields[1]);
        }
        if n >= 3 {
            assert(chars@.subrange(a2 as int, b2 as int) == fields[2]);
        }
    }
    if spells(&name, "aggregate_notional") && n == 2 {
        return Some(
            match parse_i64_range(chars, a1, b1) {
                Some(limit) => Ok(LimitRecord::AggregateNotional(limit)),
                None => Err(ParseLimitTableErrorKind::InvalidInteger(string_of_range(chars, a1, b1))),
            },
        );
    }
    if spells(&name, "per_order_notional") && n == 3 {
        let id = match parse_u32_range(chars, a1, b1) {
            Some(id) => id,
            None => return Some(
                Err(ParseLimitTableErrorKind::InvalidInteger(string_of_range(chars, a1, b1))),
            ),
        };
        return Some(
            match parse_i64_range(chars, a2, b2) {
                Some(limit) => Ok(LimitRecord::PerOrderNotional(id, limit)),
                None => Err(ParseLimitTableErrorKind::InvalidInteger(string_of_range(chars, a2, b2))),
            },
        );
    }
    if spells(&name, "max_abs_position") && n == 3 {
        let id = match parse_u32_range(chars, a1, b1) {
            Some(id) => id,
            None => return Some(
                Err(ParseLimitTableErrorKind::InvalidInteger(string_of_range(chars, a1, b1))),
            ),
        };
        return Some(
            match parse_i64_range(chars, a2, b2) {
                Some(limit) => Ok(LimitRecord::MaxAbsPosition(id, limit)),
                None => Err(ParseLimitTableErrorKind::InvalidInteger(string_of_range(chars, a2, b2))),
            },
        );
    }
    if spells(&name, "fat_finger_band_bps") && n == 3 {
        let id = match parse_u32_range(chars, a1, b1) {
            Some(id) => id,
            None => return Some(
                Err(ParseLimitTableErrorKind::InvalidInteger(string_of_range(chars, a1, b1))),
            ),
        };
        return Some(
            match parse_u32_range(chars, a2, b2) {
                Some(band) => Ok(LimitRecord::FatFingerBandBps(id, band)),
                None => Err(ParseLimitTableErrorKind::InvalidInteger(string_of_range(chars, a2, b2))),
            },
        );
    }
    Some(Err(ParseLimitTableErrorKind::InvalidRecord(name)))
}

/// Applies one record to a table.
fn apply(limits: &mut LimitTable, record: LimitRecord)
    ensures
        final(limits)@ == apply_record(old(limits)@, record),
{
    match record {
        LimitRecord::AggregateNotional(limit) => limits.set_aggregate_notional(Notional::new(limit)),
        LimitRecord::PerOrderNotional(id, limit) => limits.set_per_order_notional(
            InstrumentId(id),
            Notional::new(limit),
        ),
        LimitRecord::MaxAbsPosition(id, limit) => limits.set_max_abs_position(
            InstrumentId(id),
            Qty::new(limit),
        ),
        LimitRecord::FatFingerBandBps(id, band) => limits.set_fat_finger_band_bps(InstrumentId(id), band),
    }
}

/// Parses a v1 text limit table.
///
/// Supported records:
///
/// ```text
/// aggregate_notional,1000000
/// per_order_notional,1,10000
/// max_abs_position,1,500
/// fat_finger_band_bps,1,250
/// ```
///
/// Empty lines and `#` comments are ignored.
pub fn parse_limit_table(contents: &str) -> (r: Result<LimitTable, ParseLimitTableError>)
    ensures
        match (r, parse_limit_table_spec(contents@)) {
            (Ok(t), Ok(v)) => t@ == v,
            (Err(e), Err((line, kind))) => e.line as int == line && e.kind@ == kind,
            _ => false,
        },
{
    let chars = chars_of(contents);
    let lines = split_ranges(&chars, 0, chars.len(), '\n');
    let ghost pieces = range_pieces(chars@, lines@);
    assert(chars@.subrange(0, chars@.len() as int) =~= contents@);
    let mut limits = LimitTable::new();
    let mut k: usize = 0;
    assert(pieces.take(0).len() == 0);
    while k < lines.len()
        invariant
            k <= lines@.len(),
            pieces == range_pieces(chars@, lines@),
            pieces == split_on(contents@, '\n'),
            forall|j: int|
                0 <= j < lines@.len() ==> 0 <= #[trigger] lines@[j].0 <= lines@[j].1 <= chars@.len(),
            parse_lines(pieces.take(k as int)) == Ok::<LimitTableView, (int, LimitLineError)>(limits@),
        decreases lines@.len() - k,
    {
        let (a, b) = lines[k];
        assert(pieces.take(k + 1).drop_last() =~= pieces.take(k as int));
        assert(pieces.take(k + 1).last() == chars@.subrange(a as int, b as int));
        match read_line(&chars, a, b) {
            None => {},
            Some(Ok(record)) => apply(&mut limits, record),
            Some(Err(kind)) => {
                proof {
                    lemma_parse_error_persists(pieces, k + 1);
                }
                return Err(ParseLimitTableError::new(k + 1, kind));
            },
        }
        k = k + 1;
    }
    assert(pieces.take(lines@.len() as int) =~= pieces);
    Ok(limits)
}

/// Error returned when parsing a text limit table fails.
#[derive(Debug, Clone, PartialEq, Eq)]
pub struct ParseLimitTableError {
    /// One-based line number.
    pub line: usize,
    /// What was wrong with the line.
    pub kind: ParseLimitTableErrorKind,
}

impl ParseLimitTableError {
    /// Creates a parse error.
    pub fn new(line: usize, kind: ParseLimitTableErrorKind) -> (e: Self)
        ensures
            e.line == line,
            e.kind == kind,
    {
        ParseLimitTableError { line, kind }
    }

    /// Returns the one-based line number.
    pub fn line(&self) -> (n: usize)
        ensures
            n == self.line,
    {
        self.line
    }

    /// The message describing the error, e.g.
    /// ``failed to parse limit table on line 1: invalid record `unknown` ``.
    pub fn message(&self) -> (m: String)
        ensures
            m@ == "failed to parse limit table on line "@ + decimal_digits(self.line as nat) + ": "@
                + self.kind.message_spec(),
    {
        let mut m = String::new();
        m.append("failed to parse limit table on line ");
        push_decimal(&mut m, self.line as u64);
        m.append(": ");
        let kind = self.kind.message();
        m.append(kind.as_str());
        m
    }

    /// Returns the parse error kind.
    pub fn kind(&self) -> (k: &ParseLimitTableErrorKind)
        ensures
            *k == self.kind,
    {
        &self.kind
    }
}

/// Detailed limit table parse error kind.
#[derive(Debug, Clone, PartialEq, Eq)]
pub enum ParseLimitTableErrorKind {
    /// Unknown or malformed record.
    InvalidRecord(String),
    /// Invalid integer field.
    InvalidInteger(String),
}

impl ParseLimitTableErrorKind {
    /// The message describing the error kind.
    pub open spec fn message_spec(&self) -> Seq<char> {
        match self {
            ParseLimitTableErrorKind::InvalidRecord(record) => "invalid record `"@ + record@ + "`"@,
            ParseLimitTableErrorKind::InvalidInteger(value) => "invalid integer `"@ + value@ + "`"@,
        }
    }

    /// The message describing the error kind, e.g. ``invalid integer `x` ``.
    pub fn message(&self) -> (m: String)
        ensures
            m@ == self.message_spec(),
    {
        let mut m = String::new();
        match self {
            ParseLimitTableErrorKind::InvalidRecord(record) => {
                m.append("invalid record `");
                m.append(record.as_str());
            },
            ParseLimitTableErrorKind::InvalidInteger(value) => {
                m.append("invalid integer `");
                m.append(value.as_str());
            },
        }
        m.append("`");
        m
    }
}

impl View for ParseLimitTableErrorKind {
    type V = LimitLineError;

    open spec fn view(&self) -> LimitLineError {
        match self {
            ParseLimitTableErrorKind::InvalidRecord(s) => LimitLineError::InvalidRecord(s@),
            ParseLimitTableErrorKind::InvalidInteger(s) => LimitLineError::InvalidInteger(s@),
        }
    }
}

} // verus!
