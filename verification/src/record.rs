use vstd::prelude::*;
use vstd::string::StringExecFns;

use crate::activity::{ActivityModel, Kind, KindModel, Pomodoro, Status};
use crate::log::{free_of, is_single_line};

verus! {

/// Failure kinds of the log. `IOError` covers open and write failures at
/// the filesystem boundary; `SerializationError` covers a record that
/// cannot be encoded.
#[derive(Debug, Clone, Copy, PartialEq, Eq, Structural)]
pub enum LogError {
    IOError,
    SerializationError,
}

/// The decimal digit character for a value below ten.
pub open spec fn digit_char(d: int) -> char
    recommends
        0 <= d < 10,
{
    if d == 0 {
        '0'
    } else if d == 1 {
        '1'
    } else if d == 2 {
        '2'
    } else if d == 3 {
        '3'
    } else if d == 4 {
        '4'
    } else if d == 5 {
        '5'
    } else if d == 6 {
        '6'
    } else if d == 7 {
        '7'
    } else if d == 8 {
        '8'
    } else {
        '9'
    }
}

/// The decimal digit string of a non-negative integer, without padding or
/// sign: most significant digit first, and a single `'0'` for zero.
pub open spec fn dec_digits(n: int) -> Seq<char>
    recommends
        0 <= n,
    decreases n,
{
    if n < 10 {
        seq![digit_char(n)]
    } else {
        dec_digits(n / 10).push(digit_char(n % 10))
    }
}

fn push_digit(d: u64, out: &mut String)
    requires
        d < 10,
    ensures
        final(out)@ == old(out)@ + seq![digit_char(d as int)],
{
    let lit: &str = if d == 0 {
        "0"
    } else if d == 1 {
        "1"
    } else if d == 2 {
        "2"
    } else if d == 3 {
        "3"
    } else if d == 4 {
        "4"
    } else if d == 5 {
        "5"
    } else if d == 6 {
        "6"
    } else if d == 7 {
        "7"
    } else if d == 8 {
        "8"
    } else {
        "9"
    };
    proof {
        reveal_strlit("0");
        reveal_strlit("1");
        reveal_strlit("2");
        reveal_strlit("3");
        reveal_strlit("4");
        reveal_strlit("5");
        reveal_strlit("6");
        reveal_strlit("7");
        reveal_strlit("8");
        reveal_strlit("9");
        assert(lit@ =~= seq![digit_char(d as int)]);
    }
    out.append(lit);
}

fn push_dec(n: u64, out: &mut String)
    ensures
        final(out)@ == old(out)@ + dec_digits(n as int),
    decreases n,
{
    if n >= 10 {
        push_dec(n / 10, out);
        push_digit(n % 10, out);
        proof {
            assert(final(out)@ =~= old(out)@ + dec_digits(n as int));
        }
    } else {
        push_digit(n, out);
        proof {
            assert(final(out)@ =~= old(out)@ + dec_digits(n as int));
        }
    }
}

/// Format a duration in whole seconds as its decimal digit string.
pub fn u64_to_dec(n: u64) -> (s: String)
    ensures
        s@ == dec_digits(n as int),
{
    let mut s = String::new();
    push_dec(n, &mut s);
    proof {
        assert(s@ =~= dec_digits(n as int));
    }
    s
}

/// The tag a status is recorded under.
pub open spec fn status_label(s: Status) -> Seq<char> {
    match s {
        Status::Completed => "Completed"@,
        Status::Aborted => "Aborted"@,
        Status::Running => "Running"@,
    }
}

/// The status tag as an owned string.
pub fn status_label_str(s: Status) -> (r: String)
    ensures
        r@ == status_label(s),
{
    match s {
        Status::Completed => "Completed".to_owned(),
        Status::Aborted => "Aborted".to_owned(),
        Status::Running => "Running".to_owned(),
    }
}

/// A character that is special to the record layer under a tab delimiter:
/// a field holding one must be quoted to keep the flat record stream intact.
pub open spec fn is_csv_special(c: char) -> bool {
    c == '\t' || c == '"' || c == '\n' || c == '\r'
}

/// Whether a raw field must be quoted before it is written.
pub open spec fn field_needs_quotes(f: Seq<char>) -> bool {
    exists|i: int| 0 <= i < f.len() && is_csv_special(f[i])
}

/// A field's characters with every double quote doubled, the escape used
/// inside a quoted field.
pub open spec fn double_quotes(f: Seq<char>) -> Seq<char>
    decreases f.len(),
{
    if f.len() == 0 {
        Seq::empty()
    } else if f[0] == '"' {
        seq!['"', '"'] + double_quotes(f.drop_first())
    } else {
        seq![f[0]] + double_quotes(f.drop_first())
    }
}

/// The written form of one field: quoted, with inner quotes doubled, exactly
/// when the raw field holds a special character; verbatim otherwise.
pub open spec fn encode_field(f: Seq<char>) -> Seq<char> {
    if field_needs_quotes(f) {
        seq!['"'] + double_quotes(f) + seq!['"']
    } else {
        f
    }
}

/// The encoded fields joined by tab delimiters.
pub open spec fn joined_fields(fields: Seq<Seq<char>>) -> Seq<char>
    decreases fields.len(),
{
    if fields.len() == 0 {
        Seq::empty()
    } else if fields.len() == 1 {
        encode_field(fields[0])
    } else {
        encode_field(fields[0]) + seq!['\t'] + joined_fields(fields.drop_first())
    }
}

/// One full record line: the encoded fields joined by tabs and terminated
/// by a line feed.
pub open spec fn csv_line(fields: Seq<Seq<char>>) -> Seq<char> {
    joined_fields(fields) + seq!['\n']
}

/// Whether chrono can represent this many seconds since the Unix epoch as a
/// calendar date and time.
pub uninterp spec fn chrono_representable(secs: int) -> bool;

/// The RFC 3339 rendering of this many seconds since the Unix epoch, at
/// offset +00:00.
pub uninterp spec fn rfc3339_of(secs: int) -> Seq<char>;

/// Relies on chrono's `DateTime::<Utc>::from_timestamp`, which returns `Some`
/// exactly when the seconds lie in chrono's representable date range, and on
/// `DateTime::to_rfc3339`, whose result depends on the timestamp alone and is
/// built from digits and ASCII date punctuation — never empty and never
/// holding a tab, double quote, carriage return or line feed.
#[verifier::external_body]
fn rfc3339_utc(secs: i64) -> (r: Option<String>)
    ensures
        r is Some <==> chrono_representable(secs as int),
        r matches Some(s) ==> s@ == rfc3339_of(secs as int),
        r matches Some(s) ==> s@.len() > 0 && (forall|i: int|
            0 <= i < s@.len() ==> !is_csv_special(s@[i])),
{
    match chrono::DateTime::<chrono::Utc>::from_timestamp(secs, 0) {
        Some(d) => Some(d.to_rfc3339()),
        None => None,
    }
}

/// Relies on the csv crate's `Writer` over an in-memory buffer, configured
/// with a tab delimiter and no header row: `write_record` writes each field —
/// quoted, with inner quotes doubled, exactly when it holds a tab, quote, CR
/// or LF — joined by tabs and closed by a line feed, and writes into a `Vec`
/// cannot fail. With at least two fields the record is never empty, so the
/// writer's empty-record marker `""` is never emitted.
#[verifier::external_body]
fn csv_encode_line(fields: &Vec<String>) -> (r: Result<String, LogError>)
    requires
        fields@.len() >= 2,
    ensures
        r is Ok,
        r matches Ok(line) ==> line@ == csv_line(fields@.map_values(|f: String| f@)),
{
    let mut w = csv::WriterBuilder::new().delimiter(b'\t').has_headers(false).from_writer(
        Vec::new(),
    );
    if w.write_record(fields.iter()).is_err() {
        return Err(LogError::SerializationError);
    }
    match w.into_inner() {
        Ok(buf) => String::from_utf8(buf).map_err(|_| LogError::SerializationError),
        Err(_) => Err(LogError::SerializationError),
    }
}

/// The raw fields of one record, in file order: start time, elapsed seconds,
/// expected seconds, status tag, kind tag and, for a task, its description.
pub open spec fn record_fields(m: ActivityModel) -> Seq<Seq<char>> {
    let base = seq![
        rfc3339_of(m.start_secs),
        dec_digits(m.elapsed),
        dec_digits(m.expected),
        status_label(m.status),
    ];
    match m.kind {
        KindModel::Task(d) => base + seq!["Task"@, d],
        KindModel::Break => base.push("Break"@),
    }
}

/// The full encoded line that records one activity.
pub open spec fn record_line(m: ActivityModel) -> Seq<char> {
    csv_line(record_fields(m))
}

/// Whether the kind's payload holds no line feed. The record of such an
/// activity occupies exactly one line of the file.
pub open spec fn kind_newline_free(k: KindModel) -> bool {
    match k {
        KindModel::Task(d) => free_of(d, '\n'),
        KindModel::Break => true,
    }
}

proof fn lemma_free_of_concat(a: Seq<char>, b: Seq<char>, c: char)
    requires
        free_of(a, c),
        free_of(b, c),
    ensures
        free_of(a + b, c),
{
    assert forall|i: int| 0 <= i < (a + b).len() implies (a + b)[i] != c by {
        if i < a.len() {
            assert((a + b)[i] == a[i]);
        } else {
            assert((a + b)[i] == b[i - a.len()]);
        }
    }
}

proof fn lemma_double_quotes_free(f: Seq<char>, c: char)
    requires
        free_of(f, c),
        c != '"',
    ensures
        free_of(double_quotes(f), c),
    decreases f.len(),
{
    if f.len() > 0 {
        let t = f.drop_first();
        assert forall|i: int| 0 <= i < t.len() implies t[i] != c by {
            assert(t[i] == f[i + 1]);
        }
        lemma_double_quotes_free(t, c);
        assert(f[0] != c);
        if f[0] == '"' {
            lemma_free_of_concat(seq!['"', '"'], double_quotes(t), c);
        } else {
            lemma_free_of_concat(seq![f[0]], double_quotes(t), c);
        }
    }
}

proof fn lemma_encode_field_free(f: Seq<char>, c: char)
    requires
        free_of(f, c),
        c != '"',
    ensures
        free_of(encode_field(f), c),
{
    if field_needs_quotes(f) {
        lemma_double_quotes_free(f, c);
        lemma_free_of_concat(seq!['"'], double_quotes(f), c);
        lemma_free_of_concat(seq!['"'] + double_quotes(f), seq!['"'], c);
    }
}

proof fn lemma_joined_fields_free(fields: Seq<Seq<char>>, c: char)
    requires
        c != '"',
        c != '\t',
        forall|k: int| 0 <= k < fields.len() ==> free_of(#[trigger] fields[k], c),
    ensures
        free_of(joined_fields(fields), c),
    decreases fields.len(),
{
    if fields.len() == 1 {
        lemma_encode_field_free(fields[0], c);
    } else if fields.len() > 1 {
        lemma_encode_field_free(fields[0], c);
        let t = fields.drop_first();
        assert forall|k: int| 0 <= k < t.len() implies free_of(#[trigger] t[k], c) by {
            assert(t[k] == fields[k + 1]);
        }
        lemma_joined_fields_free(t, c);
        lemma_free_of_concat(encode_field(fields[0]), seq!['\t'], c);
        lemma_free_of_concat(encode_field(fields[0]) + seq!['\t'], joined_fields(t), c);
    }
}

/// A record whose raw fields hold no line feed occupies exactly one line:
/// quoting inserts only quote characters, so the line feed that closes the
/// record is the only one in it.
pub proof fn lemma_csv_line_single(fields: Seq<Seq<char>>)
    requires
        forall|k: int| 0 <= k < fields.len() ==> free_of(#[trigger] fields[k], '\n'),
    ensures
        is_single_line(csv_line(fields)),
{
    lemma_joined_fields_free(fields, '\n');
    let j = joined_fields(fields);
    let line = csv_line(fields);
    assert(line[line.len() - 1] == seq!['\n'][0]);
    assert forall|i: int| 0 <= i < line.len() - 1 implies line[i] != '\n' by {
        assert(line[i] == j[i]);
    }
}

/// Decimal digit strings hold only digit characters, never a line feed.
proof fn lemma_dec_digits_no_newline(n: int)
    ensures
        free_of(dec_digits(n), '\n'),
    decreases n,
{
    if n >= 10 {
        lemma_dec_digits_no_newline(n / 10);
        let s = dec_digits(n);
        let prefix = dec_digits(n / 10);
        assert forall|i: int| 0 <= i < s.len() implies s[i] != '\n' by {
            if i < prefix.len() {
                assert(s[i] == prefix[i]);
            } else {
                assert(s[i] == digit_char(n % 10));
            }
        }
    }
}

proof fn lemma_labels_clean()
    ensures
        free_of("Completed"@, '\n'),
        free_of("Aborted"@, '\n'),
        free_of("Running"@, '\n'),
        free_of("Task"@, '\n'),
        free_of("Break"@, '\n'),
{
    reveal_strlit("Completed");
    reveal_strlit("Aborted");
    reveal_strlit("Running");
    reveal_strlit("Task");
    reveal_strlit("Break");
}

proof fn lemma_record_fields_newline_free(m: ActivityModel)
    requires
        kind_newline_free(m.kind),
        free_of(rfc3339_of(m.start_secs), '\n'),
    ensures
        forall|k: int|
            0 <= k < record_fields(m).len() ==> free_of(#[trigger] record_fields(m)[k], '\n'),
{
    lemma_dec_digits_no_newline(m.elapsed);
    lemma_dec_digits_no_newline(m.expected);
    lemma_labels_clean();
    let fs = record_fields(m);
    assert forall|k: int| 0 <= k < fs.len() implies free_of(#[trigger] fs[k], '\n') by {
        if k == 0 {
            assert(fs[k] == rfc3339_of(m.start_secs));
        } else if k == 1 {
            assert(fs[k] == dec_digits(m.elapsed));
        } else if k == 2 {
            assert(fs[k] == dec_digits(m.expected));
        } else if k == 3 {
            if m.status == Status::Completed {
                assert(fs[k] == "Completed"@);
            } else if m.status == Status::Aborted {
                assert(fs[k] == "Aborted"@);
            } else {
                assert(fs[k] == "Running"@);
            }
        } else {
            match m.kind {
                KindModel::Task(d) => {
                    if k == 4 {
                        assert(fs[k] == "Task"@);
                    } else {
                        assert(fs[k] == d);
                    }
                },
                KindModel::Break => {
                    assert(fs[k] == "Break"@);
                },
            }
        }
    }
}

/// Encode one activity as its record line: its fields tab-delimited,
/// quoted where needed, terminated by a line feed. Fails with
/// `SerializationError` exactly when the start time lies outside the
/// representable date range. When the description holds no line feed, the
/// record occupies exactly one line.
pub fn encode_record(p: &Pomodoro) -> (r: Result<String, LogError>)
    ensures
        r matches Ok(line) ==> line@ == record_line(p@),
        r matches Ok(line) ==> (kind_newline_free(p@.kind) ==> is_single_line(line@)),
        r is Ok <==> chrono_representable(p@.start_secs),
        r matches Err(e) ==> e == LogError::SerializationError,
{
    let ts: String = match rfc3339_utc(p.start_time().secs()) {
        Some(s) => s,
        None => {
            return Err(LogError::SerializationError);
        },
    };
    let ghost ts_view: Seq<char> = ts@;
    let mut fields: Vec<String> = Vec::new();
    fields.push(ts);
    fields.push(u64_to_dec(p.elapsed_duration()));
    fields.push(u64_to_dec(p.expected_duration()));
    fields.push(status_label_str(p.status()));
    match p.kind() {
        Kind::Task(d) => {
            fields.push("Task".to_owned());
            fields.push(d.clone());
        },
        Kind::Break => {
            fields.push("Break".to_owned());
        },
    }
    proof {
        assert(fields@.map_values(|f: String| f@) =~= record_fields(p@));
        if kind_newline_free(p@.kind) {
            assert forall|i: int| 0 <= i < ts_view.len() implies ts_view[i] != '\n' by {
                assert(!is_csv_special(ts_view[i]));
            }
            assert(free_of(rfc3339_of(p@.start_secs), '\n'));
            lemma_record_fields_newline_free(p@);
            lemma_csv_line_single(record_fields(p@));
        }
    }
    match csv_encode_line(&fields) {
        Ok(line) => Ok(line),
        Err(_) => Err(LogError::SerializationError),
    }
}

} // verus!
