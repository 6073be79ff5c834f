use vstd::prelude::*;

verus! {

/// Whether no character of `s` equals `c`.
pub open spec fn free_of(s: Seq<char>, c: char) -> bool {
    forall|i: int| 0 <= i < s.len() ==> s[i] != c
}

/// The number of line feeds in a character sequence — the number of lines
/// a reader of the file would count, when every line is terminated.
pub open spec fn newline_count(s: Seq<char>) -> int
    decreases s.len(),
{
    if s.len() == 0 {
        0
    } else {
        (if s[0] == '\n' {
            1int
        } else {
            0int
        }) + newline_count(s.drop_first())
    }
}

/// A sequence that forms exactly one terminated line: it ends with a line
/// feed and holds no other.
pub open spec fn is_single_line(s: Seq<char>) -> bool {
    &&& s.len() > 0
    &&& s[s.len() - 1] == '\n'
    &&& forall|i: int| 0 <= i < s.len() - 1 ==> s[i] != '\n'
}

/// The content of a log file built by appending each of `records` in order,
/// starting from an empty file: their concatenation. Append-mode writes add
/// bytes only at the end, so this is the whole file.
pub open spec fn log_content(records: Seq<Seq<char>>) -> Seq<char>
    decreases records.len(),
{
    if records.len() == 0 {
        Seq::empty()
    } else {
        records[0] + log_content(records.drop_first())
    }
}

proof fn lemma_newline_count_concat(a: Seq<char>, b: Seq<char>)
    ensures
        newline_count(a + b) == newline_count(a) + newline_count(b),
    decreases a.len(),
{
    if a.len() == 0 {
        assert(a + b =~= b);
    } else {
        assert((a + b).drop_first() =~= a.drop_first() + b);
        lemma_newline_count_concat(a.drop_first(), b);
    }
}

/// A single terminated line counts as exactly one line.
pub proof fn lemma_single_line_count(s: Seq<char>)
    requires
        is_single_line(s),
    ensures
        newline_count(s) == 1,
    decreases s.len(),
{
    if s.len() == 1 {
        assert(s[0] == '\n');
        assert(s.drop_first().len() == 0);
        assert(newline_count(s.drop_first()) == 0);
    } else {
        let t = s.drop_first();
        assert(s[0] != '\n');
        assert(t[t.len() - 1] == s[s.len() - 1]);
        assert forall|i: int| 0 <= i < t.len() - 1 implies t[i] != '\n' by {
            assert(t[i] == s[i + 1]);
        }
        assert(is_single_line(t));
        lemma_single_line_count(t);
    }
}

/// Appending one record never disturbs what was written before: the prior
/// content stays an identical prefix of the file, extended by the record.
pub proof fn lemma_log_append(records: Seq<Seq<char>>, rec: Seq<char>)
    ensures
        log_content(records.push(rec)) == log_content(records) + rec,
    decreases records.len(),
{
    if records.len() == 0 {
        let p = records.push(rec);
        assert(p[0] == rec);
        assert(p.drop_first() =~= Seq::<Seq<char>>::empty());
        assert(log_content(p.drop_first()) =~= Seq::<char>::empty());
        assert(log_content(records) =~= Seq::<char>::empty());
        assert(log_content(p) =~= log_content(records) + rec);
    } else {
        assert(records.push(rec).drop_first() =~= records.drop_first().push(rec));
        lemma_log_append(records.drop_first(), rec);
        assert(log_content(records.push(rec)) =~= log_content(records) + rec);
    }
}

/// A log built from single-line records has exactly as many lines as
/// records were appended to it.
pub proof fn lemma_log_line_count(records: Seq<Seq<char>>)
    requires
        forall|k: int| 0 <= k < records.len() ==> is_single_line(#[trigger] records[k]),
    ensures
        newline_count(log_content(records)) == records.len(),
    decreases records.len(),
{
    if records.len() > 0 {
        lemma_single_line_count(records[0]);
        lemma_newline_count_concat(records[0], log_content(records.drop_first()));
        assert(forall|k: int|
            0 <= k < records.drop_first().len() ==> #[trigger] records.drop_first()[k]
                == records[k + 1]);
        lemma_log_line_count(records.drop_first());
    }
}

} // verus!
