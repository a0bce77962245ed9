//! The shortcut registry and its line format.
//!
//! A shortcut source is line-oriented: one entry per line, the target first,
//! then the two-byte delimiter `::`, then the display label. The target may
//! be quote-wrapped; the quotes are stripped. The label is trimmed of
//! whitespace. A line without the delimiter is malformed: it is reported as
//! a warning and skipped, and the rest of the load goes on. The registry
//! keeps the entries in input order, which determines slot ordering.

use vstd::prelude::*;
use vstd::slice::slice_subrange;
use vstd::slice::slice_to_vec;

verus! {

/// One shortcut: the target to launch and the label to display. Created at
/// load time and immutable for the process lifetime.
#[derive(Debug)]
pub struct ShortcutEntry {
    pub target: Vec<u8>,
    pub label: Vec<u8>,
}

/// A malformed shortcut line, reported and skipped: carries the offending
/// line so the host can show it.
#[derive(Debug)]
pub struct ParseWarning {
    pub line: Vec<u8>,
}

/// The two-byte entry delimiter `::` starts at index `i` of `s`.
pub open spec fn is_delim_at(s: Seq<u8>, i: int) -> bool {
    &&& 0 <= i
    &&& i + 2 <= s.len()
    &&& s[i] == 58
    &&& s[i + 1] == 58
}

/// A line is well formed when it contains the delimiter somewhere.
pub open spec fn well_formed_line(s: Seq<u8>) -> bool {
    exists|i: int| is_delim_at(s, i)
}

/// The delimiter starts at `i` and nowhere earlier.
pub open spec fn is_first_delim(s: Seq<u8>, i: int) -> bool {
    &&& is_delim_at(s, i)
    &&& forall|j: int| 0 <= j < i ==> !is_delim_at(s, j)
}

/// The index of the first delimiter of a well-formed line.
pub open spec fn first_delim(s: Seq<u8>) -> int {
    choose|i: int| is_first_delim(s, i)
}

/// A quote byte (`"`).
pub open spec fn is_quote(b: u8) -> bool {
    b == 34
}

/// An ASCII whitespace byte.
pub open spec fn is_space(b: u8) -> bool {
    b == 32 || (9 <= b && b <= 13)
}

/// `s` without its leading bytes that satisfy `p`.
pub open spec fn drop_leading(s: Seq<u8>, p: spec_fn(u8) -> bool) -> Seq<u8>
    decreases s.len(),
{
    if s.len() > 0 && p(s[0]) {
        drop_leading(s.drop_first(), p)
    } else {
        s
    }
}

/// `s` without its trailing bytes that satisfy `p`.
pub open spec fn drop_trailing(s: Seq<u8>, p: spec_fn(u8) -> bool) -> Seq<u8>
    decreases s.len(),
{
    if s.len() > 0 && p(s[s.len() - 1]) {
        drop_trailing(s.drop_last(), p)
    } else {
        s
    }
}

/// `s` without the bytes satisfying `p` at either end.
pub open spec fn trim_ends(s: Seq<u8>, p: spec_fn(u8) -> bool) -> Seq<u8> {
    drop_trailing(drop_leading(s, p), p)
}

/// A target field with any wrapping quotes stripped.
pub open spec fn strip_quotes(s: Seq<u8>) -> Seq<u8> {
    trim_ends(s, |b: u8| is_quote(b))
}

/// A label field with surrounding whitespace trimmed.
pub open spec fn trim_spaces(s: Seq<u8>) -> Seq<u8> {
    trim_ends(s, |b: u8| is_space(b))
}

/// What a line parses to: the quote-stripped target before the first
/// delimiter and the trimmed label after it, or nothing when the line has no
/// delimiter.
pub open spec fn parse_line_spec(s: Seq<u8>) -> Option<(Seq<u8>, Seq<u8>)> {
    if well_formed_line(s) {
        let d = first_delim(s);
        Some((strip_quotes(s.take(d)), trim_spaces(s.skip(d + 2))))
    } else {
        None
    }
}

/// The pair of byte sequences an entry holds.
pub open spec fn entry_model(e: ShortcutEntry) -> (Seq<u8>, Seq<u8>) {
    (e.target@, e.label@)
}

/// A line with a delimiter occurrence has a first one, and `first_delim`
/// picks it.
proof fn lemma_first_delim_exists(s: Seq<u8>, i: int)
    requires
        is_delim_at(s, i),
    ensures
        is_first_delim(s, first_delim(s)),
    decreases i,
{
    if forall|j: int| 0 <= j < i ==> !is_delim_at(s, j) {
        assert(is_first_delim(s, i));
    } else {
        let j = choose|j: int| 0 <= j < i && is_delim_at(s, j);
        lemma_first_delim_exists(s, j);
    }
}

/// Two first occurrences are the same occurrence.
proof fn lemma_first_delim_unique(s: Seq<u8>, i: int)
    requires
        is_first_delim(s, i),
    ensures
        first_delim(s) == i,
{
    lemma_first_delim_exists(s, i);
    let d = first_delim(s);
    if d < i {
        assert(!is_delim_at(s, d));
    }
    if i < d {
        assert(!is_delim_at(s, i));
    }
}

/// When the first `f` bytes satisfy `p` and the byte at `f` (if any) does
/// not, dropping the leading matching bytes is dropping the first `f`.
proof fn lemma_drop_leading_at(s: Seq<u8>, p: spec_fn(u8) -> bool, f: int)
    requires
        0 <= f <= s.len(),
        forall|j: int| 0 <= j < f ==> p(s[j]),
        f < s.len() ==> !p(s[f]),
    ensures
        drop_leading(s, p) == s.skip(f),
    decreases f,
{
    if f == 0 {
        assert(s.skip(0) =~= s);
    } else {
        let t = s.drop_first();
        assert(forall|j: int| 0 <= j < f - 1 ==> p(t[j]));
        lemma_drop_leading_at(t, p, f - 1);
        assert(t.skip(f - 1) =~= s.skip(f));
    }
}

/// When the bytes from `b` on satisfy `p` and the byte before `b` (if any)
/// does not, dropping the trailing matching bytes is keeping the first `b`.
proof fn lemma_drop_trailing_at(s: Seq<u8>, p: spec_fn(u8) -> bool, b: int)
    requires
        0 <= b <= s.len(),
        forall|j: int| b <= j < s.len() ==> p(s[j]),
        b > 0 ==> !p(s[b - 1]),
    ensures
        drop_trailing(s, p) == s.take(b),
    decreases s.len() - b,
{
    if b == s.len() {
        assert(s.take(b) =~= s);
    } else {
        let t = s.drop_last();
        assert(forall|j: int| b <= j < t.len() ==> p(t[j]));
        lemma_drop_trailing_at(t, p, b);
        assert(t.take(b) =~= s.take(b));
    }
}

/// Finds the first delimiter of `v`, if the line has one.
fn find_first_delim(v: &Vec<u8>) -> (r: Option<usize>)
    ensures
        r matches Some(d) ==> is_first_delim(v@, d as int),
        r is None ==> !well_formed_line(v@),
{
    if v.len() < 2 {
        return None;
    }
    let last_start = v.len() - 2;
    let mut i: usize = 0;
    while i <= last_start
        invariant
            v@.len() <= usize::MAX,
            last_start == v@.len() - 2,
            i <= last_start + 1,
            forall|j: int| 0 <= j < i ==> !is_delim_at(v@, j),
        decreases last_start + 1 - i,
    {
        if v[i] == 58 && v[i + 1] == 58 {
            return Some(i);
        }
        i = i + 1;
    }
    None
}

/// Copies the bytes of `v` from `lo` (inclusive) to `hi` (exclusive).
fn copy_range(v: &Vec<u8>, lo: usize, hi: usize) -> (r: Vec<u8>)
    requires
        lo <= hi <= v@.len(),
    ensures
        r@ == v@.subrange(lo as int, hi as int),
{
    slice_to_vec(slice_subrange(v.as_slice(), lo, hi))
}

/// Strips any wrapping quote bytes from both ends of `v`.
fn strip_quotes_bytes(v: &Vec<u8>) -> (r: Vec<u8>)
    ensures
        r@ == strip_quotes(v@),
{
    let mut f: usize = 0;
    while f < v.len() && v[f] == 34
        invariant
            f <= v@.len(),
            forall|j: int| 0 <= j < f ==> is_quote(v@[j]),
        decreases v.len() - f,
    {
        f = f + 1;
    }
    let mut b: usize = v.len();
    while b > f && v[b - 1] == 34
        invariant
            f <= b <= v@.len(),
            forall|j: int| b <= j < v@.len() ==> is_quote(v@[j]),
        decreases b,
    {
        b = b - 1;
    }
    proof {
        let p = |x: u8| is_quote(x);
        lemma_drop_leading_at(v@, p, f as int);
        let t = v@.skip(f as int);
        assert(forall|j: int| (b - f) <= j < t.len() ==> p(t[j]));
        lemma_drop_trailing_at(t, p, (b - f) as int);
        assert(t.take((b - f) as int) =~= v@.subrange(f as int, b as int));
    }
    copy_range(v, f, b)
}

/// Trims ASCII whitespace from both ends of `v`.
fn trim_spaces_bytes(v: &Vec<u8>) -> (r: Vec<u8>)
    ensures
        r@ == trim_spaces(v@),
{
    let mut f: usize = 0;
    while f < v.len() && (v[f] == 32 || (9 <= v[f] && v[f] <= 13))
        invariant
            f <= v@.len(),
            forall|j: int| 0 <= j < f ==> is_space(v@[j]),
        decreases v.len() - f,
    {
        f = f + 1;
    }
    let mut b: usize = v.len();
    while b > f && (v[b - 1] == 32 || (9 <= v[b - 1] && v[b - 1] <= 13))
        invariant
            f <= b <= v@.len(),
            forall|j: int| b <= j < v@.len() ==> is_space(v@[j]),
        decreases b,
    {
        b = b - 1;
    }
    proof {
        let p = |x: u8| is_space(x);
        lemma_drop_leading_at(v@, p, f as int);
        let t = v@.skip(f as int);
        assert(forall|j: int| (b - f) <= j < t.len() ==> p(t[j]));
        lemma_drop_trailing_at(t, p, (b - f) as int);
        assert(t.take((b - f) as int) =~= v@.subrange(f as int, b as int));
    }
    copy_range(v, f, b)
}

/// Parses one shortcut line: the quote-stripped target before the first
/// `::`, the whitespace-trimmed label after it. A line without the delimiter
/// is returned as a warning carrying the line itself.
pub fn parse_line(line: &Vec<u8>) -> (r: Result<ShortcutEntry, ParseWarning>)
    ensures
        r is Ok <==> well_formed_line(line@),
        r matches Ok(e) ==> parse_line_spec(line@) == Some((e.target@, e.label@)),
        r matches Err(w) ==> w.line@ == line@,
{
    match find_first_delim(line) {
        Some(d) => {
            proof {
                lemma_first_delim_unique(line@, d as int);
            }
            let n = line.len();
            let head = copy_range(line, 0, d);
            let tail = copy_range(line, d + 2, n);
            proof {
                assert(head@ =~= line@.take(d as int));
                assert(tail@ =~= line@.skip(d as int + 2));
            }
            let target = strip_quotes_bytes(&head);
            let label = trim_spaces_bytes(&tail);
            Ok(ShortcutEntry { target, label })
        },
        None => Err(ParseWarning { line: copy_range(line, 0, line.len()) }),
    }
}

/// The byte sequences of a list of raw lines.
pub open spec fn lines_model(ls: Seq<Vec<u8>>) -> Seq<Seq<u8>> {
    ls.map_values(|l: Vec<u8>| l@)
}

/// The models of a list of entries.
pub open spec fn entries_model(es: Seq<ShortcutEntry>) -> Seq<(Seq<u8>, Seq<u8>)> {
    es.map_values(|e: ShortcutEntry| entry_model(e))
}

/// The lines a list of warnings carries.
pub open spec fn warnings_model(ws: Seq<ParseWarning>) -> Seq<Seq<u8>> {
    ws.map_values(|w: ParseWarning| w.line@)
}

/// What loading a list of lines yields: the parsed entries of the
/// well-formed lines in input order, and the malformed lines in input order.
pub open spec fn load_spec(lines: Seq<Seq<u8>>) -> (Seq<(Seq<u8>, Seq<u8>)>, Seq<Seq<u8>>)
    decreases lines.len(),
{
    if lines.len() == 0 {
        (Seq::empty(), Seq::empty())
    } else {
        let rest = load_spec(lines.drop_last());
        match parse_line_spec(lines.last()) {
            Some(tl) => (rest.0.push(tl), rest.1),
            None => (rest.0, rest.1.push(lines.last())),
        }
    }
}

/// Loads a registry from raw lines: parses each line in order, keeps the
/// entries of the well-formed lines in input order, and reports each
/// malformed line as a warning, skipping it.
pub fn load_registry(lines: &Vec<Vec<u8>>) -> (r: (Vec<ShortcutEntry>, Vec<ParseWarning>))
    ensures
        entries_model(r.0@) == load_spec(lines_model(lines@)).0,
        warnings_model(r.1@) == load_spec(lines_model(lines@)).1,
{
    let ghost lm = lines_model(lines@);
    let mut entries: Vec<ShortcutEntry> = Vec::new();
    let mut warnings: Vec<ParseWarning> = Vec::new();
    let mut i: usize = 0;
    while i < lines.len()
        invariant
            i <= lines@.len(),
            lm == lines_model(lines@),
            entries_model(entries@) == load_spec(lm.take(i as int)).0,
            warnings_model(warnings@) == load_spec(lm.take(i as int)).1,
        decreases lines.len() - i,
    {
        proof {
            assert(lm.take(i + 1).drop_last() =~= lm.take(i as int));
            assert(lm.take(i + 1).last() == lines@[i as int]@);
        }
        match parse_line(&lines[i]) {
            Ok(e) => {
                let ghost prev = entries@;
                entries.push(e);
                proof {
                    assert(entries_model(entries@) =~= entries_model(prev).push(entry_model(e)));
                }
            },
            Err(w) => {
                let ghost prev = warnings@;
                let ghost wl = w.line@;
                warnings.push(w);
                proof {
                    assert(warnings_model(warnings@) =~= warnings_model(prev).push(wl));
                }
            },
        }
        i = i + 1;
    }
    proof {
        assert(lm.take(lines@.len() as int) =~= lm);
    }
    (entries, warnings)
}

/// Loading well-formed lines loses nothing and keeps the order: a list of
/// lines that all carry the delimiter loads to exactly one entry per line,
/// the entry of line `i` at position `i`, with no warnings.
pub proof fn lemma_load_well_formed(lines: Seq<Seq<u8>>)
    requires
        forall|i: int| 0 <= i < lines.len() ==> well_formed_line(lines[i]),
    ensures
        load_spec(lines).0.len() == lines.len(),
        load_spec(lines).1.len() == 0,
        forall|i: int|
            0 <= i < lines.len() ==> Some(#[trigger] load_spec(lines).0[i]) == parse_line_spec(
                lines[i],
            ),
    decreases lines.len(),
{
    if lines.len() > 0 {
        assert(forall|i: int|
            0 <= i < lines.drop_last().len() ==> lines.drop_last()[i] == lines[i]);
        lemma_load_well_formed(lines.drop_last());
    }
}

/// Every line is accounted for: the entries and the warnings together number
/// exactly the input lines.
pub proof fn lemma_load_partitions(lines: Seq<Seq<u8>>)
    ensures
        load_spec(lines).0.len() + load_spec(lines).1.len() == lines.len(),
    decreases lines.len(),
{
    if lines.len() > 0 {
        lemma_load_partitions(lines.drop_last());
    }
}

} // verus!
