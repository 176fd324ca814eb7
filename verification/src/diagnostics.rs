//! Diagnostics records: a per-system counter and recorders of what the grid and the
//! focus systems did.

use std::collections::HashMap;

use vstd::prelude::*;
use vstd::std_specs::hash::spec_hash_map_iter;
use vstd::std_specs::iter::IteratorSpec;

use crate::grid::{HorizontalSpan, SpanMapping};

verus! {

broadcast use vstd::std_specs::hash::group_hash_axioms;

/// Interpreter for diagnostic traces.
#[derive(Copy, Clone, PartialEq, Eq, Structural, Debug, Default)]
pub struct Diagnostics {}

/// How a recorder extends the core record of a diagnostics handle.
pub trait Record {
    /// Whether `text` is what this recorder makes of the core record `core` (a recorder
    /// that lists hash maps may make one of several texts, one per listing order).
    spec fn records(&self, core: Seq<char>, text: Seq<char>) -> bool;

    fn record(&self, core_record: String) -> (r: String)
        ensures
            self.records(core_record@, r@),
    ;
}

/// The decimal digit `d`.
pub open spec fn digit_char(d: nat) -> char {
    ((48 + d) as u8) as char
}

/// Decimal representation of `n`, most significant digit first, without leading zeros.
pub open spec fn decimal(n: nat) -> Seq<char>
    decreases n,
{
    if n < 10 {
        seq![digit_char(n)]
    } else {
        decimal(n / 10).push(digit_char(n % 10))
    }
}

/// The text of the decimal digit `d`.
fn digit_str(d: u64) -> (r: &'static str)
    requires
        d < 10,
    ensures
        r@ == seq![digit_char(d as nat)],
{
    proof {
        reveal_strlit("0");
        reveal_strlit("1");
        reveal_strlit("2");
        reveal_strlit("3");
        reveal_strlit("4");
        reveal_strlit("5");
        reveal_strlit("6");
        reveal_strlit("7");
        reveal_strlit("8");
        reveal_strlit("9");
    }
    if d == 0 {
        "0"
    } else if d == 1 {
        "1"
    } else if d == 2 {
        "2"
    } else if d == 3 {
        "3"
    } else if d == 4 {
        "4"
    } else if d == 5 {
        "5"
    } else if d == 6 {
        "6"
    } else if d == 7 {
        "7"
    } else if d == 8 {
        "8"
    } else {
        "9"
    }
}

/// The decimal digits of `n`.
pub fn decimal_string(n: u64) -> (r: String)
    ensures
        r@ == decimal(n as nat),
    decreases n,
{
    if n < 10 {
        let mut s = String::new();
        s.append(digit_str(n));
        proof {
            assert(s@ =~= decimal(n as nat));
        }
        s
    } else {
        let mut s = decimal_string(n / 10);
        s.append(digit_str(n % 10));
        proof {
            assert(s@ =~= decimal(n as nat));
        }
        s
    }
}

/// The core record text for the count `counter`: the prefix and the count in decimal.
fn counter_record(counter: usize) -> (r: String)
    ensures
        r@ == "@sys.counter:"@ + decimal(counter as nat),
{
    let mut s = String::new();
    s.append("@sys.counter:");
    let digits = decimal_string(counter as u64);
    s.append(digits.as_str());
    proof {
        assert(s@ =~= "@sys.counter:"@ + decimal(counter as nat));
    }
    s
}

/// Counts the records of a system and extends each with its recorder's output.
pub struct DiagnosticsHandle<T> {
    pub counter: usize,
    pub ext: T,
}

impl<T: Record> DiagnosticsHandle<T> {
    /// A handle that has recorded nothing.
    pub fn new(ext: T) -> (r: DiagnosticsHandle<T>)
        ensures
            r.counter == 0,
            r.ext == ext,
    {
        DiagnosticsHandle { counter: 0, ext }
    }

    /// Counts one more record and returns the core record text: the prefix
    /// `@sys.counter:` and the new count in decimal.
    pub fn core_record(&mut self) -> (r: String)
        requires
            old(self).counter < usize::MAX,
        ensures
            final(self).counter == old(self).counter + 1,
            final(self).ext == old(self).ext,
            r@ == "@sys.counter:"@ + decimal(final(self).counter as nat),
    {
        self.counter = self.counter + 1;
        counter_record(self.counter)
    }

    /// Counts one more record and returns what the recorder makes of the core record.
    pub fn record(&mut self) -> (r: String)
        requires
            old(self).counter < usize::MAX,
        ensures
            final(self).counter == old(self).counter + 1,
            final(self).ext == old(self).ext,
            old(self).ext.records("@sys.counter:"@ + decimal(final(self).counter as nat), r@),
    {
        let core_record = self.core_record();
        self.ext.record(core_record)
    }
}

/// Counts how often the grid was configured for each span.
pub struct GridConfigRecorder {
    pub times_span_configured: SpanMapping<usize>,
}

impl GridConfigRecorder {
    pub fn new() -> (r: GridConfigRecorder)
        ensures
            r.times_span_configured.four is None,
            r.times_span_configured.eight is None,
            r.times_span_configured.twelve is None,
    {
        GridConfigRecorder { times_span_configured: SpanMapping::new() }
    }

    /// Counts one configuration with `span`.
    pub fn record_span_configured(&mut self, span: HorizontalSpan)
        requires
            old(self).times_span_configured.spec_get(span) matches Some(c) ==> c < usize::MAX,
        ensures
            final(self).times_span_configured.spec_get(span) == Some(
                match old(self).times_span_configured.spec_get(span) {
                    Some(c) => (c + 1) as usize,
                    None => 1usize,
                },
            ),
            forall|s: HorizontalSpan|
                s != span ==> #[trigger] final(self).times_span_configured.spec_get(s) == old(
                    self,
                ).times_span_configured.spec_get(s),
    {
        let next: usize = match self.times_span_configured.get(&span) {
            Some(count) => *count + 1,
            None => 1,
        };
        self.times_span_configured.insert(span, next);
    }
}

/// Whether every character of `s` is printable ASCII other than `"`, `\\` and `'`.
pub open spec fn plain_chars(s: Seq<char>) -> bool {
    forall|i: int| 0 <= i < s.len() ==> {
        let c = #[trigger] s[i];
        &&& 0x20 <= (c as u32) <= 0x7e
        &&& c != '"'
        &&& c != '\\'
        &&& c != '\''
    }
}

/// What `Debug` prints for a string: the string between double quotes, with the
/// characters that need it escaped.
pub uninterp spec fn str_debug_text(s: Seq<char>) -> Seq<char>;

/// Calls `format!("{:?}", s)`. The claim is that the text depends on `s` alone, and that
/// a string made only of printable ASCII characters other than `"`, `\\` and `'` prints
/// as itself between double quotes. How other characters are escaped is left unsaid.
#[verifier::external_body]
fn debug_text(s: &str) -> (r: String)
    ensures
        r@ == str_debug_text(s@),
        plain_chars(s@) ==> r@ == seq!['"'] + s@ + seq!['"'],
{
    format!("{:?}", s)
}

/// `parts`, separated by `, `.
pub open spec fn comma_joined(parts: Seq<Seq<char>>) -> Seq<char>
    decreases parts.len(),
{
    if parts.len() == 0 {
        Seq::empty()
    } else if parts.len() == 1 {
        parts[0]
    } else {
        comma_joined(parts.drop_last()) + ", "@ + parts.last()
    }
}

/// One entry of a count map as `Debug` prints it: the key, `: ` and the count.
pub open spec fn entry_text(key: Seq<char>, count: nat) -> Seq<char> {
    key + ": "@ + decimal(count)
}

/// A map as `Debug` prints it, with the entries `parts` in that order.
pub open spec fn braced(parts: Seq<Seq<char>>) -> Seq<char> {
    "{"@ + comma_joined(parts) + "}"@
}

proof fn lemma_comma_joined_push(parts: Seq<Seq<char>>, x: Seq<char>)
    ensures
        comma_joined(parts.push(x)) == if parts.len() == 0 {
            x
        } else {
            comma_joined(parts) + ", "@ + x
        },
{
    assert(parts.push(x).drop_last() =~= parts);
}

/// Appending one entry, preceded by `, ` unless it is the first, extends the open map text.
proof fn lemma_entry_appended(prefix: Seq<char>, parts: Seq<Seq<char>>, key: Seq<char>, count: nat)
    ensures
        prefix + "{"@ + comma_joined(parts) + (if parts.len() == 0 {
            Seq::empty()
        } else {
            ", "@
        }) + key + ": "@ + decimal(count) == prefix + "{"@ + comma_joined(
            parts.push(entry_text(key, count)),
        ),
{
    lemma_comma_joined_push(parts, entry_text(key, count));
    if parts.len() == 0 {
        assert(prefix + "{"@ + comma_joined(parts) + Seq::<char>::empty() + key + ": "@ + decimal(
            count,
        ) =~= prefix + "{"@ + (key + ": "@ + decimal(count)));
    } else {
        assert(prefix + "{"@ + comma_joined(parts) + ", "@ + key + ": "@ + decimal(count) =~= prefix
            + "{"@ + (comma_joined(parts) + ", "@ + (key + ": "@ + decimal(count))));
    }
}

/// Appends one entry of a map: `, ` unless it is the first, then `key: count`.
fn append_entry(text: &mut String, first: bool, key: &str, count: u64)
    ensures
        final(text)@ == old(text)@ + (if first {
            Seq::empty()
        } else {
            ", "@
        }) + key@ + ": "@ + decimal(count as nat),
{
    if !first {
        text.append(", ");
    }
    text.append(key);
    text.append(": ");
    let digits = decimal_string(count);
    text.append(digits.as_str());
    proof {
        if first {
            assert(old(text)@ + Seq::<char>::empty() =~= old(text)@);
        }
    }
}

/// The entries of the grid-configuration counts, in span order, as `Debug` prints the
/// entries of a map from span to count.
pub open spec fn span_count_parts(m: SpanMapping<usize>) -> Seq<Seq<char>> {
    let a = Seq::<Seq<char>>::empty();
    let b = match m.four {
        Some(c) => a.push(entry_text("Four"@, c as nat)),
        None => a,
    };
    let c = match m.eight {
        Some(n) => b.push(entry_text("Eight"@, n as nat)),
        None => b,
    };
    match m.twelve {
        Some(n) => c.push(entry_text("Twelve"@, n as nat)),
        None => c,
    }
}

impl Record for GridConfigRecorder {
    /// The core record as `Debug` prints it, `:`, and the counts per span as a map,
    /// listed in span order (the order in which a map of spans lists them is otherwise
    /// free).
    open spec fn records(&self, core: Seq<char>, text: Seq<char>) -> bool {
        text == str_debug_text(core) + ":"@ + braced(span_count_parts(self.times_span_configured))
    }

    fn record(&self, core_record: String) -> (r: String) {
        let mut text = debug_text(core_record.as_str());
        text.append(":");
        let ghost prefix = text@;
        text.append("{");
        let ghost mut parts: Seq<Seq<char>> = Seq::empty();
        let mut first = true;
        proof {
            assert(prefix + "{"@ + comma_joined(parts) =~= text@);
        }
        match self.times_span_configured.four {
            Some(n) => {
                proof {
                    lemma_entry_appended(prefix, parts, "Four"@, n as nat);
                }
                append_entry(&mut text, first, "Four", n as u64);
                proof {
                    parts = parts.push(entry_text("Four"@, n as nat));
                }
                first = false;
            },
            None => {},
        }
        match self.times_span_configured.eight {
            Some(n) => {
                proof {
                    lemma_entry_appended(prefix, parts, "Eight"@, n as nat);
                }
                append_entry(&mut text, first, "Eight", n as u64);
                proof {
                    parts = parts.push(entry_text("Eight"@, n as nat));
                }
                first = false;
            },
            None => {},
        }
        match self.times_span_configured.twelve {
            Some(n) => {
                proof {
                    lemma_entry_appended(prefix, parts, "Twelve"@, n as nat);
                }
                append_entry(&mut text, first, "Twelve", n as u64);
                proof {
                    parts = parts.push(entry_text("Twelve"@, n as nat));
                }
            },
            None => {},
        }
        text.append("}");
        proof {
            assert(parts == span_count_parts(self.times_span_configured));
            assert(text@ =~= str_debug_text(core_record@) + ":"@ + braced(parts));
        }
        text
    }
}

/// `counts` with one more count for `entity`.
pub open spec fn counted(counts: Map<u64, usize>, entity: u64) -> Map<u64, usize> {
    counts.insert(
        entity,
        if counts.contains_key(entity) {
            (counts[entity] + 1) as usize
        } else {
            1usize
        },
    )
}

/// Counts, per entity (by its id bits), how often it got the focus and in how many
/// loops it had it.
pub struct FocusRecorder {
    pub times_focused: HashMap<u64, usize>,
    pub loops_focused: HashMap<u64, usize>,
}

impl FocusRecorder {
    pub fn new() -> (r: FocusRecorder)
        ensures
            r.times_focused@ == Map::<u64, usize>::empty(),
            r.loops_focused@ == Map::<u64, usize>::empty(),
    {
        FocusRecorder { times_focused: HashMap::new(), loops_focused: HashMap::new() }
    }

    /// Counts one more time that `entity` got the focus.
    pub fn record_time_focus(&mut self, entity: u64)
        requires
            old(self).times_focused@.contains_key(entity) ==> old(self).times_focused@[entity]
                < usize::MAX,
        ensures
            final(self).times_focused@ == counted(old(self).times_focused@, entity),
            final(self).loops_focused@ == old(self).loops_focused@,
    {
        let next: usize = match self.times_focused.get(&entity) {
            Some(count) => *count + 1,
            None => 1,
        };
        self.times_focused.insert(entity, next);
    }

    /// Counts one more loop in which `entity` had the focus.
    pub fn record_loop_focused(&mut self, entity: u64)
        requires
            old(self).loops_focused@.contains_key(entity) ==> old(self).loops_focused@[entity]
                < usize::MAX,
        ensures
            final(self).loops_focused@ == counted(old(self).loops_focused@, entity),
            final(self).times_focused@ == old(self).times_focused@,
    {
        let next: usize = match self.loops_focused.get(&entity) {
            Some(count) => *count + 1,
            None => 1,
        };
        self.loops_focused.insert(entity, next);
    }
}

/// Whether `e` lists the entries of `m`: one pair of key and count per key, in some order.
pub open spec fn lists_counts(e: Seq<(u64, usize)>, m: Map<u64, usize>) -> bool {
    &&& e.len() == m.dom().len()
    &&& forall|i: int| 0 <= i < e.len() ==> m.contains_key(#[trigger] e[i].0) && m[e[i].0] == e[i].1
    &&& forall|i: int, j: int| 0 <= i < j < e.len() ==> #[trigger] e[i].0 != #[trigger] e[j].0
}

/// How an entity prints from its id bits: the index (low 32 bits), `v`, and the
/// generation (high 32 bits).
pub open spec fn entity_text(bits: u64) -> Seq<char> {
    decimal((bits % 0x1_0000_0000) as nat) + "v"@ + decimal((bits / 0x1_0000_0000) as nat)
}

/// The text of the entity with id bits `bits`.
fn entity_string(bits: u64) -> (r: String)
    ensures
        r@ == entity_text(bits),
{
    let mut s = decimal_string(bits % 0x1_0000_0000);
    s.append("v");
    let generation = decimal_string(bits / 0x1_0000_0000);
    s.append(generation.as_str());
    s
}

/// The entries `e` as `Debug` prints the entries of a map from entities to counts.
pub open spec fn count_parts(e: Seq<(u64, usize)>) -> Seq<Seq<char>> {
    e.map_values(|p: (u64, usize)| entry_text(entity_text(p.0), p.1 as nat))
}

/// A map of counts as `Debug` prints it, its entries in the map's iteration order.
fn counts_text(m: &HashMap<u64, usize>) -> (r: String)
    ensures
        exists|e: Seq<(u64, usize)>| #[trigger] lists_counts(e, m@) && r@ == braced(count_parts(e)),
{
    let mut text = String::new();
    let ghost prefix = text@;
    text.append("{");
    let iter = m.iter();
    let ghost rem = spec_hash_map_iter(m).remaining();
    let mut first = true;
    proof {
        assert(prefix + "{"@ + comma_joined(count_parts(rem.unref().take(0))) =~= text@);
    }
    for kv in it: iter
        invariant
            it.seq() == rem,
            rem.no_duplicates(),
            rem.len() == m@.dom().len(),
            first == (it.index() == 0),
            text@ == prefix + "{"@ + comma_joined(count_parts(rem.unref().take(it.index() as int))),
    {
        let (k, v) = kv;
        let ghost i = it.index() as int;
        proof {
            assert(rem.unref()[i] == (*k, *v));
            assert(count_parts(rem.unref().take(i + 1)) =~= count_parts(rem.unref().take(i)).push(
                entry_text(entity_text(*k), *v as nat),
            ));
        }
        let key = entity_string(*k);
        proof {
            lemma_entry_appended(prefix, count_parts(rem.unref().take(i)), key@, *v as nat);
        }
        append_entry(&mut text, first, key.as_str(), *v as u64);
        first = false;
    }
    text.append("}");
    proof {
        let e = rem.unref();
        assert(e.take(e.len() as int) =~= e);
        assert forall|i: int| 0 <= i < e.len() implies m@.contains_key(#[trigger] e[i].0) && m@[e[i].0]
            == e[i].1 by {
            assert(m@.contains_key(*rem[i].0));
        }
        assert forall|i: int, j: int| 0 <= i < j < e.len() implies #[trigger] e[i].0 != #[trigger] e[j].0 by {
            assert(m@.contains_key(*rem[i].0));
            assert(m@.contains_key(*rem[j].0));
            if e[i].0 == e[j].0 {
                assert(rem[i] == rem[j]);
            }
        }
        assert(lists_counts(e, m@));
        assert(text@ =~= braced(count_parts(e)));
    }
    text
}

impl Record for FocusRecorder {
    /// The core record as `Debug` prints it, then `:@times_focused:` and the focus counts
    /// as a map, then `:@loops_focused:` and the loop counts as a map; each map lists its
    /// entries in its iteration order.
    open spec fn records(&self, core: Seq<char>, text: Seq<char>) -> bool {
        exists|t: Seq<(u64, usize)>, l: Seq<(u64, usize)>|
            #[trigger] lists_counts(t, self.times_focused@) && #[trigger] lists_counts(
                l,
                self.loops_focused@,
            ) && text == str_debug_text(core) + ":@times_focused:"@ + braced(count_parts(t))
                + ":@loops_focused:"@ + braced(count_parts(l))
    }

    fn record(&self, core_record: String) -> (r: String) {
        let mut text = debug_text(core_record.as_str());
        text.append(":@times_focused:");
        let times = counts_text(&self.times_focused);
        text.append(times.as_str());
        text.append(":@loops_focused:");
        let loops = counts_text(&self.loops_focused);
        text.append(loops.as_str());
        proof {
            let t = choose|e: Seq<(u64, usize)>| #[trigger] lists_counts(e, self.times_focused@)
                && times@ == braced(count_parts(e));
            let l = choose|e: Seq<(u64, usize)>| #[trigger] lists_counts(e, self.loops_focused@)
                && loops@ == braced(count_parts(e));
            assert(text@ =~= str_debug_text(core_record@) + ":@times_focused:"@ + braced(
                count_parts(t),
            ) + ":@loops_focused:"@ + braced(count_parts(l)));
            assert(lists_counts(t, self.times_focused@) && lists_counts(l, self.loops_focused@));
        }
        text
    }
}

} // verus!
