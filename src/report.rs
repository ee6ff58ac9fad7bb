use crate::capability::{Capabilities, Capability};
use crate::entry::{entry_line, is_active, LayoutEntry};
use vstd::prelude::*;

verus! {

broadcast use vstd::seq_lib::group_seq_properties;

/// The test that keeps the entries active under `active`.
pub open spec fn active_under(active: Set<Capability>) -> spec_fn(LayoutEntry) -> bool {
    |e: LayoutEntry| is_active(e, active)
}

/// The rendering of an entry as its line.
pub open spec fn render() -> spec_fn(LayoutEntry) -> Seq<char> {
    |e: LayoutEntry| entry_line(e)
}

/// What the reporter emits for `entries` under `active`: the line of every
/// active entry, in table order, and nothing else.
pub open spec fn report_spec(entries: Seq<LayoutEntry>, active: Set<Capability>) -> Seq<Seq<char>> {
    entries.filter(active_under(active)).map_values(render())
}

/// The text of each string.
pub open spec fn texts(lines: Seq<String>) -> Seq<Seq<char>> {
    lines.map_values(|s: String| s@)
}

/// Appending an entry to the table appends its line to the report when it is
/// active, and changes nothing otherwise.
pub proof fn lemma_report_push(entries: Seq<LayoutEntry>, e: LayoutEntry, active: Set<Capability>)
    ensures
        report_spec(entries.push(e), active) == if is_active(e, active) {
            report_spec(entries, active).push(entry_line(e))
        } else {
            report_spec(entries, active)
        },
{
    entries.lemma_filter_push(e, active_under(active));
    entries.filter(active_under(active)).lemma_push_map_commute(render(), e);
}

/// Runs the reporter over `entries` with the capabilities in `active`
/// enabled: one line per active entry, in table order.
pub fn report(entries: &Vec<LayoutEntry>, active: &Capabilities) -> (lines: Vec<String>)
    ensures
        texts(lines@) == report_spec(entries@, active@),
{
    let mut lines: Vec<String> = Vec::new();
    let mut i: usize = 0;
    while i < entries.len()
        invariant
            0 <= i <= entries.len(),
            texts(lines@) == report_spec(entries@.take(i as int), active@),
        decreases entries.len() - i,
    {
        let e = &entries[i];
        proof {
            lemma_report_push(entries@.take(i as int), *e, active@);
            assert(entries@.take(i + 1) =~= entries@.take(i as int).push(*e));
        }
        if e.is_active(active) {
            let l = e.line();
            let ghost before = lines@;
            lines.push(l);
            assert(texts(lines@) =~= texts(before).push(l@));
        }
        i += 1;
    }
    assert(entries@.take(entries.len() as int) =~= entries@);
    lines
}

} // verus!
