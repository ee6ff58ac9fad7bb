//! Properties of the reporter as a whole.
use crate::capability::Capability;
use crate::entry::{entry_line, is_active, type_tag, LayoutEntry};
use crate::layout::TypeLayout;
use crate::report::{lemma_report_push, report_spec, texts};
use vstd::arithmetic::power2::is_pow2;
use vstd::prelude::*;

verus! {

broadcast use vstd::seq_lib::group_seq_properties;

/// The entries not declared under `c`.
pub open spec fn not_under(c: Capability) -> spec_fn(LayoutEntry) -> bool {
    |e: LayoutEntry| !e.conditional_flags@.contains(c)
}

/// A reported alignment is a power of two, and it exceeds the size only
/// when the size is zero.
pub proof fn lemma_alignment_bounds(l: TypeLayout)
    requires
        l.wf(),
    ensures
        is_pow2(l.spec_align() as int),
        l.spec_size() == 0 || l.spec_align() <= l.spec_size(),
{
    l.lemma_valid();
    if l.spec_size() > 0 && l.spec_align() > l.spec_size() {
        assert(l.spec_size() % l.spec_align() == l.spec_size()) by (nonlinear_arith)
            requires
                0 < l.spec_size() < l.spec_align(),
        ;
    }
}

/// Two runs of the reporter on the same table under the same capabilities
/// emit the same text.
pub proof fn lemma_report_deterministic(
    entries: Seq<LayoutEntry>,
    active: Set<Capability>,
    first: Seq<String>,
    second: Seq<String>,
)
    requires
        texts(first) == report_spec(entries, active),
        texts(second) == report_spec(entries, active),
    ensures
        texts(first) == texts(second),
        first.len() == second.len(),
        forall|i: int| 0 <= i < first.len() ==> #[trigger] first[i]@ == second[i]@,
{
    assert(texts(first).len() == first.len());
    assert(texts(second).len() == second.len());
    assert forall|i: int| 0 <= i < first.len() implies #[trigger] first[i]@ == second[i]@ by {
        assert(texts(first)[i] == first[i]@);
        assert(texts(second)[i] == second[i]@);
    }
}

/// Disabling the capability `c` removes from the report exactly the lines of
/// the entries declared under `c`, and no other.
pub proof fn lemma_disable_capability(
    entries: Seq<LayoutEntry>,
    active: Set<Capability>,
    c: Capability,
)
    ensures
        report_spec(entries, active.remove(c)) == report_spec(
            entries.filter(not_under(c)),
            active,
        ),
    decreases entries.len(),
{
    if entries.len() == 0 {
        assert(entries.filter(not_under(c)) =~= Seq::<LayoutEntry>::empty()) by {
            reveal(Seq::filter);
        }
    } else {
        let prefix = entries.drop_last();
        let e = entries.last();
        assert(entries =~= prefix.push(e));
        lemma_disable_capability(prefix, active, c);
        lemma_report_push(prefix, e, active.remove(c));
        prefix.lemma_filter_push(e, not_under(c));
        lemma_report_push(prefix.filter(not_under(c)), e, active);
        assert(is_active(e, active.remove(c)) == (is_active(e, active) && !e.conditional_flags@.contains(c)));
    }
}

/// Enabling the capability `c` adds to the report exactly the lines of the
/// entries declared under `c`: without them, the table reports the same
/// lines with `c` enabled as the whole table does with `c` disabled.
pub proof fn lemma_enable_capability(
    entries: Seq<LayoutEntry>,
    active: Set<Capability>,
    c: Capability,
)
    requires
        !active.contains(c),
    ensures
        report_spec(entries, active) == report_spec(
            entries.filter(not_under(c)),
            active.insert(c),
        ),
{
    assert(active.insert(c).remove(c) =~= active);
    lemma_disable_capability(entries, active.insert(c), c);
}

/// Whether `s` holds no comma.
pub open spec fn comma_free(s: Seq<char>) -> bool {
    forall|i: int| 0 <= i < s.len() ==> s[i] != ','
}

/// Whether the name field of `line`, the text between the opening tag and
/// the first comma, is `name`.
pub open spec fn names(line: Seq<char>, name: Seq<char>) -> bool {
    let end = type_tag().len() + name.len();
    end < line.len() && line.subrange(0, end as int) == type_tag() + name && line[end as int]
        == ','
}

/// The test that keeps the lines whose name field is `name`.
pub open spec fn naming(name: Seq<char>) -> spec_fn(Seq<char>) -> bool {
    |line: Seq<char>| names(line, name)
}

/// Whether the names of `entries` are pairwise distinct and free of commas.
pub open spec fn distinct_plain_names(entries: Seq<LayoutEntry>) -> bool {
    &&& forall|j: int| 0 <= j < entries.len() ==> comma_free(#[trigger] entries[j].public_name@)
    &&& forall|j: int, k: int|
        0 <= j < entries.len() && 0 <= k < entries.len() && j != k
            ==> #[trigger] entries[j].public_name@ != #[trigger] entries[k].public_name@
}

/// For names free of commas, the name field of an entry's line is its name.
proof fn lemma_line_names(e: LayoutEntry, name: Seq<char>)
    requires
        comma_free(e.public_name@),
        comma_free(name),
    ensures
        names(entry_line(e), name) == (e.public_name@ == name),
{
    let own = e.public_name@;
    let line = entry_line(e);
    let tag = type_tag();
    let t = tag.len() as int;
    let o = own.len() as int;
    let m = name.len() as int;
    reveal_strlit(", align: ");
    assert(line[t + o] == ',');
    if own == name {
        assert(line.subrange(0, t + m) =~= tag + name);
    } else if names(line, name) {
        if m < o {
            assert(line[t + m] == own[m]);
        } else if m > o {
            assert(line.subrange(0, t + m)[t + o] == ',');
            assert((tag + name)[t + o] == name[o]);
        } else {
            assert forall|k: int| 0 <= k < o implies own[k] == name[k] by {
                assert(line.subrange(0, t + m)[t + k] == line[t + k]);
                assert((tag + name)[t + k] == name[k]);
            }
            assert(own =~= name);
        }
    }
}

/// Over the first `k` entries, the lines named after entry `i` are its own
/// line, once, if it is among them and active, and none otherwise.
proof fn lemma_naming_prefix(
    entries: Seq<LayoutEntry>,
    active: Set<Capability>,
    i: int,
    k: int,
)
    requires
        distinct_plain_names(entries),
        0 <= i < entries.len(),
        0 <= k <= entries.len(),
    ensures
        report_spec(entries.take(k), active).filter(naming(entries[i].public_name@)) == if k > i
            && is_active(entries[i], active) {
            seq![entry_line(entries[i])]
        } else {
            Seq::<Seq<char>>::empty()
        },
    decreases k,
{
    let name = entries[i].public_name@;
    if k == 0 {
        assert(entries.take(0) =~= Seq::<LayoutEntry>::empty());
        assert(Seq::<LayoutEntry>::empty().filter(
            crate::report::active_under(active),
        ) =~= Seq::<LayoutEntry>::empty()) by {
            reveal(Seq::filter);
        }
        assert(report_spec(entries.take(0), active) =~= Seq::<Seq<char>>::empty());
        assert(Seq::<Seq<char>>::empty().filter(naming(name)) =~= Seq::<Seq<char>>::empty()) by {
            reveal(Seq::filter);
        }
    } else {
        let e = entries[k - 1];
        let before = entries.take(k - 1);
        assert(entries.take(k) =~= before.push(e));
        lemma_naming_prefix(entries, active, i, k - 1);
        lemma_report_push(before, e, active);
        lemma_line_names(e, name);
        if is_active(e, active) {
            report_spec(before, active).lemma_filter_push(entry_line(e), naming(name));
        }
        if k - 1 == i {
            assert(Seq::<Seq<char>>::empty().push(entry_line(e)) =~= seq![entry_line(e)]);
        }
    }
}

/// Where the table's names are distinct and free of commas, the report holds
/// exactly one line named after each active entry, and that line is the
/// entry's own `type: <name>, align: <align>, size: <size>`; it holds no line
/// named after an inactive entry.
pub proof fn lemma_one_line_per_active_entry(
    entries: Seq<LayoutEntry>,
    active: Set<Capability>,
    i: int,
)
    requires
        distinct_plain_names(entries),
        0 <= i < entries.len(),
    ensures
        report_spec(entries, active).filter(naming(entries[i].public_name@)) == if is_active(
            entries[i],
            active,
        ) {
            seq![entry_line(entries[i])]
        } else {
            Seq::<Seq<char>>::empty()
        },
{
    lemma_naming_prefix(entries, active, i, entries.len() as int);
    assert(entries.take(entries.len() as int) =~= entries);
}

} // verus!
