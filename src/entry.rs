use crate::capability::Capabilities;
use crate::capability::Capability;
use crate::decimal::{append_decimal, decimal};
use crate::layout::TypeLayout;
use vstd::prelude::*;
use vstd::string::StringExecFns;

verus! {

/// One declaration of the table: the public opaque-type name, the layout of
/// the internal type behind it, and the capabilities it is declared under
/// (none for an unconditional declaration).
#[derive(Debug)]
pub struct LayoutEntry {
    pub public_name: String,
    pub layout: TypeLayout,
    pub conditional_flags: Capabilities,
}

/// The text that opens every line.
pub open spec fn type_tag() -> Seq<char> {
    "type: "@
}

/// The line reported for a name and a layout:
/// `type: <name>, align: <align>, size: <size>`.
pub open spec fn line_of(name: Seq<char>, align: nat, size: nat) -> Seq<char> {
    type_tag() + name + ", align: "@ + decimal(align) + ", size: "@ + decimal(size)
}

/// The line reported for `e`.
pub open spec fn entry_line(e: LayoutEntry) -> Seq<char> {
    line_of(e.public_name@, e.layout.spec_align(), e.layout.spec_size())
}

/// Whether `e` exists when the capabilities in `active` are enabled: every
/// capability it is declared under is active.
pub open spec fn is_active(e: LayoutEntry, active: Set<Capability>) -> bool {
    e.conditional_flags@.subset_of(active)
}

impl LayoutEntry {
    /// An entry for `public_name`, backed by the measured `layout`.
    pub fn new(public_name: &str, layout: TypeLayout, conditional_flags: Capabilities) -> (r:
        LayoutEntry)
        ensures
            r.public_name@ == public_name@,
            r.layout == layout,
            r.conditional_flags == conditional_flags,
    {
        LayoutEntry { public_name: String::from_str(public_name), layout, conditional_flags }
    }

    /// An entry for `public_name`, backed by the internal type `T`.
    pub fn of<T>(public_name: &str, conditional_flags: Capabilities) -> (r: LayoutEntry)
        ensures
            r.public_name@ == public_name@,
            r.layout.spec_align() == vstd::layout::align_of::<T>(),
            r.layout.spec_size() == vstd::layout::size_of::<T>(),
            r.layout.wf(),
            r.conditional_flags == conditional_flags,
    {
        LayoutEntry::new(public_name, TypeLayout::of::<T>(), conditional_flags)
    }

    /// Whether the entry exists under the capabilities in `active`.
    pub fn is_active(&self, active: &Capabilities) -> (r: bool)
        ensures
            r == is_active(*self, active@),
    {
        self.conditional_flags.is_subset_of(active)
    }

    /// The reported line: `type: <name>, align: <align>, size: <size>`.
    pub fn line(&self) -> (r: String)
        ensures
            r@ == entry_line(*self),
    {
        let mut r = String::from_str("type: ");
        r.append(self.public_name.as_str());
        r.append(", align: ");
        append_decimal(&mut r, self.layout.align());
        r.append(", size: ");
        append_decimal(&mut r, self.layout.size());
        assert(r@ =~= entry_line(*self));
        r
    }
}

} // verus!
