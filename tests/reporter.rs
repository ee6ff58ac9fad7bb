use opaque_types::{decimal_string, report, Capabilities, Capability, LayoutEntry, TypeLayout};

#[allow(dead_code)]
struct Handle {
    a: u64,
    b: u64,
    c: u64,
}

#[allow(dead_code)]
struct Spread {
    a: u8,
    b: u64,
    c: u8,
}

#[allow(dead_code)]
struct Grouped {
    b: u64,
    a: u8,
    c: u8,
}

fn table() -> Vec<LayoutEntry> {
    let none = Capabilities::none();
    let unstable = none.with(Capability::Unstable);
    let shm = unstable.with(Capability::SharedMemory);
    vec![
        LayoutEntry::of::<Handle>("example_handle_t", none),
        LayoutEntry::of::<u32>("z_plain_t", none),
        LayoutEntry::of::<Option<Box<u8>>>("z_id_t", unstable),
        LayoutEntry::of::<Vec<u8>>("z_owned_shm_t", shm),
        LayoutEntry::of::<u16>("z_loaned_shm_t", shm),
        LayoutEntry::of::<u8>("z_tail_t", none),
    ]
}

fn lines_with(lines: &[String], name: &str) -> Vec<String> {
    lines.iter().filter(|l| l.contains(name)).cloned().collect()
}

#[test]
fn example_handle_line() {
    let lines = report(&table(), &Capabilities::all());
    let found = lines_with(&lines, "example_handle_t");
    assert_eq!(found, vec!["type: example_handle_t, align: 8, size: 24".to_string()]);
}

#[test]
fn gated_entry_absent_when_capability_disabled() {
    let lines = report(&table(), &Capabilities::none());
    assert!(lines_with(&lines, "z_id_t").is_empty());
    assert!(lines_with(&lines, "_shm_t").is_empty());
    assert_eq!(lines.len(), 3);
    let lines = report(&table(), &Capabilities::none().with(Capability::Unstable));
    assert_eq!(lines_with(&lines, "z_id_t").len(), 1);
    assert!(lines_with(&lines, "_shm_t").is_empty());
}

#[test]
fn shared_memory_alone_is_not_enough() {
    let active = Capabilities::none().with(Capability::SharedMemory);
    let lines = report(&table(), &active);
    assert!(lines_with(&lines, "_shm_t").is_empty());
    assert_eq!(lines.len(), 3);
}

#[test]
fn one_line_per_active_entry_in_table_order() {
    let lines = report(&table(), &Capabilities::all());
    assert_eq!(lines.len(), 6);
    let names = ["example_handle_t", "z_plain_t", "z_id_t", "z_owned_shm_t", "z_loaned_shm_t", "z_tail_t"];
    for (line, name) in lines.iter().zip(names.iter()) {
        assert!(line.starts_with(&format!("type: {}, align: ", name)));
        assert_eq!(lines.iter().filter(|l| l.starts_with(&format!("type: {},", name))).count(), 1);
    }
    assert_eq!(lines[1], "type: z_plain_t, align: 4, size: 4");
    assert_eq!(lines[4], "type: z_loaned_shm_t, align: 2, size: 2");
    assert_eq!(lines[5], "type: z_tail_t, align: 1, size: 1");
}

#[test]
fn report_is_deterministic() {
    let active = Capabilities::none().with(Capability::Unstable);
    let first = report(&table(), &active);
    let second = report(&table(), &active);
    assert_eq!(first.join("\n").into_bytes(), second.join("\n").into_bytes());
}

#[test]
fn disabling_a_capability_removes_exactly_its_entries() {
    let all = Capabilities::all();
    let full = report(&table(), &all);
    let without = report(&table(), &all.without(Capability::SharedMemory));
    let expected: Vec<String> = full.iter().filter(|l| !l.contains("_shm_t")).cloned().collect();
    assert_eq!(without, expected);
    let restored = report(&table(), &all.without(Capability::SharedMemory).with(Capability::SharedMemory));
    assert_eq!(restored, full);
}

#[test]
fn reported_size_is_the_measured_one() {
    let spread = TypeLayout::of::<Spread>();
    let grouped = TypeLayout::of::<Grouped>();
    assert_eq!(spread.size(), std::mem::size_of::<Spread>());
    assert_eq!(spread.align(), std::mem::align_of::<Spread>());
    assert_eq!(grouped.size(), std::mem::size_of::<Grouped>());
    assert_eq!(grouped.align(), std::mem::align_of::<Grouped>());
    let lines = report(
        &vec![LayoutEntry::of::<Spread>("z_spread_t", Capabilities::none())],
        &Capabilities::none(),
    );
    assert_eq!(
        lines,
        vec![format!(
            "type: z_spread_t, align: {}, size: {}",
            std::mem::align_of::<Spread>(),
            std::mem::size_of::<Spread>()
        )]
    );
}

#[test]
fn alignment_is_a_power_of_two_within_size() {
    let layouts = [
        TypeLayout::of::<u8>(),
        TypeLayout::of::<u64>(),
        TypeLayout::of::<Spread>(),
        TypeLayout::of::<Vec<String>>(),
        TypeLayout::of::<(u8, u16)>(),
        TypeLayout::of::<[u64; 0]>(),
        TypeLayout::of::<()>(),
    ];
    for l in layouts.iter() {
        assert!(l.align().is_power_of_two());
        assert!(l.size() == 0 || l.align() <= l.size());
        assert_eq!(l.size() % l.align(), 0);
    }
    let empty = TypeLayout::of::<[u64; 0]>();
    assert_eq!(empty.size(), 0);
    assert_eq!(empty.align(), 8);
}

#[test]
fn empty_table_reports_nothing() {
    assert!(report(&Vec::new(), &Capabilities::all()).is_empty());
}

#[test]
fn decimal_text() {
    assert_eq!(decimal_string(0), "0");
    assert_eq!(decimal_string(7), "7");
    assert_eq!(decimal_string(10), "10");
    assert_eq!(decimal_string(4096), "4096");
    assert_eq!(decimal_string(usize::MAX), usize::MAX.to_string());
}

#[test]
fn entry_line_text() {
    let e = LayoutEntry::new("z_owned_bytes_t", TypeLayout::of::<[u32; 10]>(), Capabilities::none());
    assert_eq!(e.line(), "type: z_owned_bytes_t, align: 4, size: 40");
    assert_eq!(e.public_name, "z_owned_bytes_t");
    assert!(e.is_active(&Capabilities::none()));
}

#[test]
fn capability_sets() {
    let none = Capabilities::none();
    let all = Capabilities::all();
    assert!(!none.contains(Capability::Unstable));
    assert!(all.contains(Capability::SharedMemory));
    let u = none.with(Capability::Unstable);
    assert!(u.contains(Capability::Unstable));
    assert!(!u.contains(Capability::SharedMemory));
    assert!(u.is_subset_of(&all));
    assert!(!all.is_subset_of(&u));
    assert!(none.is_subset_of(&none));
    assert_eq!(all.without(Capability::Unstable).without(Capability::SharedMemory), none);
}
