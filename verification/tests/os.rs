use html_panel::os::{
    Components, CpuSnapshot, Disk, DiskSnapshot, Disks, Kernel, Memory, Swap, SystemSnapshot,
    CPU, CPUS,
};

fn snapshot(name: Option<&str>, disks: &[(&str, u64, u64)], cpus: &[(&str, u64)]) -> SystemSnapshot {
    SystemSnapshot {
        total_memory: 16_000,
        used_memory: 6_000,
        available_memory: 9_000,
        free_memory: 8_000,
        total_swap: 2_000,
        used_swap: 500,
        free_swap: 1_500,
        disks: disks
            .iter()
            .map(|(n, t, a)| DiskSnapshot { name: n.to_string(), total_space: *t, available_space: *a })
            .collect(),
        name: name.map(|n| n.to_string()),
        uptime: 3_600,
        boot_time: 1_700_000_000,
        cpus: cpus
            .iter()
            .map(|(n, f)| CpuSnapshot { name: n.to_string(), frequency: *f })
            .collect(),
    }
}

#[test]
fn memory_reads_the_four_counters() {
    let sys = snapshot(None, &[], &[]);
    let m = Memory::new(&sys);
    assert_eq!((m.total, m.used, m.available, m.free), (16_000, 6_000, 9_000, 8_000));
    let d = Memory::default();
    assert_eq!((d.total, d.used, d.available, d.free), (0, 0, 0, 0));
}

#[test]
fn swap_reads_the_three_counters() {
    let sys = snapshot(None, &[], &[]);
    let s = Swap::new(&sys);
    assert_eq!((s.total, s.used, s.free), (2_000, 500, 1_500));
}

#[test]
fn disk_copies_snapshot() {
    let d = Disk::new(&DiskSnapshot { name: String::from("sda1"), total_space: 100, available_space: 40 });
    assert_eq!((d.name.as_str(), d.total, d.available), ("sda1", 100, 40));
}

#[test]
fn disks_read_replaces_list() {
    let mut disks = Disks::new(&snapshot(None, &[("a", 1, 1), ("b", 2, 2), ("c", 3, 3)], &[]));
    assert_eq!(disks.0.len(), 3);
    disks.read(&snapshot(None, &[("z", 9, 8)], &[]));
    assert_eq!(disks.0.len(), 1);
    assert_eq!((disks.0[0].name.as_str(), disks.0[0].total, disks.0[0].available), ("z", 9, 8));
    disks.read(&snapshot(None, &[], &[]));
    assert!(disks.0.is_empty());
}

#[test]
fn kernel_name_falls_back() {
    let k = Kernel::new(&snapshot(None, &[], &[]));
    assert_eq!(k.name, "No Name Found");
    assert_eq!((k.uptime, k.boot_time), (3_600, 1_700_000_000));
    let k = Kernel::new(&snapshot(Some("Linux"), &[], &[]));
    assert_eq!(k.name, "Linux");
}

#[test]
fn cpus_keep_order() {
    let cpus = CPUS::new(&snapshot(None, &[], &[("cpu0", 2_400), ("cpu1", 3_100)]));
    let views: Vec<(&str, u64)> = cpus.0.iter().map(|c| (c.name.as_str(), c.frequency)).collect();
    assert_eq!(views, vec![("cpu0", 2_400), ("cpu1", 3_100)]);
    let one = CPU::new(&CpuSnapshot { name: String::from("x"), frequency: 1 });
    assert_eq!((one.name.as_str(), one.frequency), ("x", 1));
}

#[test]
fn components_read_matches_new() {
    let first = snapshot(Some("Linux"), &[("a", 1, 1)], &[("cpu0", 1)]);
    let second = snapshot(None, &[("b", 5, 4), ("c", 7, 6)], &[]);
    let mut comp = Components::new(&first);
    comp.read(&second);
    let fresh = Components::new(&second);
    assert_eq!(comp.kernel.name, fresh.kernel.name);
    assert_eq!(comp.kernel.name, "No Name Found");
    assert_eq!(comp.disks.0.len(), fresh.disks.0.len());
    assert_eq!(comp.disks.0[1].name, "c");
    assert!(comp.cpus.0.is_empty());
    assert_eq!(comp.mem.total, fresh.mem.total);
    assert_eq!(comp.swap.free, fresh.swap.free);
}

#[test]
fn components_default_is_zero() {
    let comp = Components::default();
    assert_eq!(comp.mem.total, 0);
    assert!(comp.disks.0.is_empty());
    assert_eq!(comp.kernel.name, "");
}
