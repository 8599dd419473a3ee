use ferro_vault::limits::CgroupLimits;

#[test]
fn default_cgroup_limits_match_documented_values() {
    let d = CgroupLimits::default();
    assert_eq!(d.memory_max_bytes, 256 * 1024 * 1024);
    assert_eq!(d.cpu_quota_us, 50_000);
    assert_eq!(d.cpu_period_us, 100_000);
    assert_eq!(d.pids_max, 32);
}

#[test]
fn cgroup_writes_has_expected_files_and_order() {
    let writes = CgroupLimits::default().cgroup_writes();
    let names: Vec<&str> = writes.iter().map(|(f, _)| *f).collect();
    assert_eq!(names, ["memory.max", "cpu.max", "pids.max"]);
}

#[test]
fn cpu_max_formats_quota_and_period_space_separated() {
    let limits = CgroupLimits {
        cpu_quota_us: 50_000,
        cpu_period_us: 100_000,
        ..CgroupLimits::default()
    };
    let (_, value) = &limits.cgroup_writes()[1];
    assert_eq!(value, "50000 100000");
}

#[test]
fn memory_max_and_pids_max_stringify_plainly() {
    let limits = CgroupLimits {
        memory_max_bytes: 268_435_456,
        pids_max: 32,
        ..CgroupLimits::default()
    };
    let writes = limits.cgroup_writes();
    assert_eq!(writes[0].1, "268435456");
    assert_eq!(writes[2].1, "32");
}

#[test]
fn cgroup_writes_cover_the_smallest_and_largest_values() {
    let limits = CgroupLimits {
        memory_max_bytes: 0,
        cpu_quota_us: u64::MAX,
        cpu_period_us: 10,
        pids_max: u32::MAX,
    };
    let writes = limits.cgroup_writes();
    assert_eq!(writes[0].1, "0");
    assert_eq!(writes[1].1, "18446744073709551615 10");
    assert_eq!(writes[2].1, "4294967295");
}

#[test]
fn different_limits_have_different_writes() {
    let a = CgroupLimits { cpu_quota_us: 1, cpu_period_us: 23, ..CgroupLimits::default() };
    let b = CgroupLimits { cpu_quota_us: 12, cpu_period_us: 3, ..CgroupLimits::default() };
    assert_ne!(a.cgroup_writes()[1].1, b.cgroup_writes()[1].1);
}
