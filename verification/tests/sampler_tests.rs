use system_monitor::CpuSampler;
use system_monitor::GpuReadings;
use system_monitor::GpuSampler;
use system_monitor::MemoryReading;
use system_monitor::RawValue;

#[test]
fn four_core_average_is_twenty_five() {
    let mut s = CpuSampler::new(4, 3);
    let readings = vec![
        RawValue::Finite(10_000),
        RawValue::Finite(20_000),
        RawValue::Finite(30_000),
        RawValue::Finite(40_000),
    ];
    let snap = s.tick(&readings, 0, 0);
    let avg = snap.average_values();
    assert_eq!(avg, vec![0, 0, 25_000]);
}

#[test]
fn average_truncates_fixed_point() {
    let mut s = CpuSampler::new(3, 2);
    let readings = vec![
        RawValue::Finite(10_000),
        RawValue::Finite(10_000),
        RawValue::Finite(10_001),
    ];
    let snap = s.tick(&readings, 0, 0);
    assert_eq!(*snap.average_values().last().unwrap(), 10_000);
}

#[test]
fn average_clamps_each_core_before_summing() {
    let mut s = CpuSampler::new(2, 2);
    let readings = vec![RawValue::Finite(300_000), RawValue::NonFinite];
    let snap = s.tick(&readings, 0, 0);
    // 300% clamps to 100%, NaN to 0%: average 50%.
    assert_eq!(*snap.average_values().last().unwrap(), 50_000);
    let cores = snap.cores();
    assert_eq!(cores, 2);
    assert_eq!(*snap.core_values(0).last().unwrap(), 100_000);
    assert_eq!(*snap.core_values(1).last().unwrap(), 0);
}

#[test]
fn memory_zero_total_stores_zero() {
    let mut s = CpuSampler::new(1, 2);
    let readings = vec![RawValue::Finite(0)];
    let snap = s.tick(&readings, 512 * 1024 * 1024, 0);
    assert_eq!(*snap.memory_values().last().unwrap(), 0);
    assert_eq!(snap.used_memory_bytes, 512 * 1024 * 1024);
    assert_eq!(snap.total_memory_bytes, 0);
}

#[test]
fn memory_percentage_stored_per_tick() {
    let mut s = CpuSampler::new(1, 3);
    let readings = vec![RawValue::Finite(0)];
    let snap = s.tick(&readings, 1, 4);
    assert_eq!(snap.memory_values(), vec![0, 0, 25_000]);
}

#[test]
fn per_core_windows_advance_in_publish_order() {
    let mut s = CpuSampler::new(2, 3);
    for v in 1..=4u64 {
        let readings = vec![
            RawValue::Finite((v * 1000) as i64),
            RawValue::Finite((v * 2000) as i64),
        ];
        s.tick(&readings, 0, 1);
    }
    let snap = s.publish(0, 1);
    assert_eq!(snap.core_values(0), vec![2_000, 3_000, 4_000]);
    assert_eq!(snap.core_values(1), vec![4_000, 6_000, 8_000]);
}

fn gpu_sampler() -> GpuSampler {
    GpuSampler::new(1, 3, 3000, "NVIDIA".to_string(), "Test GPU".to_string())
}

#[test]
fn fan_rpm_is_stored_as_percentage_of_max() {
    let mut s = gpu_sampler();
    let readings = GpuReadings {
        temperature: Some(40_000),
        fan_rpm: vec![Some(1500)],
        memory: Some(MemoryReading { used: 1, total: 2 }),
    };
    let snap = s.tick(&readings).expect("memory query succeeded");
    assert_eq!(*snap.fan_values(0).last().unwrap(), 50_000);
}

#[test]
fn snapshot_published_exactly_when_memory_query_succeeds() {
    let mut s = gpu_sampler();
    let failed = GpuReadings {
        temperature: Some(40_000),
        fan_rpm: vec![Some(1500)],
        memory: None,
    };
    assert!(s.tick(&failed).is_none());
    let ok = GpuReadings {
        temperature: None,
        fan_rpm: vec![None],
        memory: Some(MemoryReading { used: 3, total: 4 }),
    };
    assert!(s.tick(&ok).is_some());
}

#[test]
fn failed_metric_retains_stale_value_while_others_advance() {
    let mut s = gpu_sampler();
    let first = GpuReadings {
        temperature: Some(55_000),
        fan_rpm: vec![Some(600)],
        memory: Some(MemoryReading { used: 1, total: 4 }),
    };
    let snap1 = s.tick(&first).unwrap();
    assert_eq!(*snap1.temperature_values().last().unwrap(), 55_000);
    assert_eq!(*snap1.fan_values(0).last().unwrap(), 20_000);
    assert_eq!(*snap1.vram_values().last().unwrap(), 25_000);

    // Tick t: the temperature query fails; everything else advances.
    let second = GpuReadings {
        temperature: None,
        fan_rpm: vec![Some(1500)],
        memory: Some(MemoryReading { used: 2, total: 4 }),
    };
    let snap2 = s.tick(&second).unwrap();
    assert_eq!(*snap2.temperature_values().last().unwrap(), 55_000);
    assert_eq!(*snap2.fan_values(0).last().unwrap(), 50_000);
    assert_eq!(*snap2.vram_values().last().unwrap(), 50_000);
    // The stalled series kept its whole window, not just its newest sample.
    assert_eq!(snap2.temperature_values(), snap1.temperature_values());
}

#[test]
fn vram_zero_total_stores_zero() {
    let mut s = gpu_sampler();
    let readings = GpuReadings {
        temperature: None,
        fan_rpm: vec![None],
        memory: Some(MemoryReading { used: 123, total: 0 }),
    };
    let snap = s.tick(&readings).unwrap();
    assert_eq!(*snap.vram_values().last().unwrap(), 0);
    assert_eq!(snap.used_vram_bytes, 123);
    assert_eq!(snap.total_vram_bytes, 0);
}

#[test]
fn fan_count_zero_is_allowed() {
    let mut s = GpuSampler::new(0, 2, 3000, "b".to_string(), "n".to_string());
    assert_eq!(s.fans(), 0);
    let readings = GpuReadings {
        temperature: Some(30_000),
        fan_rpm: vec![],
        memory: Some(MemoryReading { used: 0, total: 1 }),
    };
    let snap = s.tick(&readings).unwrap();
    assert_eq!(snap.fans(), 0);
}

#[test]
fn newest_vram_is_the_last_stored_sample() {
    let mut s = gpu_sampler();
    let readings = GpuReadings {
        temperature: None,
        fan_rpm: vec![None],
        memory: Some(MemoryReading { used: 3, total: 4 }),
    };
    let snap = s.tick(&readings).unwrap();
    assert_eq!(snap.newest_vram(), 75_000);
    assert_eq!(snap.newest_vram(), *snap.vram_values().last().unwrap());
}

#[test]
fn full_scale_is_one_hundred_milli_units() {
    assert_eq!(system_monitor::FULL_PERCENT, 100 * system_monitor::MILLI);
}

#[test]
fn snapshot_carries_identity_strings() {
    let s = gpu_sampler();
    let snap = s.publish(0, 0);
    assert_eq!(snap.brand, "NVIDIA");
    assert_eq!(snap.name, "Test GPU");
}
