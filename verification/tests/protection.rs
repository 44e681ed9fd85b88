use k66_mpu::mpu::{
    decode_permissions, encode_permissions, K66Config, K66ConfigRegion, K66Mpu, Permissions,
    Region,
};

fn occupied_slots(config: &K66Config) -> usize {
    let mut n = 0;
    for i in 0..11 {
        if config.regions[i].location().is_some() {
            n += 1;
        }
    }
    n
}

#[test]
fn permission_codes_are_the_closed_mapping() {
    assert_eq!(encode_permissions(Permissions::ReadWriteExecute), 0b111);
    assert_eq!(encode_permissions(Permissions::ReadWriteOnly), 0b110);
    assert_eq!(encode_permissions(Permissions::ReadExecuteOnly), 0b101);
    assert_eq!(encode_permissions(Permissions::ReadOnly), 0b100);
    assert_eq!(encode_permissions(Permissions::ExecuteOnly), 0b001);
}

#[test]
fn permission_round_trip_all_five() {
    let all = [
        Permissions::ReadWriteExecute,
        Permissions::ReadWriteOnly,
        Permissions::ReadExecuteOnly,
        Permissions::ReadOnly,
        Permissions::ExecuteOnly,
    ];
    for p in all {
        assert_eq!(decode_permissions(encode_permissions(p)), Some(p));
    }
}

#[test]
fn permission_decode_rejects_unused_codes() {
    for code in [0b000u32, 0b010, 0b011, 0b1000, 0xFFFF_FFFF] {
        assert_eq!(decode_permissions(code), None);
    }
}

#[test]
fn region_handle_reports_start_and_size() {
    let r = Region::new(0x2000_0000, 4096);
    assert_eq!(r.start_address(), 0x2000_0000);
    assert_eq!(r.size(), 4096);
}

#[test]
fn descriptor_packs_its_words() {
    let d = K66ConfigRegion::new(0x1000, 0x1040, Permissions::ReadOnly, true);
    assert_eq!(d.location(), Some((0x1000, 0x1040)));
    assert_eq!(d.base_address(), 0x1000);
    assert_eq!(d.end_address(), 0x1040);
    assert!(d.supervisor_as_user());
    assert_eq!(d.user_permissions(), Permissions::ReadOnly);
    assert_eq!(d.rgd_word0.value, 0x1000);
    assert_eq!(d.rgd_word1.value, 0x1040);
    assert_eq!(d.rgd_word2.value, 0b100 | 0x18);
    assert_eq!(d.rgd_word3.value, 1);
}

#[test]
fn empty_descriptor_is_all_clear() {
    let d = K66ConfigRegion::empty();
    assert_eq!(d.location(), None);
    assert_eq!(d.base_address(), 0);
    assert_eq!(d.end_address(), 0);
    assert_eq!(d.user_permissions(), Permissions::ReadOnly);
    assert!(!d.supervisor_as_user());
    assert_eq!(d.rgd_word0.value, 0);
    assert_eq!(d.rgd_word1.value, 0);
    assert_eq!(d.rgd_word2.value, 0);
    assert_eq!(d.rgd_word3.value, 0);
    assert!(!d.overlaps(0, 0xFFFF_FFFF));
}

#[test]
fn descriptor_overlap_is_the_byte_range() {
    // The descriptor covers [0x1000, 0x1060): its last granule starts
    // at 0x1040.
    let d = K66ConfigRegion::new(0x1000, 0x1040, Permissions::ReadOnly, false);
    assert!(d.overlaps(0x1040, 32));
    assert!(d.overlaps(0x0FE0, 64));
    assert!(!d.overlaps(0x1060, 32));
    assert!(!d.overlaps(0x0FE0, 32));
}

#[test]
fn fresh_config_is_all_unused() {
    let config = K66Config::default();
    assert_eq!(occupied_slots(&config), 0);
    assert_eq!(config.unused_region_number(), Some(1));
    assert_eq!(config.app_memory_min_size, 0);
}

#[test]
fn mpu_reports_eleven_usable_regions() {
    let mpu = K66Mpu::new();
    assert_eq!(mpu.number_total_regions(), 11);
}

#[test]
fn allocate_aligned_span_succeeds() {
    let mpu = K66Mpu::new();
    let mut config = K66Config::new();
    let r = mpu.allocate_region(0x2000_0000, 1024, 1024, Permissions::ReadWriteOnly, &mut config);
    let region = r.expect("an aligned span in an empty configuration must be granted");
    assert_eq!(region.start_address(), 0x2000_0000);
    assert_eq!(region.size(), 1024);
    assert_eq!(occupied_slots(&config), 1);
    assert_eq!(config.regions[1].location(), Some((0x2000_0000, 0x2000_03E0)));
    assert_eq!(config.regions[1].user_permissions(), Permissions::ReadWriteOnly);
    assert!(!config.regions[1].supervisor_as_user());
}

#[test]
fn allocated_region_is_granule_aligned() {
    let mpu = K66Mpu::new();
    let mut config = K66Config::new();
    let r = mpu.allocate_region(0x0001_FFE0, 224, 32, Permissions::ExecuteOnly, &mut config);
    let region = r.unwrap();
    assert_eq!(region.start_address() % 32, 0);
    assert_eq!((region.start_address() as usize + region.size()) % 32, 0);
    assert_eq!(config.regions[1].base_address() % 32, 0);
    assert_eq!(config.regions[1].end_address() % 32, 0);
}

#[test]
fn allocate_misaligned_start_fails() {
    let mpu = K66Mpu::new();
    let mut config = K66Config::new();
    let r = mpu.allocate_region(0x2000_0001, 1024, 1024, Permissions::ReadOnly, &mut config);
    assert!(r.is_none());
    assert_eq!(occupied_slots(&config), 0);
}

#[test]
fn allocate_misaligned_size_fails() {
    let mpu = K66Mpu::new();
    let mut config = K66Config::new();
    let r = mpu.allocate_region(0x2000_0000, 100, 100, Permissions::ReadOnly, &mut config);
    assert!(r.is_none());
    assert_eq!(occupied_slots(&config), 0);
}

#[test]
fn allocate_empty_span_fails() {
    let mpu = K66Mpu::new();
    let mut config = K66Config::new();
    let r = mpu.allocate_region(0x2000_0000, 0, 0, Permissions::ReadOnly, &mut config);
    assert!(r.is_none());
    assert_eq!(occupied_slots(&config), 0);
}

#[test]
fn allocate_two_disjoint_spans() {
    let mpu = K66Mpu::new();
    let mut config = K66Config::new();
    let a = mpu.allocate_region(0x2000_0000, 32, 32, Permissions::ReadWriteOnly, &mut config);
    let b = mpu.allocate_region(0x2000_1000, 32, 32, Permissions::ReadOnly, &mut config);
    assert!(a.is_some());
    assert!(b.is_some());
    assert_eq!(occupied_slots(&config), 2);
    assert_eq!(config.regions[1].location(), Some((0x2000_0000, 0x2000_0000)));
    assert_eq!(config.regions[2].location(), Some((0x2000_1000, 0x2000_1000)));
}

#[test]
fn allocate_overlapping_span_fails() {
    let mpu = K66Mpu::new();
    let mut config = K66Config::new();
    let a = mpu.allocate_region(0x2000_0000, 1024, 1024, Permissions::ReadWriteOnly, &mut config);
    assert!(a.is_some());
    // A free slot exists, but the span intersects the granted range.
    let b = mpu.allocate_region(0x2000_0200, 64, 64, Permissions::ReadOnly, &mut config);
    assert!(b.is_none());
    assert_eq!(occupied_slots(&config), 1);
}

#[test]
fn allocate_adjacent_span_succeeds() {
    let mpu = K66Mpu::new();
    let mut config = K66Config::new();
    let a = mpu.allocate_region(0x2000_0000, 1024, 1024, Permissions::ReadWriteOnly, &mut config);
    assert!(a.is_some());
    // Starts exactly where the first region ends: no overlap.
    let b = mpu.allocate_region(0x2000_0400, 1024, 1024, Permissions::ReadOnly, &mut config);
    assert!(b.is_some());
    assert_eq!(occupied_slots(&config), 2);
}

#[test]
fn allocate_when_all_slots_occupied_fails() {
    let mpu = K66Mpu::new();
    let mut config = K66Config::new();
    // The app-memory region takes the reserved slot; ten more grants
    // fill every allocatable slot, for eleven occupied in all.
    let app = mpu.allocate_app_memory_region(
        0x1000_0000,
        4096,
        2048,
        1024,
        256,
        Permissions::ReadWriteOnly,
        &mut config,
    );
    assert!(app.is_some());
    for i in 0..10u32 {
        let r = mpu.allocate_region(
            0x2000_0000 + i * 0x1000,
            32,
            32,
            Permissions::ReadOnly,
            &mut config,
        );
        assert!(r.is_some());
    }
    assert_eq!(occupied_slots(&config), 11);
    let r = mpu.allocate_region(0x3000_0000, 32, 32, Permissions::ReadOnly, &mut config);
    assert!(r.is_none());
}

#[test]
fn allocator_never_takes_the_app_memory_slot() {
    let mpu = K66Mpu::new();
    let mut config = K66Config::new();
    for i in 0..10u32 {
        let r = mpu.allocate_region(
            0x2000_0000 + i * 0x1000,
            32,
            32,
            Permissions::ReadOnly,
            &mut config,
        );
        assert!(r.is_some());
    }
    assert!(config.regions[0].location().is_none());
    let r = mpu.allocate_region(0x3000_0000, 32, 32, Permissions::ReadOnly, &mut config);
    assert!(r.is_none());
}

#[test]
fn occupied_regions_stay_disjoint() {
    let mpu = K66Mpu::new();
    let mut config = K66Config::new();
    let spans = [
        (0x2000_0000u32, 1024usize),
        (0x2000_0400, 32),
        (0x2001_0000, 2048),
    ];
    for (start, size) in spans {
        assert!(mpu
            .allocate_region(start, size, size, Permissions::ReadOnly, &mut config)
            .is_some());
    }
    for i in 0..11 {
        for j in 0..11 {
            if i != j {
                if let (Some((s1, e1)), Some((s2, e2))) =
                    (config.regions[i].location(), config.regions[j].location())
                {
                    assert!(e1 + 32 <= s2 || e2 + 32 <= s1);
                }
            }
        }
    }
}

#[test]
fn app_memory_region_takes_the_reserved_slot() {
    let mpu = K66Mpu::new();
    let mut config = K66Config::new();
    let r = mpu.allocate_app_memory_region(
        0x2000_0000,
        4096,
        2048,
        1024,
        256,
        Permissions::ReadWriteOnly,
        &mut config,
    );
    // The block is the larger of the minimum and the two initial
    // parts, rounded to granules.
    assert_eq!(r, Some((0x2000_0000, 2048)));
    assert_eq!(config.regions[0].location(), Some((0x2000_0000, 0x2000_03E0)));
    assert_eq!(config.regions[0].user_permissions(), Permissions::ReadWriteOnly);
    assert_eq!(config.app_memory_min_size, 2048);
    assert_eq!(occupied_slots(&config), 1);
}

#[test]
fn app_memory_region_with_empty_app_part() {
    let mpu = K66Mpu::new();
    let mut config = K66Config::new();
    let r = mpu.allocate_app_memory_region(
        0x1000_0000,
        4096,
        128,
        0,
        64,
        Permissions::ReadOnly,
        &mut config,
    );
    // The protected region still covers one granule.
    assert_eq!(r, Some((0x1000_0000, 128)));
    assert_eq!(config.regions[0].location(), Some((0x1000_0000, 0x1000_0000)));
}

#[test]
fn app_memory_region_cannot_be_established_twice() {
    let mpu = K66Mpu::new();
    let mut config = K66Config::new();
    let first = mpu.allocate_app_memory_region(
        0x2000_0000,
        4096,
        2048,
        1024,
        256,
        Permissions::ReadWriteOnly,
        &mut config,
    );
    assert!(first.is_some());
    let second = mpu.allocate_app_memory_region(
        0x3000_0000,
        4096,
        2048,
        1024,
        256,
        Permissions::ReadWriteOnly,
        &mut config,
    );
    assert!(second.is_none());
}

#[test]
fn app_memory_region_misaligned_or_too_small_fails() {
    let mpu = K66Mpu::new();
    let mut config = K66Config::new();
    let misaligned = mpu.allocate_app_memory_region(
        0x2000_0010,
        4096,
        2048,
        1024,
        256,
        Permissions::ReadWriteOnly,
        &mut config,
    );
    assert!(misaligned.is_none());
    let too_small = mpu.allocate_app_memory_region(
        0x2000_0000,
        1024,
        2048,
        1024,
        256,
        Permissions::ReadWriteOnly,
        &mut config,
    );
    assert!(too_small.is_none());
    assert_eq!(occupied_slots(&config), 0);
}

#[test]
fn update_grows_the_app_memory_region() {
    let mpu = K66Mpu::new();
    let mut config = K66Config::new();
    mpu.allocate_app_memory_region(
        0x2000_0000,
        4096,
        2048,
        2048,
        512,
        Permissions::ReadWriteOnly,
        &mut config,
    )
    .unwrap();
    let r = mpu.update_app_memory_region(
        0x2000_0C00,
        0x2000_0E00,
        Permissions::ReadWriteOnly,
        &mut config,
    );
    assert_eq!(r, Ok(()));
    assert_eq!(config.regions[0].location(), Some((0x2000_0000, 0x2000_0BE0)));
}

#[test]
fn update_shrink_below_minimum_fails() {
    let mpu = K66Mpu::new();
    let mut config = K66Config::new();
    mpu.allocate_app_memory_region(
        0x2000_0000,
        4096,
        2048,
        2048,
        512,
        Permissions::ReadWriteOnly,
        &mut config,
    )
    .unwrap();
    // A break only 1024 bytes above the start would shrink the region
    // below the 2048-byte minimum.
    let r = mpu.update_app_memory_region(
        0x2000_0400,
        0x2000_0E00,
        Permissions::ReadWriteOnly,
        &mut config,
    );
    assert_eq!(r, Err(()));
    assert_eq!(config.regions[0].location(), Some((0x2000_0000, 0x2000_07E0)));
}

#[test]
fn update_reaching_kernel_tail_fails() {
    let mpu = K66Mpu::new();
    let mut config = K66Config::new();
    mpu.allocate_app_memory_region(
        0x2000_0000,
        4096,
        2048,
        2048,
        512,
        Permissions::ReadWriteOnly,
        &mut config,
    )
    .unwrap();
    let r = mpu.update_app_memory_region(
        0x2000_0C00,
        0x2000_0A00,
        Permissions::ReadWriteOnly,
        &mut config,
    );
    assert_eq!(r, Err(()));
}

#[test]
fn update_misaligned_break_fails() {
    let mpu = K66Mpu::new();
    let mut config = K66Config::new();
    mpu.allocate_app_memory_region(
        0x2000_0000,
        4096,
        2048,
        2048,
        512,
        Permissions::ReadWriteOnly,
        &mut config,
    )
    .unwrap();
    let r = mpu.update_app_memory_region(
        0x2000_0C10,
        0x2000_0E00,
        Permissions::ReadWriteOnly,
        &mut config,
    );
    assert_eq!(r, Err(()));
}

#[test]
fn update_without_region_fails() {
    let mpu = K66Mpu::new();
    let mut config = K66Config::new();
    let r = mpu.update_app_memory_region(
        0x2000_0800,
        0x2000_0E00,
        Permissions::ReadWriteOnly,
        &mut config,
    );
    assert_eq!(r, Err(()));
}

#[test]
fn update_overlapping_another_region_fails() {
    let mpu = K66Mpu::new();
    let mut config = K66Config::new();
    mpu.allocate_app_memory_region(
        0x2000_0000,
        8192,
        2048,
        2048,
        512,
        Permissions::ReadWriteOnly,
        &mut config,
    )
    .unwrap();
    // A separate grant right above the app-memory block.
    assert!(mpu
        .allocate_region(0x2000_2000, 32, 32, Permissions::ReadOnly, &mut config)
        .is_some());
    // Growing past that grant must fail even though the kernel break
    // would allow it.
    let r = mpu.update_app_memory_region(
        0x2000_2020,
        0x2000_3000,
        Permissions::ReadWriteOnly,
        &mut config,
    );
    assert_eq!(r, Err(()));
}
