use zfs_nixos_setup::command::{Action, Decoding, Failure, Policy, Slot};
use zfs_nixos_setup::geometry::{
    geometry_probes, get_disk_bytes, get_disk_size, get_sector_size, needs_sector_count,
    sector_count_probe, DiskTarget, SectorSize,
};

fn some(text: &str) -> Option<String> {
    Some(text.to_string())
}

#[test]
fn sector_size_is_read() {
    assert_eq!(get_sector_size(&some("512\n")), SectorSize { bytes: 512, assumed: false });
    assert_eq!(get_sector_size(&some(" 4096 ")), SectorSize { bytes: 4096, assumed: false });
}

#[test]
fn sector_size_defaults_to_512_with_a_warning() {
    let assumed = SectorSize { bytes: 512, assumed: true };
    assert_eq!(get_sector_size(&None), assumed);
    assert_eq!(get_sector_size(&some("")), assumed);
    assert_eq!(get_sector_size(&some("\n")), assumed);
    assert_eq!(get_sector_size(&some("n/a\n")), assumed);
    assert_eq!(get_sector_size(&some("0\n")), assumed);
    assert_eq!(get_sector_size(&some("99999999999999999999999\n")), assumed);
}

#[test]
fn size_in_bytes_is_divided_by_the_sector_size() {
    assert_eq!(get_disk_size(&some("500107862016\n"), &some("512\n"), &None), Ok(976773168));
    assert_eq!(get_disk_size(&some("500107862016\n"), &some("4096\n"), &None), Ok(122096646));
    assert_eq!(get_disk_size(&some("1000\n"), &some("512\n"), &None), Ok(1));
    // Without a sector size, 512 is assumed.
    assert_eq!(get_disk_size(&some("1024\n"), &None, &None), Ok(2));
    assert_eq!(get_disk_size(&some("1024\n"), &some("0"), &some("77")), Ok(2));
}

#[test]
fn sector_count_stands_in_for_a_missing_size() {
    assert_eq!(get_disk_size(&None, &some("512"), &some("976773168\n")), Ok(976773168));
    assert_eq!(get_disk_size(&some(" \n"), &some("512"), &some("2048\n")), Ok(2048));
    assert!(needs_sector_count(&None));
    assert!(needs_sector_count(&some("\n")));
    assert!(!needs_sector_count(&some("1024\n")));
    assert!(!needs_sector_count(&some("junk\n")));
}

#[test]
fn unreadable_sizes_are_failures() {
    assert_eq!(
        get_disk_size(&some("12x\n"), &some("512"), &some("2048")),
        Err(Failure::BadDiskSize { text: "12x".to_string() })
    );
    assert_eq!(
        get_disk_size(&None, &some("512"), &some("\n")),
        Err(Failure::BadDiskSize { text: String::new() })
    );
    assert_eq!(
        get_disk_size(&None, &some("512"), &None),
        Err(Failure::BadDiskSize { text: String::new() })
    );
    assert_eq!(
        get_disk_size(&None, &None, &some("many\n")),
        Err(Failure::BadDiskSize { text: "many".to_string() })
    );
}

#[test]
fn probes_ask_lsblk_and_blockdev() {
    let steps = geometry_probes("/dev/sda");
    assert_eq!(steps.len(), 3);
    assert_eq!(
        steps[1].action,
        Action::Capture {
            program: "lsblk".to_string(),
            args: ["--bytes", "--nodeps", "--noheadings", "--output", "SIZE", "/dev/sda"]
                .iter()
                .map(|a| a.to_string())
                .collect(),
            decoding: Decoding::Lossy,
        }
    );
    assert_eq!(steps[1].slot, Slot::SizeBytes);
    assert_eq!(steps[2].slot, Slot::SectorSize);
    assert_eq!(steps[2].policy, Policy::Lenient);
    let count = sector_count_probe("/dev/sda");
    assert_eq!(
        count.action,
        Action::Capture {
            program: "blockdev".to_string(),
            args: vec!["--getsz".to_string(), "/dev/sda".to_string()],
            decoding: Decoding::Lossy,
        }
    );
    assert_eq!(count.policy, Policy::Started);
    assert_eq!(count.slot, Slot::Sectors);
}

#[test]
fn disk_is_measured() {
    let target = DiskTarget::measure("/dev/sda", &some("500107862016\n"), &some("512\n"), &None);
    assert_eq!(
        target,
        Ok(DiskTarget {
            path: "/dev/sda".to_string(),
            sectors: 976773168,
            sector_size: SectorSize { bytes: 512, assumed: false },
        })
    );
    assert_eq!(target.unwrap().capacity_bytes(), Some(500107862016));
    let assumed = DiskTarget::measure("/dev/sdb", &None, &None, &some("2048\n")).unwrap();
    assert_eq!(assumed.sector_size, SectorSize { bytes: 512, assumed: true });
    assert_eq!(assumed.capacity_bytes(), Some(1048576));
    assert_eq!(
        DiskTarget::measure("/dev/sdc", &some("big\n"), &None, &None),
        Err(Failure::BadDiskSize { text: "big".to_string() })
    );
}

#[test]
fn capacity_beyond_64_bits_is_not_counted() {
    let huge = DiskTarget {
        path: "/dev/sdx".to_string(),
        sectors: u64::MAX,
        sector_size: SectorSize { bytes: 4096, assumed: false },
    };
    assert_eq!(huge.capacity_bytes(), None);
}

#[test]
fn sector_count_is_scaled_to_the_sector_size() {
    // The count is in units of 512 bytes, whatever the sector size.
    assert_eq!(get_disk_size(&None, &some("4096\n"), &some("8\n")), Ok(1));
    assert_eq!(get_disk_size(&None, &some("4096\n"), &some("976773168\n")), Ok(122096646));
    assert_eq!(get_disk_size(&None, &some("4096\n"), &some("7\n")), Ok(0));
    assert_eq!(get_disk_size(&None, &some("1024\n"), &some("9\n")), Ok(4));
    // Both queries tell of the same disk.
    for sector in ["512\n", "4096\n"] {
        assert_eq!(
            get_disk_size(&None, &some(sector), &some("976773168\n")),
            get_disk_size(&some("500107862016\n"), &some(sector), &None)
        );
    }
    let target = DiskTarget::measure("/dev/sda", &None, &some("4096\n"), &some("976773168\n")).unwrap();
    assert_eq!(target.sectors, 122096646);
    assert_eq!(target.capacity_bytes(), Some(500107862016));
}

#[test]
fn size_in_bytes_comes_from_either_query() {
    assert_eq!(get_disk_bytes(&some("500107862016\n"), &None), Ok(500107862016));
    assert_eq!(get_disk_bytes(&some("500107862016\n"), &some("1\n")), Ok(500107862016));
    assert_eq!(get_disk_bytes(&None, &some("976773168\n")), Ok(500107862016));
    assert_eq!(get_disk_bytes(&some("\n"), &some("8\n")), Ok(4096));
    assert_eq!(get_disk_bytes(&None, &some("0\n")), Ok(0));
    assert_eq!(
        get_disk_bytes(&None, &some("x\n")),
        Err(Failure::BadDiskSize { text: "x".to_string() })
    );
}

#[test]
fn count_beyond_64_bits_of_bytes_is_too_large() {
    // 2^55 units of 512 bytes are 2^64 bytes.
    assert_eq!(get_disk_bytes(&None, &some("36028797018963968\n")), Err(Failure::DiskTooLarge));
    assert_eq!(
        get_disk_bytes(&None, &some("36028797018963967\n")),
        Ok(18446744073709551104)
    );
    assert_eq!(
        get_disk_size(&None, &some("512\n"), &some("18446744073709551615\n")),
        Err(Failure::DiskTooLarge)
    );
}

#[test]
fn sectors_fit_the_disk() {
    for (bytes, sector) in [(500107862016u64, 512u64), (500107862016, 4096), (1000, 512), (4095, 4096)] {
        let n = get_disk_size(&some(&bytes.to_string()), &some(&sector.to_string()), &None).unwrap();
        assert!(n * sector <= bytes && bytes < (n + 1) * sector);
    }
}
