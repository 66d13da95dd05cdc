use std::io::Read;

use bootdisk::errors::Error;
use bootdisk::fat::build_fat_volume;

const MIB: usize = 0x10_0000;

fn pattern(n: usize) -> Vec<u8> {
    let mut v = Vec::with_capacity(n);
    for i in 0..n {
        v.push((i % 251) as u8);
    }
    v
}

#[test]
fn volume_size_is_smallest_mib_multiple() {
    let cases: [(usize, usize); 5] = [
        (1, MIB),
        (MIB - 1, MIB),
        (MIB, MIB),
        (MIB + 1, 2 * MIB),
        (10 * MIB, 10 * MIB),
    ];
    for (exe_size, expected) in cases {
        assert_eq!(bootdisk::geometry::fat_volume_size(exe_size), expected);
    }
}

#[test]
fn built_volume_has_rounded_size() {
    let small = pattern(1);
    assert_eq!(build_fat_volume(&small).unwrap().len(), MIB);
    let over_one_mib = pattern(MIB + 1);
    assert_eq!(build_fat_volume(&over_one_mib).unwrap().len(), 2 * MIB);
}

#[test]
fn executable_filling_the_whole_container_fails_as_filesystem_error() {
    // A whole-MiB executable leaves no room in its container for the FAT
    // metadata, so creating the boot file runs out of space.
    let exe = pattern(MIB);
    let result = build_fat_volume(&exe);
    assert!(matches!(result, Err(Error::Filesystem)));
}

#[test]
fn empty_executable_is_rejected() {
    let exe: Vec<u8> = Vec::new();
    let result = build_fat_volume(&exe);
    assert!(matches!(result, Err(Error::InvalidInput)));
}

#[test]
fn boot_file_reads_back_identical() {
    let exe = pattern(5000);
    let volume = build_fat_volume(&exe).unwrap();
    let cursor = std::io::Cursor::new(volume);
    let fs = fatfs::FileSystem::new(cursor, fatfs::FsOptions::new()).unwrap();
    let root = fs.root_dir();
    let mut file = root.open_file("efi/boot/bootx64.efi").unwrap();
    let mut read_back = Vec::new();
    file.read_to_end(&mut read_back).unwrap();
    assert_eq!(read_back, exe);
}

#[test]
fn boot_path_is_a_directory_hierarchy() {
    let exe = pattern(100);
    let volume = build_fat_volume(&exe).unwrap();
    let cursor = std::io::Cursor::new(volume);
    let fs = fatfs::FileSystem::new(cursor, fatfs::FsOptions::new()).unwrap();
    let root = fs.root_dir();
    let efi = root.open_dir("efi").unwrap();
    let boot = efi.open_dir("boot").unwrap();
    let mut file = boot.open_file("bootx64.efi").unwrap();
    let mut read_back = Vec::new();
    file.read_to_end(&mut read_back).unwrap();
    assert_eq!(read_back, exe);
}
