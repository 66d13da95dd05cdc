use std::io::Read;

use bootdisk::build_boot_image;
use bootdisk::disk::build_gpt_disk;
use bootdisk::errors::Error;
use bootdisk::fat::build_fat_volume;
use bootdisk::geometry::mbr_size_field;

const MIB: usize = 0x10_0000;
const RESERVE: usize = 0x1_0000;

fn pattern(n: usize) -> Vec<u8> {
    let mut v = Vec::with_capacity(n);
    for i in 0..n {
        v.push((i % 241) as u8);
    }
    v
}

fn read_le32(bytes: &[u8], offset: usize) -> u32 {
    u32::from_le_bytes([
        bytes[offset],
        bytes[offset + 1],
        bytes[offset + 2],
        bytes[offset + 3],
    ])
}

#[test]
fn disk_size_is_fat_size_plus_reserve() {
    let exe = pattern(2048);
    let fat = build_fat_volume(&exe).unwrap();
    let fat_len = fat.len();
    let image = build_gpt_disk(&fat).unwrap();
    assert_eq!(image.bytes.len(), fat_len + RESERVE);
}

#[test]
fn protective_mbr_holds_size_and_signature() {
    let exe = pattern(2048);
    let fat = build_fat_volume(&exe).unwrap();
    let image = build_gpt_disk(&fat).unwrap();
    let disk_len = image.bytes.len();
    let expected = (disk_len / 512 - 1) as u32;
    assert_eq!(read_le32(&image.bytes, 458), expected);
    assert_eq!(read_le32(&image.bytes, 454), 1);
    assert_eq!(image.bytes[450], 0xEE);
    assert_eq!(image.bytes[510], 0x55);
    assert_eq!(image.bytes[511], 0xAA);
}

#[test]
fn mbr_size_field_saturates_for_huge_disks() {
    // A small disk stores its exact sector count less one...
    assert_eq!(mbr_size_field(512 * 0x1000), 0xFFF);
    // ...and one beyond the 32-bit addressable range saturates.
    let huge: usize = 0x1_0000_0002 * 512;
    assert_eq!(mbr_size_field(huge), 0xFFFF_FFFF);
}

#[test]
fn partition_payload_matches_fat_volume() {
    let exe = pattern(3000);
    let fat = build_fat_volume(&exe).unwrap();
    let image = build_gpt_disk(&fat).unwrap();
    let start = image.start_lba as usize * 512;
    assert_eq!(&image.bytes[start..start + fat.len()], fat.as_slice());
}

#[test]
fn partition_entry_declares_exact_fat_size() {
    let exe = pattern(4096);
    let fat = build_fat_volume(&exe).unwrap();
    let fat_len = fat.len() as u64;
    let image = build_gpt_disk(&fat).unwrap();
    let device = std::io::Cursor::new(image.bytes.clone());
    let table = gpt::GptConfig::new()
        .writable(false)
        .logical_block_size(gpt::disk::LogicalBlockSize::Lb512)
        .open_from_device(device)
        .unwrap();
    let parts = table.partitions();
    assert_eq!(parts.len(), 1);
    let (_, part) = parts.iter().next().unwrap();
    assert_eq!(part.name, "boot");
    assert_eq!(part.part_type_guid, gpt::partition_types::EFI);
    assert_eq!(
        part.bytes_len(gpt::disk::LogicalBlockSize::Lb512).unwrap(),
        fat_len
    );
    assert_eq!(
        part.bytes_start(gpt::disk::LogicalBlockSize::Lb512).unwrap(),
        image.start_lba * 512
    );
    assert_eq!(part.first_lba, image.start_lba);
    assert_eq!(part.last_lba, image.last_lba);
}

#[test]
fn empty_executable_fails_whole_pipeline() {
    let exe: Vec<u8> = Vec::new();
    let result = build_boot_image(&exe);
    assert!(matches!(result, Err(Error::InvalidInput)));
}

#[test]
fn end_to_end_dummy_executable() {
    let exe = pattern(2048);
    let boot = build_boot_image(&exe).unwrap();
    assert_eq!(boot.fat.len(), MIB);
    assert_eq!(boot.disk.bytes.len(), MIB + RESERVE);

    // The GPT reader sees exactly one partition named "boot" of the EFI
    // system partition type.
    let device = std::io::Cursor::new(boot.disk.bytes.clone());
    let table = gpt::GptConfig::new()
        .writable(false)
        .logical_block_size(gpt::disk::LogicalBlockSize::Lb512)
        .open_from_device(device)
        .unwrap();
    let parts = table.partitions();
    assert_eq!(parts.len(), 1);
    let (_, part) = parts.iter().next().unwrap();
    assert_eq!(part.name, "boot");
    assert_eq!(part.part_type_guid, gpt::partition_types::EFI);

    // The payload, reinterpreted as a FAT volume, holds the dummy
    // executable at the boot path.
    let start = part
        .bytes_start(gpt::disk::LogicalBlockSize::Lb512)
        .unwrap() as usize;
    let len = part.bytes_len(gpt::disk::LogicalBlockSize::Lb512).unwrap() as usize;
    let payload = boot.disk.bytes[start..start + len].to_vec();
    assert_eq!(payload, boot.fat);
    let fs = fatfs::FileSystem::new(std::io::Cursor::new(payload), fatfs::FsOptions::new())
        .unwrap();
    let mut file = fs.root_dir().open_file("EFI/BOOT/BOOTX64.EFI").unwrap();
    let mut read_back = Vec::new();
    file.read_to_end(&mut read_back).unwrap();
    assert_eq!(read_back, exe);
}
