use vstd::prelude::*;
use crate::errors::Error;
use crate::geometry::{
    GPT_RESERVE, MIB, disk_size_for, lemma_mib_multiple_is_sector_multiple, mbr_size_field,
    mbr_size_field_spec,
};
use crate::bytes::{le32_at, lemma_subrange_index, write_at, zeroed};

verus! {

/// The in-memory block device that the partition table is built over.
pub type Device = std::io::Cursor<Vec<u8>>;

/// Relies on std::io::Cursor as an opaque in-memory block device.
#[verifier::external_type_specification]
#[verifier::external_body]
#[verifier::reject_recursive_types(T)]
pub struct ExCursor<T>(std::io::Cursor<T>);

/// Relies on gpt::GptDisk as the arena that owns the partition entries; a
/// value of it is only ever made here, by `gpt_create`.
#[verifier::external_type_specification]
#[verifier::external_body]
#[verifier::reject_recursive_types(D)]
pub struct ExGptDisk<D>(gpt::GptDisk<D>);

/// Relies on gpt::GptError as an opaque error value.
#[verifier::external_type_specification]
#[verifier::external_body]
pub struct ExGptError(gpt::GptError);

/// Relies on gpt::mbr::MBRError as an opaque error value.
#[verifier::external_type_specification]
#[verifier::external_body]
pub struct ExMbrError(gpt::mbr::MBRError);

/// The partition entries held by a table: partition id to the entry's
/// (first LBA, last LBA).
pub uninterp spec fn gpt_entries(t: gpt::GptDisk<Device>) -> Map<u32, (u64, u64)>;

/// The bytes of the device a table was created over.
pub uninterp spec fn gpt_device(t: gpt::GptDisk<Device>) -> Seq<u8>;

/// Relies on gpt::mbr::ProtectiveMBR::with_lb_size and overwrite_lba0: they
/// serialize a protective MBR into the first 512 bytes of `disk` and touch
/// nothing else. Its single partition record sits at byte 446: type 0xEE,
/// first LBA 1, and the size-in-LBA field, `size_field`, at byte 458 in
/// little-endian order; the boot signature 0x55 0xAA closes the sector.
#[verifier::external_body]
fn mbr_write(disk: &mut Vec<u8>, size_field: u32) -> (r: Result<(), gpt::mbr::MBRError>)
    requires
        512 <= old(disk)@.len(),
    ensures
        final(disk)@.len() == old(disk)@.len(),
        r matches Ok(_) ==> {
            &&& final(disk)@.subrange(512, old(disk)@.len() as int) == old(disk)@.subrange(
                512,
                old(disk)@.len() as int,
            )
            &&& final(disk)@[446] == 0u8
            &&& final(disk)@[450] == 0xEEu8
            &&& le32_at(final(disk)@, 454) == 1
            &&& le32_at(final(disk)@, 458) == size_field
            &&& final(disk)@[510] == 0x55u8
            &&& final(disk)@[511] == 0xAAu8
        },
{
    let mbr = gpt::mbr::ProtectiveMBR::with_lb_size(size_field);
    match mbr.overwrite_lba0(&mut std::io::Cursor::new(&mut *disk)) {
        Ok(_) => Ok(()),
        Err(e) => Err(e),
    }
}

/// Relies on gpt::GptConfig::create_from_device over 512-byte logical
/// blocks: it builds a writable in-memory table with an empty partition
/// map over the device, reading but not writing the device's bytes.
#[verifier::external_body]
fn gpt_create(disk: Vec<u8>) -> (r: Result<gpt::GptDisk<Device>, gpt::GptError>)
    requires
        disk@.len() % 512 == 0,
        68 * 512 <= disk@.len(),
    ensures
        r matches Ok(t) ==> {
            &&& gpt_device(t) == disk@
            &&& gpt_entries(t) == Map::<u32, (u64, u64)>::empty()
        },
{
    gpt::GptConfig::new()
        .writable(true)
        .logical_block_size(gpt::disk::LogicalBlockSize::Lb512)
        .create_from_device(std::io::Cursor::new(disk), None)
}

/// Relies on gpt::GptDisk::add_partition with default alignment: it places
/// an entry of `size / 512` sectors (size is a whole-sector multiple) at
/// the start of the first large-enough free gap between the table's first
/// usable LBA, 34 for a fresh 512-byte-block table, and its last usable
/// LBA, the sector count minus 34. The device's bytes are not touched; the
/// entry's extent is chosen by the table, not by the caller, and is
/// recorded in `gpt_entries` under the returned id.
#[verifier::external_body]
fn gpt_add_partition(t: &mut gpt::GptDisk<Device>, name: &str, size: u64) -> (r: Result<
    u32,
    gpt::GptError,
>)
    requires
        1 <= size,
        size % 512 == 0,
        gpt_entries(*old(t)) == Map::<u32, (u64, u64)>::empty(),
        gpt_device(*old(t)).len() % 512 == 0,
        68 * 512 <= gpt_device(*old(t)).len(),
    ensures
        gpt_device(*final(t)) == gpt_device(*old(t)),
        r matches Ok(id) ==> {
            &&& gpt_entries(*final(t)).contains_key(id)
            &&& 34 <= gpt_entries(*final(t))[id].0
            &&& gpt_entries(*final(t))[id].1 == gpt_entries(*final(t))[id].0 + size / 512 - 1
            &&& gpt_entries(*final(t))[id].1 <= gpt_device(*old(t)).len() / 512 - 34
            &&& gpt_entries(*final(t)) == gpt_entries(*old(t)).insert(
                id,
                gpt_entries(*final(t))[id],
            )
        },
        r matches Err(_) ==> gpt_entries(*final(t)) == gpt_entries(*old(t)),
{
    t.add_partition(name, size, gpt::partition_types::EFI, 0, None)
}

/// Relies on gpt::GptDisk::partitions and the map lookup under it: hands
/// out the first and last LBA of the entry stored under `id`, if any.
#[verifier::external_body]
fn gpt_lookup(t: &gpt::GptDisk<Device>, id: u32) -> (r: Option<(u64, u64)>)
    ensures
        r == if gpt_entries(*t).contains_key(id) {
            Some(gpt_entries(*t)[id])
        } else {
            None::<(u64, u64)>
        },
{
    match t.partitions().get(&id) {
        Some(p) => Some((p.first_lba, p.last_lba)),
        None => None,
    }
}

/// Relies on gpt::GptDisk::write: it persists the primary header and
/// partition array right after the first sector, and the backup array and
/// header at the end of the device, then hands the device's bytes back.
/// For a table made by `gpt_create` it never writes the first sector and
/// never grows the device.
#[verifier::external_body]
fn gpt_write(t: gpt::GptDisk<Device>) -> (r: Result<Vec<u8>, gpt::GptError>)
    ensures
        r matches Ok(v) ==> {
            &&& v@.len() == gpt_device(t).len()
            &&& v@.subrange(0, 512) == gpt_device(t).subrange(0, 512)
        },
{
    match t.write() {
        Ok(cursor) => Ok(cursor.into_inner()),
        Err(e) => Err(e),
    }
}

/// A finished disk image: the bytes, and the first LBA at which the FAT
/// volume's bytes were placed, as read back from the partition table.
pub struct DiskImage {
    /// The complete disk image.
    pub bytes: Vec<u8>,
    /// The single partition's first LBA: the FAT volume starts at byte
    /// `start_lba * 512` of `bytes`.
    pub start_lba: u64,
    /// The single partition's last LBA, inclusive: the entry declares
    /// exactly `(last_lba + 1 - start_lba) * 512` bytes.
    pub last_lba: u64,
}

/// Wraps a FAT volume in a GPT disk image: a container 64 KiB larger than
/// the volume, holding a protective MBR in its first sector, a partition
/// table with one entry of exactly the volume's size, and the volume's
/// bytes placed contiguously at the partition's first LBA.
///
/// The partition's position is computed by the partition-table crate and
/// read back from the table after the entry is added, never chosen here;
/// a just-added entry that cannot be found again would surface as an
/// internal error, though it provably cannot occur.
pub fn build_gpt_disk(fat: &Vec<u8>) -> (r: Result<DiskImage, Error>)
    requires
        fat@.len() as int % (MIB as int) == 0,
        MIB <= fat@.len(),
        fat@.len() + GPT_RESERVE <= usize::MAX,
    ensures
        match r {
            Ok(img) => {
                &&& img.bytes@.len() == fat@.len() + GPT_RESERVE
                &&& le32_at(img.bytes@, 458) == mbr_size_field_spec(
                    (fat@.len() + GPT_RESERVE) as nat,
                )
                &&& img.bytes@[510] == 0x55 && img.bytes@[511] == 0xAA
                &&& 34 <= img.start_lba <= img.last_lba
                &&& (img.last_lba + 1 - img.start_lba) * 512 == fat@.len()
                &&& img.start_lba * 512 + fat@.len() <= img.bytes@.len()
                &&& img.bytes@.subrange(
                    img.start_lba as int * 512,
                    img.start_lba as int * 512 + fat@.len(),
                ) == fat@
            },
            Err(e) => e == Error::PartitionTable,
        },
{
    let fat_len = fat.len();
    proof {
        lemma_mib_multiple_is_sector_multiple(fat_len as int);
        assert((fat_len + GPT_RESERVE) as int % 512 == 0) by (nonlinear_arith)
            requires
                fat_len as int % 512 == 0,
                GPT_RESERVE == 0x1_0000,
        ;
    }
    let disk_size = disk_size_for(fat_len);
    let mut disk = zeroed(disk_size);
    let field = mbr_size_field(disk_size);
    match mbr_write(&mut disk, field) {
        Ok(_) => {},
        Err(_) => {
            return Err(Error::PartitionTable);
        },
    }
    let ghost disk0 = disk@;
    let mut table = match gpt_create(disk) {
        Ok(t) => t,
        Err(_) => {
            return Err(Error::PartitionTable);
        },
    };
    let part_size: u64 = fat_len as u64;
    let id = match gpt_add_partition(&mut table, "boot", part_size) {
        Ok(i) => i,
        Err(_) => {
            return Err(Error::PartitionTable);
        },
    };
    let (first, last) = match gpt_lookup(&table, id) {
        Some(p) => p,
        None => {
            return Err(Error::Internal);
        },
    };
    proof {
        let sectors = disk0.len() as int / 512;
        vstd::arithmetic::div_mod::lemma_fundamental_div_mod(disk0.len() as int, 512);
        vstd::arithmetic::div_mod::lemma_fundamental_div_mod(part_size as int, 512);
        assert(first as int * 512 + fat_len <= disk0.len() - 33 * 512) by (nonlinear_arith)
            requires
                first + part_size / 512 - 1 <= sectors - 34,
                part_size == part_size / 512 * 512,
                disk0.len() == sectors * 512,
                part_size == fat_len,
                1 <= part_size / 512,
        ;
    }
    let first_us: usize = first as usize;
    let start_off: usize = first_us * 512;
    let mut image = match gpt_write(table) {
        Ok(v) => v,
        Err(_) => {
            return Err(Error::PartitionTable);
        },
    };
    proof {
        lemma_subrange_index(image@, disk0, 0, 512);
    }
    let ghost pre_splice = image@;
    write_at(&mut image, start_off, fat);
    proof {
        lemma_subrange_index(image@, pre_splice, 0, start_off as int);
    }
    Ok(DiskImage { bytes: image, start_lba: first, last_lba: last })
}

} // verus!
