pub mod bytes;
pub mod disk;
pub mod errors;
pub mod fat;
pub mod geometry;

use vstd::prelude::*;
use crate::bytes::le32_at;
use crate::disk::DiskImage;
use crate::errors::Error;
use crate::geometry::{GPT_RESERVE, MIB, fat_size_spec, mbr_size_field_spec};

verus! {

/// The two artifacts of a run: the FAT volume holding the executable, and
/// the GPT disk image wrapped around it.
pub struct BootImage {
    /// The FAT volume: the executable stored at `efi/boot/bootx64.efi`
    /// inside a container of the smallest whole-MiB size that holds it.
    pub fat: Vec<u8>,
    /// The disk image: protective MBR, GPT, and the FAT volume's bytes at
    /// the partition's first LBA.
    pub disk: DiskImage,
}

/// Runs the whole pipeline on the bytes of an executable: first the FAT
/// volume is built, then the disk image is assembled around it. The first
/// failing step aborts the run; nothing is retried.
pub fn build_boot_image(exe: &Vec<u8>) -> (r: Result<BootImage, Error>)
    requires
        exe@.len() + MIB + GPT_RESERVE <= usize::MAX,
    ensures
        match r {
            Ok(b) => {
                &&& 1 <= exe@.len()
                &&& b.fat@.len() == fat_size_spec(exe@.len() as nat)
                &&& b.disk.bytes@.len() == b.fat@.len() + GPT_RESERVE
                &&& le32_at(b.disk.bytes@, 458) == mbr_size_field_spec(
                    (b.fat@.len() + GPT_RESERVE) as nat,
                )
                &&& b.disk.bytes@[510] == 0x55 && b.disk.bytes@[511] == 0xAA
                &&& 34 <= b.disk.start_lba <= b.disk.last_lba
                &&& (b.disk.last_lba + 1 - b.disk.start_lba) * 512 == b.fat@.len()
                &&& b.disk.start_lba * 512 + b.fat@.len() <= b.disk.bytes@.len()
                &&& b.disk.bytes@.subrange(
                    b.disk.start_lba as int * 512,
                    b.disk.start_lba as int * 512 + b.fat@.len(),
                ) == b.fat@
            },
            Err(e) => {
                &&& (e == Error::InvalidInput <==> exe@.len() == 0)
                &&& (e == Error::InvalidInput || e == Error::Filesystem
                    || e == Error::PartitionTable)
            },
        },
{
    let fat = match fat::build_fat_volume(exe) {
        Ok(v) => v,
        Err(e) => {
            return Err(e);
        },
    };
    proof {
        assert((MIB as int) <= fat_size_spec(exe@.len() as nat)) by (nonlinear_arith)
            requires
                1 <= exe@.len(),
        ;
    }
    let disk = match disk::build_gpt_disk(&fat) {
        Ok(d) => d,
        Err(e) => {
            return Err(e);
        },
    };
    Ok(BootImage { fat, disk })
}

} // verus!
