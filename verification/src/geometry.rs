use vstd::prelude::*;

verus! {

/// One mebibyte: the granularity the FAT volume is padded to.
pub const MIB: usize = 0x10_0000;

/// Space reserved in the disk image, beyond the FAT volume, for the
/// protective MBR, the primary GPT header and table, the backup GPT table
/// and header, and partition alignment slack: 64 KiB.
pub const GPT_RESERVE: usize = 0x1_0000;

/// The logical block (sector) size of the disk image.
pub const SECTOR: usize = 512;

/// The size of the FAT volume built for an executable of `exe_len` bytes:
/// the smallest whole-MiB multiple that is at least `exe_len`.
pub open spec fn fat_size_spec(exe_len: nat) -> int
    recommends
        1 <= exe_len,
{
    ((exe_len - 1) / (MIB as int) + 1) * (MIB as int)
}

/// The value stored in the protective MBR's size-in-LBA field for a disk of
/// `disk_size` bytes: the number of sectors after the MBR sector itself,
/// saturating at the largest 32-bit value for disks too large to address.
pub open spec fn mbr_size_field_spec(disk_size: nat) -> int
    recommends
        512 <= disk_size,
{
    let sectors_less_one = disk_size / 512 - 1;
    if sectors_less_one > 0xFFFF_FFFF {
        0xFFFF_FFFF
    } else {
        sectors_less_one
    }
}

/// Rounds an executable's byte length up to the next whole-MiB multiple.
/// An exact multiple is already sufficient and is returned unchanged.
pub fn fat_volume_size(exe_len: usize) -> (r: usize)
    requires
        1 <= exe_len,
        exe_len + MIB <= usize::MAX,
    ensures
        r == fat_size_spec(exe_len as nat),
        r as int % (MIB as int) == 0,
        exe_len <= r,
        r < exe_len + MIB,
{
    proof {
        let e = exe_len as int;
        let m = MIB as int;
        assert(((e - 1) / m + 1) * m <= e - 1 + m
            && e <= ((e - 1) / m + 1) * m
            && (((e - 1) / m + 1) * m) % m == 0) by (nonlinear_arith)
            requires
                1 <= e,
                m == 0x10_0000,
        ;
    }
    ((exe_len - 1) / MIB + 1) * MIB
}

/// The FAT volume size is minimal: no smaller whole-MiB multiple holds the
/// executable. Any MiB multiple `m` large enough for `exe_len` bytes is at
/// least `fat_size_spec(exe_len)`.
pub proof fn lemma_fat_size_minimal(exe_len: nat, m: nat)
    requires
        1 <= exe_len,
        exe_len <= m,
        m % (MIB as nat) == 0,
    ensures
        fat_size_spec(exe_len) <= m,
{
    let e = exe_len as int;
    let mi = m as int;
    let u = MIB as int;
    assert(((e - 1) / u + 1) * u <= mi) by (nonlinear_arith)
        requires
            1 <= e,
            e <= mi,
            mi % u == 0,
            u == 0x10_0000,
    ;
}

/// A whole-MiB multiple is also a whole-sector multiple.
pub proof fn lemma_mib_multiple_is_sector_multiple(x: int)
    requires
        x % (MIB as int) == 0,
    ensures
        x % 512 == 0,
{
    let k = x / (MIB as int);
    vstd::arithmetic::div_mod::lemma_fundamental_div_mod(x, MIB as int);
    assert(x == 512 * (2048 * k)) by (nonlinear_arith)
        requires
            x == 0x10_0000 * k,
    ;
    vstd::arithmetic::div_mod::lemma_mod_multiples_basic(2048 * k, 512);
}

/// The exact size of the disk image wrapped around a FAT volume of
/// `fat_len` bytes.
pub fn disk_size_for(fat_len: usize) -> (r: usize)
    requires
        fat_len + GPT_RESERVE <= usize::MAX,
    ensures
        r == fat_len + GPT_RESERVE,
{
    fat_len + GPT_RESERVE
}

/// Computes the protective MBR's size-in-LBA field for a disk of
/// `disk_size` bytes, saturating at `0xFFFF_FFFF`.
pub fn mbr_size_field(disk_size: usize) -> (r: u32)
    requires
        512 <= disk_size,
    ensures
        r == mbr_size_field_spec(disk_size as nat),
{
    let sectors_less_one: usize = disk_size / 512 - 1;
    if sectors_less_one > 0xFFFF_FFFF {
        0xFFFF_FFFF
    } else {
        sectors_less_one as u32
    }
}

} // verus!
