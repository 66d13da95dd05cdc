use vstd::prelude::*;
use crate::errors::Error;
use crate::geometry::{MIB, fat_size_spec, fat_volume_size};
use crate::bytes::zeroed;

verus! {

/// Relies on std::io::Error as an opaque error value: the filesystem crate
/// reports every failure through it.
#[verifier::external_type_specification]
#[verifier::external_body]
pub struct ExIoError(std::io::Error);

/// Relies on fatfs::format_volume with default options: it formats the whole
/// container as a FAT volume with auto-selected parameters, writing only
/// within the container's bounds, and rejects containers whose geometry it
/// cannot format.
#[verifier::external_body]
fn fat_format(buf: &mut Vec<u8>) -> (r: Result<(), std::io::Error>)
    requires
        MIB <= old(buf)@.len(),
    ensures
        final(buf)@.len() == old(buf)@.len(),
{
    fatfs::format_volume(std::io::Cursor::new(&mut *buf), fatfs::FormatVolumeOptions::new())
}

/// Relies on fatfs::FileSystem::new, Dir::create_dir, Dir::create_file,
/// File::truncate and std::io::Write::write_all: mounts the formatted volume,
/// creates the directory `dir` and inside it `subdir`, then creates the file
/// at `path`, truncates any previous content, and stores `content` in it
/// byte for byte. All writes land inside the volume's bounds.
///
/// The resulting bytes also carry timestamps taken from the clock, so
/// nothing is stated of the contents here.
#[verifier::external_body]
fn fat_store(
    buf: &mut Vec<u8>,
    dir: &str,
    subdir: &str,
    path: &str,
    content: &Vec<u8>,
) -> (r: Result<(), std::io::Error>)
    requires
        MIB <= old(buf)@.len(),
    ensures
        final(buf)@.len() == old(buf)@.len(),
{
    let fs = fatfs::FileSystem::new(std::io::Cursor::new(&mut *buf), fatfs::FsOptions::new())?;
    let root = fs.root_dir();
    root.create_dir(dir)?;
    root.create_dir(subdir)?;
    let mut file = root.create_file(path)?;
    file.truncate()?;
    std::io::Write::write_all(&mut file, content.as_slice())
}

/// Builds the FAT volume for the executable `exe`: a zero-initialized
/// container of the smallest whole-MiB size at least `exe.len()`, formatted
/// as a FAT volume and populated with the standard boot path
/// `efi/boot/bootx64.efi` holding a copy of `exe`.
///
/// An empty executable is rejected before anything is allocated; a failure
/// to format the volume or to create its directories or file surfaces as
/// a filesystem error.
pub fn build_fat_volume(exe: &Vec<u8>) -> (r: Result<Vec<u8>, Error>)
    requires
        exe@.len() + MIB <= usize::MAX,
    ensures
        match r {
            Ok(v) => {
                &&& 1 <= exe@.len()
                &&& v@.len() == fat_size_spec(exe@.len() as nat)
                &&& v@.len() as int % (MIB as int) == 0
                &&& exe@.len() <= v@.len()
                &&& v@.len() < exe@.len() + MIB
            },
            Err(e) => {
                &&& (e == Error::InvalidInput <==> exe@.len() == 0)
                &&& (e == Error::InvalidInput || e == Error::Filesystem)
            },
        },
{
    if exe.len() == 0 {
        return Err(Error::InvalidInput);
    }
    let size = fat_volume_size(exe.len());
    let mut buf = zeroed(size);
    match fat_format(&mut buf) {
        Ok(_) => {},
        Err(_) => {
            return Err(Error::Filesystem);
        },
    }
    match fat_store(&mut buf, "efi", "efi/boot", "efi/boot/bootx64.efi", exe) {
        Ok(_) => Ok(buf),
        Err(_) => Err(Error::Filesystem),
    }
}

} // verus!
