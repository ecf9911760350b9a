//! High-level ProDOS and DOS 3.3 disk-image creation: each function builds or
//! re-formats the bytes of an image; reading and writing the image file is
//! left to the caller.

use vstd::prelude::*;
use vstd::string::StringSliceAdditionalSpecFns;
use super::format::{
    dos33_formatted, format_dos33_filesystem, format_filesystem, forward_sector_interleave,
    interleave_image, lemma_interleave_roundtrip, prodos_formatted, reverse_sector_interleave,
    swizzled,
};
use super::types::{
    ProDosError, ACCESS_B, ACCESS_D, ACCESS_N, ACCESS_R, ACCESS_W, pack_date, pack_time, spec_pack_date, spec_pack_time,
};
use super::bitmap::spec_bitmap_byte_count;
use super::file::{add_file, add_file_post, volume_ready, volume_ready_check, FileMeta};
use vstd::utf8::encode_utf8;

verus! {

/// Bytes per DOS 3.3 track.
pub const TRACK_SIZE: usize = 4096;
/// Smallest DOS 3.3 image: 34 tracks.
pub const MIN_DOS33_SIZE: usize = 34 * 4096;
/// Largest DOS 3.3 image: 40 tracks.
pub const MAX_DOS33_SIZE: usize = 40 * 4096;
/// Largest ProDOS volume: 32 MB.
pub const MAX_PRODOS_SIZE: usize = 512 * 65536;
/// Track of the DOS 3.3 VTOC.
pub const VTOC_TRACK: usize = 0x11;

/// Options for creating a new ProDOS disk image.
#[derive(Debug, Clone)]
pub struct ProDosCreateOptions {
    /// Volume name (upper-cased; a leading '/' is stripped).
    pub volume_name: String,
    /// Embed BITSY.BOOT (a small bootloader).
    pub copy_bitsy_boot: bool,
    /// Embed QUIT.SYSTEM.
    pub copy_bitsy_bye: bool,
    /// Embed BASIC.SYSTEM.
    pub copy_basic: bool,
    /// Embed PRODOS.
    pub copy_prodos: bool,
}

impl Default for ProDosCreateOptions {
    fn default() -> (r: Self)
        ensures
            r.volume_name@ == "BLANK"@,
            !r.copy_bitsy_boot,
            !r.copy_bitsy_bye,
            !r.copy_basic,
            !r.copy_prodos,
    {
        ProDosCreateOptions {
            volume_name: "BLANK".to_string(),
            copy_bitsy_boot: false,
            copy_bitsy_bye: false,
            copy_basic: false,
            copy_prodos: false,
        }
    }
}

/// A blank (zero-filled) disk image of `size` bytes.
pub fn create_blank_disk(size: usize) -> (image: Vec<u8>)
    ensures
        image@ == Seq::new(size as nat, |i: int| 0u8),
{
    let image = vec![0u8; size];
    assert(image@ =~= Seq::new(size as nat, |i: int| 0u8));
    image
}

/// Whether a file extension names DOS 3.3 sector order (`dsk` or `do`),
/// which needs interleave swizzling around ProDOS formatting.
pub fn needs_interleave(ext: &str) -> (r: bool)
    ensures
        r == (ext.spec_bytes() == seq![100u8, 115u8, 107u8] || ext.spec_bytes() == seq![100u8, 111u8]),
{
    let b = ext.as_bytes();
    if b.len() == 3 && b[0] == 100 && b[1] == 115 && b[2] == 107 {
        assert(b@ =~= seq![100u8, 115u8, 107u8]);
        true
    } else if b.len() == 2 && b[0] == 100 && b[1] == 111 {
        assert(b@ =~= seq![100u8, 111u8]);
        true
    } else {
        assert(b@ != seq![100u8, 115u8, 107u8]) by {
            if b@.len() == 3 {
                assert(!(b@[0] == 100 && b@[1] == 115 && b@[2] == 107));
            }
        }
        assert(b@ != seq![100u8, 111u8]) by {
            if b@.len() == 2 {
                assert(!(b@[0] == 100 && b@[1] == 111));
            }
        }
        false
    }
}

/// Mark additional tracks as fully used in the DOS 3.3 VTOC.
pub fn mark_dos33_tracks_used(image: &mut [u8], vtoc_track: usize, tracks: &[usize])
    requires
        vtoc_track * 4096 + 4096 <= old(image).len(),
        forall|k: int| 0 <= k < tracks.len() ==> tracks@[k] < 40,
    ensures
        final(image)@.len() == old(image)@.len(),
        forall|j: int|
            0 <= j < old(image)@.len() ==> final(image)@[j] == (if exists|k: int|
                0 <= k < tracks.len() && (j == vtoc_track * 4096 + 0x38 + tracks@[k] * 4 || j
                    == vtoc_track * 4096 + 0x38 + tracks@[k] * 4 + 1) {
                0u8
            } else {
                old(image)@[j]
            }),
{
    let ghost s0 = image@;
    let vtoc_off = vtoc_track * TRACK_SIZE;
    let mut i: usize = 0;
    while i < tracks.len()
        invariant
            i <= tracks.len(),
            vtoc_off == vtoc_track * 4096,
            vtoc_off + 4096 <= image.len(),
            image@.len() == s0.len(),
            forall|k: int| 0 <= k < tracks.len() ==> tracks@[k] < 40,
            forall|j: int|
                0 <= j < s0.len() ==> image@[j] == (if exists|k: int|
                    0 <= k < i && (j == vtoc_off + 0x38 + tracks@[k] * 4 || j == vtoc_off + 0x38
                        + tracks@[k] * 4 + 1) {
                    0u8
                } else {
                    s0[j]
                }),
        decreases tracks.len() - i,
    {
        let off = vtoc_off + 0x38 + tracks[i] * 4;
        image[off] = 0x00;
        image[off + 1] = 0x00;
        proof {
            assert forall|j: int| 0 <= j < s0.len() implies image@[j] == (if exists|k: int|
                0 <= k < i + 1 && (j == vtoc_off + 0x38 + tracks@[k] * 4 || j == vtoc_off + 0x38
                    + tracks@[k] * 4 + 1) {
                0u8
            } else {
                s0[j]
            }) by {
                if j == off || j == off + 1 {
                    assert(0 <= i < i + 1 && (j == vtoc_off + 0x38 + tracks@[i as int] * 4 || j
                        == vtoc_off + 0x38 + tracks@[i as int] * 4 + 1));
                }
            }
        }
        i = i + 1;
    }
}

/// The DOS 3.3 image that `create_dos33_disk` builds, before its boot
/// tracks are marked used: a formatted blank image with the DOS boot code
/// (at most three tracks of it) copied to its start.
pub open spec fn dos33_image_with_boot(size: int, dos: Seq<u8>) -> Seq<u8> {
    let formatted = dos33_formatted(Seq::new(size as nat, |i: int| 0u8), 0x11, size / 4096);
    let n: int = if dos.len() < 3 * 16 * 256 { dos.len() as int } else { (3 * 16 * 256) as int };
    Seq::new(size as nat, |i: int| if i < n { dos[i] } else { formatted[i] })
}

/// Build a new bootable DOS 3.3 disk image of `size` bytes from the DOS 3.3
/// boot code `dos`: a VTOC and catalog on track 17, the boot code on the
/// first three tracks, and tracks 0, 1, 2 and 17 marked used.
pub fn create_dos33_disk(size: usize, dos: &[u8]) -> (r: Result<Vec<u8>, ProDosError>)
    ensures
        size < MIN_DOS33_SIZE ==> r == Err::<Vec<u8>, ProDosError>(ProDosError::ImageTooSmall),
        MIN_DOS33_SIZE <= size && size > MAX_DOS33_SIZE ==> r == Err::<Vec<u8>, ProDosError>(
            ProDosError::ImageTooLarge,
        ),
        MIN_DOS33_SIZE <= size <= MAX_DOS33_SIZE ==> r is Ok && ({
            let img = r->Ok_0@;
            let base = dos33_image_with_boot(size as int, dos@);
            &&& img.len() == size
            &&& forall|j: int|
                0 <= j < size ==> img[j] == (if j == 0x11 * 4096 + 0x38 + 4 || j == 0x11 * 4096 + 0x38
                    + 5 || j == 0x11 * 4096 + 0x38 + 8 || j == 0x11 * 4096 + 0x38 + 9 {
                    0u8
                } else {
                    base[j]
                })
        }),
{
    if size < MIN_DOS33_SIZE {
        return Err(ProDosError::ImageTooSmall);
    }
    if size > MAX_DOS33_SIZE {
        return Err(ProDosError::ImageTooLarge);
    }
    let mut image = vec![0u8; size];
    assert(image@ =~= Seq::new(size as nat, |i: int| 0u8));
    format_dos33_filesystem(image.as_mut_slice(), size, VTOC_TRACK);
    let ghost formatted = image@;
    // Copy the DOS 3.3 boot tracks (tracks 0-2).
    let n = if dos.len() < 3 * 16 * 256 {
        dos.len()
    } else {
        3 * 16 * 256
    };
    let mut i: usize = 0;
    while i < n
        invariant
            i <= n <= dos@.len(),
            n <= 3 * 16 * 256,
            n <= size,
            image@.len() == size,
            forall|j: int| 0 <= j < size ==> image@[j] == (if j < i { dos@[j] } else { formatted[j] }),
        decreases n - i,
    {
        image.set(i, dos[i]);
        i = i + 1;
    }
    assert(image@ =~= dos33_image_with_boot(size as int, dos@));
    let ghost with_boot = image@;
    // Tracks 1 and 2 hold DOS too: mark them used.
    let tracks: [usize; 2] = [1, 2];
    mark_dos33_tracks_used(image.as_mut_slice(), VTOC_TRACK, &tracks);
    proof {
        assert forall|j: int| 0 <= j < size implies image@[j] == (if j == 0x11 * 4096 + 0x38 + 4 || j
            == 0x11 * 4096 + 0x38 + 5 || j == 0x11 * 4096 + 0x38 + 8 || j == 0x11 * 4096 + 0x38 + 9 {
            0u8
        } else {
            with_boot[j]
        }) by {
            if j == 0x11 * 4096 + 0x38 + 4 || j == 0x11 * 4096 + 0x38 + 5 {
                assert(tracks@[0] == 1);
            } else if j == 0x11 * 4096 + 0x38 + 8 || j == 0x11 * 4096 + 0x38 + 9 {
                assert(tracks@[1] == 2);
            }
        }
    }
    Ok(image)
}

/// The system files a new ProDOS volume can be given: the boot blocks and
/// the contents of PRODOS, BASIC.SYSTEM, BITSY.BOOT and QUIT.SYSTEM.
pub struct ProDosFirmware {
    pub boot: Vec<u8>,
    pub prodos: Vec<u8>,
    pub basic: Vec<u8>,
    pub bitsy_boot: Vec<u8>,
    pub quit: Vec<u8>,
}

/// `f` with its first bytes (at most the two boot blocks) taken from `boot`.
pub open spec fn with_boot_blocks(f: Seq<u8>, boot: Seq<u8>) -> Seq<u8> {
    let n: int = if boot.len() < 1024 { boot.len() as int } else { 1024 };
    Seq::new(f.len(), |j: int| if j < n { boot[j] } else { f[j] })
}

/// Metadata of a system file (type SYS, readable and backed up).
fn sys_meta(
    name: &str,
    aux: u16,
    cur_ver: u8,
    min_ver: u8,
    cdate: u16,
    ctime: u16,
    mdate: u16,
    mtime: u16,
) -> (m: FileMeta)
    ensures
        m.name@ == name@,
        m.file_type == 0xFF,
        m.aux == aux,
        m.access == ACCESS_B | ACCESS_R,
        m.cur_ver == cur_ver,
        m.min_ver == min_ver,
        m.date == cdate,
        m.time == ctime,
        m.mod_date == mdate,
        m.mod_time == mtime,
{
    FileMeta {
        name: name.to_string(),
        file_type: 0xFF,
        aux,
        date: cdate,
        time: ctime,
        mod_date: mdate,
        mod_time: mtime,
        access: ACCESS_B | ACCESS_R,
        cur_ver,
        min_ver,
    }
}

/// `m` describes a file named `name` of type SYS ($FF) with auxiliary type
/// `aux`, access `access`, versions `cur_ver`/`min_ver`, created on `date`
/// at `time` and changed on `mod_date` at `mod_time`.
pub open spec fn sys_file(
    m: FileMeta,
    name: Seq<char>,
    aux: u16,
    access: u8,
    cur_ver: u8,
    min_ver: u8,
    date: int,
    time: int,
    mod_date: int,
    mod_time: int,
) -> bool {
    &&& m.name@ == name
    &&& m.file_type == 0xFF
    &&& m.aux == aux
    &&& m.access == access
    &&& m.cur_ver == cur_ver
    &&& m.min_ver == min_ver
    &&& m.date == date
    &&& m.time == time
    &&& m.mod_date == mod_date
    &&& m.mod_time == mod_time
}

/// What adding a file leaves: a volume that is not ready for `add_file`
/// is refused with `DiskFull` and left as it was; otherwise `add_file`'s
/// outcome for `data` and `meta`.
pub open spec fn copy_post(
    s0: Seq<u8>,
    s1: Seq<u8>,
    disk_size: int,
    data: Seq<u8>,
    meta: FileMeta,
    allow_sparse: bool,
    r: Result<(), ProDosError>,
) -> bool {
    &&& !volume_ready(s0, disk_size) ==> r == Err::<(), ProDosError>(ProDosError::DiskFull) && s1 == s0
    &&& volume_ready(s0, disk_size) ==> add_file_post(s0, s1, disk_size, data, meta, allow_sparse, r)
}

/// Volume `s1` and result `r` after the file PRODOS of bytes `data` is
/// added to volume `s0` of `disk_size` bytes.
pub open spec fn prodos_copied(s0: Seq<u8>, s1: Seq<u8>, disk_size: int, data: Seq<u8>, r: Result<(), ProDosError>) -> bool {
    exists|m: FileMeta|
        #[trigger] sys_file(
            m,
            "PRODOS"@,
            0x0000,
            ACCESS_D | ACCESS_N | ACCESS_B | ACCESS_W | ACCESS_R,
            0x00,
            0x80,
            spec_pack_date(23u16, 12u8, 30u8),
            spec_pack_time(2u8, 43u8),
            spec_pack_date(23u16, 12u8, 30u8),
            spec_pack_time(2u8, 43u8),
        ) && copy_post(s0, s1, disk_size, data, m, true, r)
}

/// Volume `s1` and result `r` after the file BITSY.BOOT of bytes `data` is
/// added to volume `s0` of `disk_size` bytes.
pub open spec fn bitsy_boot_copied(s0: Seq<u8>, s1: Seq<u8>, disk_size: int, data: Seq<u8>, r: Result<(), ProDosError>) -> bool {
    exists|m: FileMeta|
        #[trigger] sys_file(
            m,
            "BITSY.BOOT"@,
            0x2000,
            ACCESS_B | ACCESS_R,
            0x24,
            0x00,
            spec_pack_date(18u16, 1u8, 13u8),
            spec_pack_time(9u8, 9u8),
            spec_pack_date(16u16, 9u8, 15u8),
            spec_pack_time(9u8, 49u8),
        ) && copy_post(s0, s1, disk_size, data, m, false, r)
}

/// Volume `s1` and result `r` after the file QUIT.SYSTEM of bytes `data` is
/// added to volume `s0` of `disk_size` bytes.
pub open spec fn bitsy_bye_copied(s0: Seq<u8>, s1: Seq<u8>, disk_size: int, data: Seq<u8>, r: Result<(), ProDosError>) -> bool {
    exists|m: FileMeta|
        #[trigger] sys_file(
            m,
            "QUIT.SYSTEM"@,
            0x2000,
            ACCESS_B | ACCESS_R,
            0x24,
            0x00,
            spec_pack_date(18u16, 1u8, 13u8),
            spec_pack_time(9u8, 9u8),
            spec_pack_date(16u16, 9u8, 15u8),
            spec_pack_time(9u8, 41u8),
        ) && copy_post(s0, s1, disk_size, data, m, false, r)
}

/// Volume `s1` and result `r` after the file BASIC.SYSTEM of bytes `data` is
/// added to volume `s0` of `disk_size` bytes.
pub open spec fn basic_copied(s0: Seq<u8>, s1: Seq<u8>, disk_size: int, data: Seq<u8>, r: Result<(), ProDosError>) -> bool {
    exists|m: FileMeta|
        #[trigger] sys_file(
            m,
            "BASIC.SYSTEM"@,
            0x2000,
            ACCESS_B | ACCESS_R,
            0x24,
            0x00,
            spec_pack_date(18u16, 1u8, 13u8),
            spec_pack_time(9u8, 9u8),
            spec_pack_date(16u16, 8u8, 30u8),
            spec_pack_time(7u8, 56u8),
        ) && copy_post(s0, s1, disk_size, data, m, true, r)
}

/// Add a file to the volume in `image`, refusing with `DiskFull` a volume
/// whose directory or bitmap cannot take it.
fn copy_file(image: &mut Vec<u8>, disk_size: usize, data: &[u8], meta: &FileMeta, allow_sparse: bool)
    -> (r: Result<(), ProDosError>)
    requires
        data@.len() > 0,
    ensures
        final(image)@.len() == old(image)@.len(),
        r is Err ==> r == Err::<(), ProDosError>(ProDosError::DiskFull) || r == Err::<
            (),
            ProDosError,
        >(ProDosError::FileTooBig),
        copy_post(old(image)@, final(image)@, disk_size as int, data@, *meta, allow_sparse, r),
{
    if !volume_ready_check(image.as_slice(), disk_size) {
        return Err(ProDosError::DiskFull);
    }
    add_file(image.as_mut_slice(), disk_size, data, meta, allow_sparse)
}

/// Add PRODOS (sparse blocks allowed).
fn copy_prodos(image: &mut Vec<u8>, disk_size: usize, data: &[u8]) -> (r: Result<(), ProDosError>)
    requires
        data@.len() > 0,
    ensures
        final(image)@.len() == old(image)@.len(),
        r is Err ==> r == Err::<(), ProDosError>(ProDosError::DiskFull) || r == Err::<
            (),
            ProDosError,
        >(ProDosError::FileTooBig),
        prodos_copied(old(image)@, final(image)@, disk_size as int, data@, r),
{
    let meta = FileMeta {
        name: "PRODOS".to_string(),
        file_type: 0xFF,
        aux: 0x0000,
        date: pack_date(23, 12, 30),
        time: pack_time(2, 43),
        mod_date: pack_date(23, 12, 30),
        mod_time: pack_time(2, 43),
        access: ACCESS_D | ACCESS_N | ACCESS_B | ACCESS_W | ACCESS_R,
        cur_ver: 0x00,
        min_ver: 0x80,
    };
    let r = copy_file(image, disk_size, data, &meta, true);
    assert(sys_file(
        meta,
        "PRODOS"@,
        0x0000,
        ACCESS_D | ACCESS_N | ACCESS_B | ACCESS_W | ACCESS_R,
        0x00,
        0x80,
        spec_pack_date(23u16, 12u8, 30u8),
        spec_pack_time(2u8, 43u8),
        spec_pack_date(23u16, 12u8, 30u8),
        spec_pack_time(2u8, 43u8),
    ));
    r
}

/// Add BITSY.BOOT.
fn copy_bitsy_boot(image: &mut Vec<u8>, disk_size: usize, data: &[u8]) -> (r: Result<(), ProDosError>)
    requires
        data@.len() > 0,
    ensures
        final(image)@.len() == old(image)@.len(),
        r is Err ==> r == Err::<(), ProDosError>(ProDosError::DiskFull) || r == Err::<
            (),
            ProDosError,
        >(ProDosError::FileTooBig),
        bitsy_boot_copied(old(image)@, final(image)@, disk_size as int, data@, r),
{
    let meta = sys_meta(
        "BITSY.BOOT",
        0x2000,
        0x24,
        0x00,
        pack_date(18, 1, 13),
        pack_time(9, 9),
        pack_date(16, 9, 15),
        pack_time(9, 49),
    );
    let r = copy_file(image, disk_size, data, &meta, false);
    assert(sys_file(
        meta,
        "BITSY.BOOT"@,
        0x2000,
        ACCESS_B | ACCESS_R,
        0x24,
        0x00,
        spec_pack_date(18u16, 1u8, 13u8),
        spec_pack_time(9u8, 9u8),
        spec_pack_date(16u16, 9u8, 15u8),
        spec_pack_time(9u8, 49u8),
    ));
    r
}

/// Add QUIT.SYSTEM.
fn copy_bitsy_bye(image: &mut Vec<u8>, disk_size: usize, data: &[u8]) -> (r: Result<(), ProDosError>)
    requires
        data@.len() > 0,
    ensures
        final(image)@.len() == old(image)@.len(),
        r is Err ==> r == Err::<(), ProDosError>(ProDosError::DiskFull) || r == Err::<
            (),
            ProDosError,
        >(ProDosError::FileTooBig),
        bitsy_bye_copied(old(image)@, final(image)@, disk_size as int, data@, r),
{
    let meta = sys_meta(
        "QUIT.SYSTEM",
        0x2000,
        0x24,
        0x00,
        pack_date(18, 1, 13),
        pack_time(9, 9),
        pack_date(16, 9, 15),
        pack_time(9, 41),
    );
    let r = copy_file(image, disk_size, data, &meta, false);
    assert(sys_file(
        meta,
        "QUIT.SYSTEM"@,
        0x2000,
        ACCESS_B | ACCESS_R,
        0x24,
        0x00,
        spec_pack_date(18u16, 1u8, 13u8),
        spec_pack_time(9u8, 9u8),
        spec_pack_date(16u16, 9u8, 15u8),
        spec_pack_time(9u8, 41u8),
    ));
    r
}

/// Add BASIC.SYSTEM (sparse blocks allowed).
fn copy_basic(image: &mut Vec<u8>, disk_size: usize, data: &[u8]) -> (r: Result<(), ProDosError>)
    requires
        data@.len() > 0,
    ensures
        final(image)@.len() == old(image)@.len(),
        r is Err ==> r == Err::<(), ProDosError>(ProDosError::DiskFull) || r == Err::<
            (),
            ProDosError,
        >(ProDosError::FileTooBig),
        basic_copied(old(image)@, final(image)@, disk_size as int, data@, r),
{
    let meta = sys_meta(
        "BASIC.SYSTEM",
        0x2000,
        0x24,
        0x00,
        pack_date(18, 1, 13),
        pack_time(9, 9),
        pack_date(16, 8, 30),
        pack_time(7, 56),
    );
    let r = copy_file(image, disk_size, data, &meta, true);
    assert(sys_file(
        meta,
        "BASIC.SYSTEM"@,
        0x2000,
        ACCESS_B | ACCESS_R,
        0x24,
        0x00,
        spec_pack_date(18u16, 1u8, 13u8),
        spec_pack_time(9u8, 9u8),
        spec_pack_date(16u16, 8u8, 30u8),
        spec_pack_time(7u8, 56u8),
    ));
    r
}

/// One stage of a new volume: when `on`, the file that `copied` adds goes
/// from `s0` to `s1` with result `e`; otherwise nothing changes.
pub open spec fn stage(
    on: bool,
    copied: spec_fn(Seq<u8>, Seq<u8>, int, Seq<u8>, Result<(), ProDosError>) -> bool,
    s0: Seq<u8>,
    s1: Seq<u8>,
    size: int,
    data: Seq<u8>,
    e: Result<(), ProDosError>,
) -> bool {
    if on {
        copied(s0, s1, size, data, e)
    } else {
        s1 == s0 && e is Ok
    }
}

/// A new volume of `size` bytes as `create_prodos_disk` builds it: `f` the
/// freshly formatted volume, then the boot blocks, then the stages of
/// BITSY.BOOT, QUIT.SYSTEM, BASIC.SYSTEM and PRODOS giving volumes `s1` to
/// `s4` and results `e1` to `e4`; each stage runs only after the ones
/// before it succeeded. `r` is the first failure, or the last volume.
pub open spec fn created(
    size: int,
    opts: ProDosCreateOptions,
    fw: ProDosFirmware,
    f: Seq<u8>,
    s1: Seq<u8>,
    s2: Seq<u8>,
    s3: Seq<u8>,
    s4: Seq<u8>,
    e1: Result<(), ProDosError>,
    e2: Result<(), ProDosError>,
    e3: Result<(), ProDosError>,
    e4: Result<(), ProDosError>,
    r: Result<Vec<u8>, ProDosError>,
) -> bool {
    let s0 = with_boot_blocks(f, fw.boot@);
    &&& prodos_formatted(Seq::new(size as nat, |j: int| 0u8), f, size, encode_utf8(opts.volume_name@))
    &&& stage(
        opts.copy_bitsy_boot,
        |a: Seq<u8>, b: Seq<u8>, n: int, d: Seq<u8>, x: Result<(), ProDosError>| bitsy_boot_copied(a, b, n, d, x),
        s0,
        s1,
        size,
        fw.bitsy_boot@,
        e1,
    )
    &&& e1 is Ok ==> stage(
        opts.copy_bitsy_bye,
        |a: Seq<u8>, b: Seq<u8>, n: int, d: Seq<u8>, x: Result<(), ProDosError>| bitsy_bye_copied(a, b, n, d, x),
        s1,
        s2,
        size,
        fw.quit@,
        e2,
    )
    &&& e1 is Ok && e2 is Ok ==> stage(
        opts.copy_basic,
        |a: Seq<u8>, b: Seq<u8>, n: int, d: Seq<u8>, x: Result<(), ProDosError>| basic_copied(a, b, n, d, x),
        s2,
        s3,
        size,
        fw.basic@,
        e3,
    )
    &&& e1 is Ok && e2 is Ok && e3 is Ok ==> stage(
        opts.copy_prodos,
        |a: Seq<u8>, b: Seq<u8>, n: int, d: Seq<u8>, x: Result<(), ProDosError>| prodos_copied(a, b, n, d, x),
        s3,
        s4,
        size,
        fw.prodos@,
        e4,
    )
    &&& match r {
        Ok(v) => e1 is Ok && e2 is Ok && e3 is Ok && e4 is Ok && v@ == s4,
        Err(x) => {
            ||| e1 == Err::<(), ProDosError>(x)
            ||| e1 is Ok && e2 == Err::<(), ProDosError>(x)
            ||| e1 is Ok && e2 is Ok && e3 == Err::<(), ProDosError>(x)
            ||| e1 is Ok && e2 is Ok && e3 is Ok && e4 == Err::<(), ProDosError>(x)
        },
    }
}

/// Build a new bootable ProDOS image of `size` bytes in block order: a
/// fresh volume named after `opts` (a leading '/' stripped), the boot
/// blocks from `fw.boot`, then the system files `opts` asks for, in the
/// order BITSY.BOOT, QUIT.SYSTEM, BASIC.SYSTEM, PRODOS. A file that does not
/// fit fails the whole image with that file's error.
pub fn create_prodos_disk(size: usize, opts: &ProDosCreateOptions, fw: &ProDosFirmware) -> (r: Result<
    Vec<u8>,
    ProDosError,
>)
    requires
        1024 <= size,
        3072 + spec_bitmap_byte_count(size as int) <= size,
        spec_bitmap_byte_count(size as int) * 8 <= u32::MAX,
        fw.prodos@.len() > 0,
        fw.basic@.len() > 0,
        fw.bitsy_boot@.len() > 0,
        fw.quit@.len() > 0,
    ensures
        r is Ok ==> r->Ok_0@.len() == size,
        r is Err ==> r == Err::<Vec<u8>, ProDosError>(ProDosError::DiskFull) || r == Err::<
            Vec<u8>,
            ProDosError,
        >(ProDosError::FileTooBig),
        !opts.copy_bitsy_boot && !opts.copy_bitsy_bye && !opts.copy_basic && !opts.copy_prodos ==> r is Ok
            && exists|f: Seq<u8>|
            prodos_formatted(Seq::new(size as nat, |j: int| 0u8), f, size as int, encode_utf8(opts.volume_name@))
                && r->Ok_0@ == with_boot_blocks(f, fw.boot@),
        exists|
            f: Seq<u8>,
            s1: Seq<u8>,
            s2: Seq<u8>,
            s3: Seq<u8>,
            s4: Seq<u8>,
            e1: Result<(), ProDosError>,
            e2: Result<(), ProDosError>,
            e3: Result<(), ProDosError>,
            e4: Result<(), ProDosError>,
        | #[trigger] created(size as int, *opts, *fw, f, s1, s2, s3, s4, e1, e2, e3, e4, r),
{
    let mut image = vec![0u8; size];
    assert(image@ =~= Seq::new(size as nat, |j: int| 0u8));
    format_filesystem(image.as_mut_slice(), size, opts.volume_name.as_str());
    let ghost formatted = image@;
    let n: usize = if fw.boot.len() < 1024 { fw.boot.len() } else { 1024 };
    let mut i: usize = 0;
    while i < n
        invariant
            i <= n <= fw.boot@.len(),
            n <= 1024,
            n <= size,
            image@.len() == size,
            formatted.len() == size,
            forall|j: int| 0 <= j < size ==> image@[j] == (if j < i { fw.boot@[j] } else { formatted[j] }),
        decreases n - i,
    {
        image.set(i, fw.boot[i]);
        i = i + 1;
    }
    assert(image@ =~= with_boot_blocks(formatted, fw.boot@));
    let ghost mut s1 = image@;
    let ghost mut s2 = image@;
    let ghost mut s3 = image@;
    let ghost mut s4 = image@;
    let ghost mut e1: Result<(), ProDosError> = Ok(());
    let ghost mut e2: Result<(), ProDosError> = Ok(());
    let ghost mut e3: Result<(), ProDosError> = Ok(());
    let ghost mut e4: Result<(), ProDosError> = Ok(());
    if opts.copy_bitsy_boot {
        let res = copy_bitsy_boot(&mut image, size, fw.bitsy_boot.as_slice());
        proof {
            s1 = image@;
            s2 = image@;
            s3 = image@;
            s4 = image@;
            e1 = res;
        }
        if let Err(e) = res {
            assert(created(size as int, *opts, *fw, formatted, s1, s2, s3, s4, e1, e2, e3, e4, Err(e)));
            return Err(e);
        }
    }
    if opts.copy_bitsy_bye {
        let res = copy_bitsy_bye(&mut image, size, fw.quit.as_slice());
        proof {
            s2 = image@;
            s3 = image@;
            s4 = image@;
            e2 = res;
        }
        if let Err(e) = res {
            assert(created(size as int, *opts, *fw, formatted, s1, s2, s3, s4, e1, e2, e3, e4, Err(e)));
            return Err(e);
        }
    }
    if opts.copy_basic {
        let res = copy_basic(&mut image, size, fw.basic.as_slice());
        proof {
            s3 = image@;
            s4 = image@;
            e3 = res;
        }
        if let Err(e) = res {
            assert(created(size as int, *opts, *fw, formatted, s1, s2, s3, s4, e1, e2, e3, e4, Err(e)));
            return Err(e);
        }
    }
    if opts.copy_prodos {
        let res = copy_prodos(&mut image, size, fw.prodos.as_slice());
        proof {
            s4 = image@;
            e4 = res;
        }
        if let Err(e) = res {
            assert(created(size as int, *opts, *fw, formatted, s1, s2, s3, s4, e1, e2, e3, e4, Err(e)));
            return Err(e);
        }
    }
    assert(created(size as int, *opts, *fw, formatted, s1, s2, s3, s4, e1, e2, e3, e4, Ok(image)));
    Ok(image)
}

/// Re-format a ProDOS image (named `BLANK`): when `use_interleave` (the
/// image is in DOS 3.3 sector order) it is swizzled to ProDOS order first and
/// back afterwards. Images over 32 MB are refused.
pub fn format_prodos_disk(image: &mut Vec<u8>, use_interleave: bool) -> (r: Result<(), ProDosError>)
    requires
        old(image)@.len() <= MAX_PRODOS_SIZE ==> 4096 <= old(image)@.len(),
    ensures
        old(image)@.len() > MAX_PRODOS_SIZE <==> r == Err::<(), ProDosError>(
            ProDosError::ImageTooLarge,
        ),
        r is Err ==> final(image)@ == old(image)@,
        r is Ok && !use_interleave ==> prodos_formatted(
            old(image)@,
            final(image)@,
            old(image)@.len() as int,
            "BLANK".spec_bytes(),
        ),
        r is Ok && use_interleave ==> prodos_formatted(
            interleave_image(old(image)@, old(image)@.len() as int),
            interleave_image(final(image)@, old(image)@.len() as int),
            old(image)@.len() as int,
            "BLANK".spec_bytes(),
        ),
{
    let size = image.len();
    if size > MAX_PRODOS_SIZE {
        return Err(ProDosError::ImageTooLarge);
    }
    assert(3072 + spec_bitmap_byte_count(size as int) <= size) by {
        assert(spec_bitmap_byte_count(size as int) <= size / 4096 + 1);
    }
    if use_interleave {
        forward_sector_interleave(image.as_mut_slice(), size);
    }
    let ghost swapped = image@;
    format_filesystem(image.as_mut_slice(), size, "BLANK");
    let ghost formatted = image@;
    if use_interleave {
        reverse_sector_interleave(image.as_mut_slice(), size);
        proof {
            lemma_interleave_roundtrip(formatted, size as int);
        }
    }
    Ok(())
}

/// Re-format a DOS 3.3 image in place (VTOC on track 17). Images of fewer
/// than 34 or more than 40 tracks are refused.
pub fn format_dos33_disk(image: &mut Vec<u8>) -> (r: Result<(), ProDosError>)
    ensures
        old(image)@.len() < MIN_DOS33_SIZE ==> r == Err::<(), ProDosError>(ProDosError::ImageTooSmall),
        MIN_DOS33_SIZE <= old(image)@.len() && old(image)@.len() > MAX_DOS33_SIZE ==> r == Err::<
            (),
            ProDosError,
        >(ProDosError::ImageTooLarge),
        r is Err ==> final(image)@ == old(image)@,
        MIN_DOS33_SIZE <= old(image)@.len() <= MAX_DOS33_SIZE ==> r is Ok && final(image)@
            == dos33_formatted(old(image)@, 0x11, old(image)@.len() as int / 4096),
{
    let size = image.len();
    if size < MIN_DOS33_SIZE {
        return Err(ProDosError::ImageTooSmall);
    }
    if size > MAX_DOS33_SIZE {
        return Err(ProDosError::ImageTooLarge);
    }
    format_dos33_filesystem(image.as_mut_slice(), size, VTOC_TRACK);
    Ok(())
}

} // verus!
