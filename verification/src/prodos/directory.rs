//! ProDOS directory traversal and entry-allocation helpers.
//!
//! A directory is a chain of 512-byte blocks; bytes 2..4 of each block hold
//! the next block number (0 ends the chain).

use vstd::prelude::*;
use vstd::string::StringSliceAdditionalSpecFns;
use super::types::{BLOCK_SIZE, ROOT_OFFSET, get_file_header, get_u16, le16};

verus! {

/// A bound on the length of any directory chain that ends: a chain that
/// ends visits each block of the image at most once.
pub open spec fn chain_fuel(s: Seq<u8>) -> nat {
    (s.len() / 512 + 2) as nat
}

/// Number of blocks in the directory chain starting at byte `off`, if the
/// chain ends within `fuel` blocks and every link lies inside the image.
pub open spec fn dir_chain_len(s: Seq<u8>, off: int, fuel: nat) -> Option<nat>
    decreases fuel,
{
    if fuel == 0 || off < 0 || off + 3 >= s.len() {
        None
    } else if le16(s, off + 2) == 0 {
        Some(1)
    } else {
        match dir_chain_len(s, le16(s, off + 2) * 512, (fuel - 1) as nat) {
            Some(n) => Some(n + 1),
            None => None,
        }
    }
}

/// Count how many 512-byte blocks make up the directory chain starting at
/// byte `offset`.
pub fn get_dir_block_count(image: &[u8], offset: usize) -> (count: usize)
    requires
        dir_chain_len(image@, offset as int, chain_fuel(image@)) is Some,
    ensures
        count == dir_chain_len(image@, offset as int, chain_fuel(image@))->0,
{
    let ghost total: int = dir_chain_len(image@, offset as int, chain_fuel(image@))->0 as int;
    let ghost mut fuel = chain_fuel(image@);
    let mut cur = offset;
    let mut count: usize = 0;
    loop
        invariant
            dir_chain_len(image@, cur as int, fuel) is Some,
            count + dir_chain_len(image@, cur as int, fuel)->0 == total,
            total == dir_chain_len(image@, offset as int, chain_fuel(image@))->0,
            count + fuel <= chain_fuel(image@),
            image@.len() == image.len(),
        decreases fuel,
    {
        let ghost rest = dir_chain_len(image@, cur as int, fuel);
        assert(fuel > 0 && cur + 3 < image@.len());
        count = count + 1;
        let next_block = get_u16(image, cur + 2) as usize;
        if next_block == 0 {
            assert(rest == Some(1nat));
            return count;
        }
        cur = next_block * BLOCK_SIZE;
        proof {
            fuel = (fuel - 1) as nat;
        }
    }
}

/// Byte offset in the image of a ProDOS path. Only the root path (`"/"` or
/// `""`) is known; every other path gives `None`.
pub fn get_path_offset(path: &str) -> (r: Option<usize>)
    ensures
        r == (if path.spec_bytes().len() == 0 || path.spec_bytes() == seq![47u8] {
            Some(0x400usize)
        } else {
            None
        }),
{
    let b = path.as_bytes();
    if b.len() == 0 || (b.len() == 1 && b[0] == 47u8) {
        assert(b.len() == 1 ==> b@ =~= seq![b@[0]]);
        Some(ROOT_OFFSET)
    } else {
        assert(b@.len() != 1 ==> b@ != seq![47u8]);
        None
    }
}

/// A directory entry is free when its kind is "deleted" or its name is empty.
pub open spec fn entry_is_free(s: Seq<u8>, e: int) -> bool {
    s[e] / 16 == 0 || s[e] % 16 == 0
}

/// Scan `remaining` entries of one block starting at byte `e`: `None` when an
/// entry lies outside the image, else the first free entry, if any.
pub open spec fn scan_entries(s: Seq<u8>, e: int, entry_len: int, remaining: nat) -> Option<
    Option<int>,
>
    decreases remaining,
{
    if remaining == 0 {
        Some(None)
    } else if e < 0 || e + 39 > s.len() {
        None
    } else if entry_is_free(s, e) {
        Some(Some(e))
    } else {
        scan_entries(s, e + entry_len, entry_len, (remaining - 1) as nat)
    }
}

/// Scan the directory chain starting at block byte offset `block_off` for the
/// first free entry: `None` when the scan leaves the image or does not end
/// within `fuel` blocks, else the entry found, if any.
pub open spec fn scan_dir(
    s: Seq<u8>,
    block_off: int,
    entry_len: int,
    entry_num: nat,
    fuel: nat,
) -> Option<Option<int>>
    decreases fuel,
{
    if fuel == 0 {
        None
    } else {
        match scan_entries(s, block_off + 4, entry_len, entry_num) {
            None => None,
            Some(Some(e)) => Some(Some(e)),
            Some(None) => if block_off < 0 || block_off + 3 >= s.len() {
                None
            } else if le16(s, block_off + 2) == 0 {
                Some(None)
            } else {
                scan_dir(s, le16(s, block_off + 2) * 512, entry_len, entry_num, (fuel - 1) as nat)
            },
        }
    }
}

/// An entry found by the scan of one block lies inside the image.
pub proof fn lemma_scan_entries_in_bounds(s: Seq<u8>, e: int, entry_len: int, remaining: nat)
    ensures
        scan_entries(s, e, entry_len, remaining) matches Some(Some(f)) ==> 0 <= f && f + 39 <= s.len(),
    decreases remaining,
{
    if remaining > 0 && !(e < 0 || e + 39 > s.len()) && !entry_is_free(s, e) {
        lemma_scan_entries_in_bounds(s, e + entry_len, entry_len, (remaining - 1) as nat);
    }
}

/// An entry found by the directory scan lies inside the image.
pub proof fn lemma_scan_dir_in_bounds(
    s: Seq<u8>,
    block_off: int,
    entry_len: int,
    entry_num: nat,
    fuel: nat,
)
    ensures
        scan_dir(s, block_off, entry_len, entry_num, fuel) matches Some(Some(f)) ==> 0 <= f && f + 39
            <= s.len(),
    decreases fuel,
{
    if fuel > 0 {
        lemma_scan_entries_in_bounds(s, block_off + 4, entry_len, entry_num);
        if block_off >= 0 && block_off + 3 < s.len() && le16(s, block_off + 2) != 0 {
            lemma_scan_dir_in_bounds(
                s,
                le16(s, block_off + 2) * 512,
                entry_len,
                entry_num,
                (fuel - 1) as nat,
            );
        }
    }
}

/// Find the first directory entry whose kind is "deleted" or whose name is
/// empty, scanning the directory chain from `base_offset`. Returns its byte
/// offset, or `None` if the directory is full.
pub fn get_first_free_entry_offset(image: &[u8], base_offset: usize, entry_len: u8, entry_num: u8)
    -> (r: Option<usize>)
    requires
        scan_dir(image@, base_offset as int, entry_len as int, entry_num as nat, chain_fuel(image@))
            is Some,
        image.len() + 1024 < usize::MAX,
    ensures
        r is Some <==> scan_dir(
            image@,
            base_offset as int,
            entry_len as int,
            entry_num as nat,
            chain_fuel(image@),
        )->0 is Some,
        r is Some ==> r->0 == scan_dir(
            image@,
            base_offset as int,
            entry_len as int,
            entry_num as nat,
            chain_fuel(image@),
        )->0->0,
{
    let ghost target = scan_dir(
        image@,
        base_offset as int,
        entry_len as int,
        entry_num as nat,
        chain_fuel(image@),
    );
    let ghost mut fuel = chain_fuel(image@);
    let mut block_off = base_offset;
    loop
        invariant
            fuel > 0 ==> scan_dir(image@, block_off as int, entry_len as int, entry_num as nat, fuel)
                == target,
            fuel > 0,
            target is Some,
            target == scan_dir(
                image@,
                base_offset as int,
                entry_len as int,
                entry_num as nat,
                chain_fuel(image@),
            ),
            image.len() + 1024 < usize::MAX,
            image@.len() == image.len(),
        decreases fuel,
    {
        assert(scan_entries(image@, block_off + 4, entry_len as int, entry_num as nat) is Some);
        let mut entry_off = block_off + 4;
        let mut k: u8 = 0;
        while k < entry_num
            invariant
                k <= entry_num,
                entry_off <= image.len() + 256,
                image.len() + 1024 < usize::MAX,
                scan_entries(image@, entry_off as int, entry_len as int, (entry_num - k) as nat)
                    == scan_entries(image@, block_off + 4, entry_len as int, entry_num as nat),
                fuel > 0,
                scan_dir(image@, block_off as int, entry_len as int, entry_num as nat, fuel)
                    == target,
                target is Some,
            target == scan_dir(
                image@,
                base_offset as int,
                entry_len as int,
                entry_num as nat,
                chain_fuel(image@),
            ),
                scan_entries(image@, block_off + 4, entry_len as int, entry_num as nat) is Some,
                image@.len() == image.len(),
            decreases entry_num - k,
        {
            assert(entry_off + 39 <= image@.len());
            let f = get_file_header(image, entry_off);
            if f.kind == 0 || f.len == 0 {
                assert(entry_is_free(image@, entry_off as int));
                assert(scan_entries(image@, entry_off as int, entry_len as int, (entry_num - k) as nat)
                    == Some(Some(entry_off as int)));
                assert(target == Some(Some(entry_off as int)));
                return Some(entry_off);
            }
            entry_off = entry_off + entry_len as usize;
            k = k + 1;
        }
        assert(scan_entries(image@, block_off + 4, entry_len as int, entry_num as nat) == Some(
            None::<int>,
        ));
        assert(block_off + 3 < image@.len());
        let next_block = get_u16(image, block_off + 2) as usize;
        if next_block == 0 {
            assert(target == Some(None::<int>));
            return None;
        }
        block_off = next_block * BLOCK_SIZE;
        proof {
            fuel = (fuel - 1) as nat;
        }
    }
}

/// Whether the scan of the directory chain at `base_offset` for a free
/// entry stays inside the image and ends (whatever it finds).
pub fn scan_dir_defined(image: &[u8], base_offset: usize, entry_len: u8, entry_num: u8) -> (r: bool)
    requires
        image.len() + 1024 < usize::MAX,
    ensures
        r == scan_dir(image@, base_offset as int, entry_len as int, entry_num as nat, chain_fuel(image@))
            is Some,
{
    let ghost target = scan_dir(
        image@,
        base_offset as int,
        entry_len as int,
        entry_num as nat,
        chain_fuel(image@),
    );
    let mut fuel: usize = image.len() / BLOCK_SIZE + 2;
    let mut block_off = base_offset;
    loop
        invariant
            scan_dir(image@, block_off as int, entry_len as int, entry_num as nat, fuel as nat)
                == target,
            target == scan_dir(
                image@,
                base_offset as int,
                entry_len as int,
                entry_num as nat,
                chain_fuel(image@),
            ),
            image.len() + 1024 < usize::MAX,
            image@.len() == image.len(),
            fuel > 0,
        decreases fuel,
    {
        if block_off > image.len() {
            return false;
        }
        let mut entry_off: usize = block_off + 4;
        let mut k: u8 = 0;
        while k < entry_num
            invariant
                k <= entry_num,
                entry_off <= image.len() + 256,
                block_off <= image.len(),
                image.len() + 1024 < usize::MAX,
                scan_entries(image@, entry_off as int, entry_len as int, (entry_num - k) as nat)
                    == scan_entries(image@, block_off + 4, entry_len as int, entry_num as nat),
                fuel > 0,
                scan_dir(image@, block_off as int, entry_len as int, entry_num as nat, fuel as nat)
                    == target,
                target == scan_dir(
                    image@,
                    base_offset as int,
                    entry_len as int,
                    entry_num as nat,
                    chain_fuel(image@),
                ),
                image@.len() == image.len(),
            decreases entry_num - k,
        {
            if entry_off + 39 > image.len() {
                return false;
            }
            let kind = image[entry_off];
            if kind / 16 == 0 || kind % 16 == 0 {
                assert(entry_is_free(image@, entry_off as int));
                return true;
            }
            entry_off = entry_off + entry_len as usize;
            k = k + 1;
        }
        assert(scan_entries(image@, block_off + 4, entry_len as int, entry_num as nat) == Some(
            None::<int>,
        ));
        if block_off + 3 >= image.len() {
            return false;
        }
        let next_block = get_u16(image, block_off + 2) as usize;
        if next_block == 0 {
            return true;
        }
        if fuel == 1 {
            assert(scan_dir(image@, next_block * 512, entry_len as int, entry_num as nat, 0) is None);
            return false;
        }
        block_off = next_block * BLOCK_SIZE;
        fuel = fuel - 1;
    }
}

/// The directory block number that contains `base_offset`.
pub fn dir_block_of(base_offset: usize) -> (r: u32)
    ensures
        r == (base_offset / 512) as u32,
{
    (base_offset / BLOCK_SIZE) as u32
}

} // verus!
