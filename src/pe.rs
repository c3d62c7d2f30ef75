//! Export resolution in a 32-bit PE module, read from an image of the module
//! (its bytes from the load base on, so that an RVA is an index).  Only three
//! plain byte views are used: the `e_lfanew` slot of the DOS header at 0x3C,
//! the first data directory of the PE32 optional header at 0x78 from the NT
//! headers, and the export directory's name count and three table RVAs.

use vstd::bytes::*;
use vstd::prelude::*;
use vstd::slice::slice_subrange;

use crate::ring::word_at;

verus! {

/// Offset of `e_lfanew` in the DOS header.
pub const DOS_LFANEW_OFFSET: u64 = 0x3C;

/// Offset, from the NT headers, of the export directory's RVA in a PE32 image.
pub const EXPORT_DIRECTORY_SLOT: u64 = 0x78;

/// Offset of `NumberOfNames` in the export directory.
pub const EXPORT_NUMBER_OF_NAMES: u64 = 0x18;

/// Offset of `AddressOfFunctions` in the export directory.
pub const EXPORT_ADDRESS_OF_FUNCTIONS: u64 = 0x1C;

/// Offset of `AddressOfNames` in the export directory.
pub const EXPORT_ADDRESS_OF_NAMES: u64 = 0x20;

/// Offset of `AddressOfNameOrdinals` in the export directory.
pub const EXPORT_ADDRESS_OF_ORDINALS: u64 = 0x24;

/// Why an export could not be resolved.
#[derive(Clone, Copy, Debug, PartialEq, Eq, Structural)]
pub enum ExportError {
    /// A structure the lookup needs lies outside the image.
    OutOfImage,
    /// The module has no export directory.
    NoExportDirectory,
    /// No exported name matches.
    NotFound,
}

/// The little-endian word at `off`, if the image holds it.
pub open spec fn image_u32(img: Seq<u8>, off: int) -> Option<u32> {
    if 0 <= off && off + 4 <= img.len() {
        Some(word_at(img, off))
    } else {
        None
    }
}

/// The little-endian half-word at `off`, if the image holds it.
pub open spec fn image_u16(img: Seq<u8>, off: int) -> Option<u16> {
    if 0 <= off && off + 2 <= img.len() {
        Some(spec_u16_from_le_bytes(img.subrange(off, off + 2)))
    } else {
        None
    }
}

/// The export directory fields the lookup uses.
pub struct ExportTables {
    pub number_of_names: u32,
    pub functions: u32,
    pub names: u32,
    pub ordinals: u32,
}

/// The export directory of the image, located through `e_lfanew` and the
/// first data directory.
pub open spec fn export_tables(img: Seq<u8>) -> Result<ExportTables, ExportError> {
    match image_u32(img, DOS_LFANEW_OFFSET as int) {
        None => Err(ExportError::OutOfImage),
        Some(lfanew) => match image_u32(img, lfanew + EXPORT_DIRECTORY_SLOT) {
            None => Err(ExportError::OutOfImage),
            Some(dir) => if dir == 0 {
                Err(ExportError::NoExportDirectory)
            } else {
                match (
                    image_u32(img, dir + EXPORT_NUMBER_OF_NAMES),
                    image_u32(img, dir + EXPORT_ADDRESS_OF_FUNCTIONS),
                    image_u32(img, dir + EXPORT_ADDRESS_OF_NAMES),
                    image_u32(img, dir + EXPORT_ADDRESS_OF_ORDINALS),
                ) {
                    (Some(n), Some(f), Some(nm), Some(o)) => Ok(
                        ExportTables { number_of_names: n, functions: f, names: nm, ordinals: o },
                    ),
                    _ => Err(ExportError::OutOfImage),
                }
            },
        },
    }
}

/// The NUL-terminated string at `at` is `name`.
pub open spec fn name_at(img: Seq<u8>, at: int, name: Seq<u8>) -> bool {
    img.subrange(at, at + name.len() + 1) == name.push(0)
}

/// Result of scanning the name table from index `i` on: the RVA of the
/// function whose name is `name`, found through its ordinal.
pub open spec fn scan_names(img: Seq<u8>, t: ExportTables, name: Seq<u8>, i: nat) -> Result<
    u32,
    ExportError,
>
    decreases t.number_of_names - i,
{
    if i >= t.number_of_names {
        Err(ExportError::NotFound)
    } else {
        match image_u32(img, t.names + 4 * i) {
            None => Err(ExportError::OutOfImage),
            Some(name_rva) => if name_rva + name.len() + 1 > img.len() {
                Err(ExportError::OutOfImage)
            } else if name_at(img, name_rva as int, name) {
                match image_u16(img, t.ordinals + 2 * i) {
                    None => Err(ExportError::OutOfImage),
                    Some(ordinal) => match image_u32(img, t.functions + 4 * ordinal) {
                        None => Err(ExportError::OutOfImage),
                        Some(rva) => Ok(rva),
                    },
                }
            } else {
                scan_names(img, t, name, i + 1)
            },
        }
    }
}

/// Address of the export `name` of the module loaded at `base` whose image is `img`.
pub open spec fn spec_find_export(img: Seq<u8>, base: u32, name: Seq<u8>) -> Result<
    u64,
    ExportError,
> {
    match export_tables(img) {
        Err(e) => Err(e),
        Ok(t) => match scan_names(img, t, name, 0) {
            Err(e) => Err(e),
            Ok(rva) => Ok((base + rva) as u64),
        },
    }
}

/// The word at `off` of the image, if it lies inside.
pub fn read_u32(img: &[u8], off: u64) -> (r: Option<u32>)
    ensures
        r == image_u32(img@, off as int),
{
    let len = img.len();
    if len < 4 || off > (len - 4) as u64 {
        return None;
    }
    let at = off as usize;
    Some(u32_from_le_bytes(slice_subrange(img, at, at + 4)))
}

/// The half-word at `off` of the image, if it lies inside.
pub fn read_u16(img: &[u8], off: u64) -> (r: Option<u16>)
    ensures
        r == image_u16(img@, off as int),
{
    let len = img.len();
    if len < 2 || off > (len - 2) as u64 {
        return None;
    }
    let at = off as usize;
    Some(u16_from_le_bytes(slice_subrange(img, at, at + 2)))
}

/// Reads the export directory fields.
pub fn read_export_tables(img: &[u8]) -> (r: Result<ExportTables, ExportError>)
    ensures
        r == export_tables(img@),
{
    let lfanew = match read_u32(img, DOS_LFANEW_OFFSET) {
        Some(v) => v,
        None => {
            return Err(ExportError::OutOfImage);
        },
    };
    let dir = match read_u32(img, lfanew as u64 + EXPORT_DIRECTORY_SLOT) {
        Some(v) => v,
        None => {
            return Err(ExportError::OutOfImage);
        },
    };
    if dir == 0 {
        return Err(ExportError::NoExportDirectory);
    }
    let d = dir as u64;
    let n = read_u32(img, d + EXPORT_NUMBER_OF_NAMES);
    let f = read_u32(img, d + EXPORT_ADDRESS_OF_FUNCTIONS);
    let nm = read_u32(img, d + EXPORT_ADDRESS_OF_NAMES);
    let o = read_u32(img, d + EXPORT_ADDRESS_OF_ORDINALS);
    match (n, f, nm, o) {
        (Some(n), Some(f), Some(nm), Some(o)) => Ok(
            ExportTables { number_of_names: n, functions: f, names: nm, ordinals: o },
        ),
        _ => Err(ExportError::OutOfImage),
    }
}

/// Whether the NUL-terminated string at `at` is `name`; `at + name.len() + 1`
/// lies inside the image.
fn name_matches(img: &[u8], at: usize, name: &[u8]) -> (r: bool)
    requires
        at + name@.len() + 1 <= img@.len(),
    ensures
        r == name_at(img@, at as int, name@),
{
    let n = name.len();
    let len = img.len();
    let mut k: usize = 0;
    while k < n
        invariant
            n == name@.len(),
            len == img@.len(),
            at + n + 1 <= len,
            k <= n,
            forall|j: int| 0 <= j < k ==> img@[at + j] == name@[j],
        decreases n - k,
    {
        if img[at + k] != name[k] {
            proof {
                assert(img@.subrange(at as int, at + n + 1)[k as int] != name@.push(0)[k as int]);
            }
            return false;
        }
        k = k + 1;
    }
    if img[at + n] != 0 {
        proof {
            assert(img@.subrange(at as int, at + n + 1)[n as int] != name@.push(0)[n as int]);
        }
        return false;
    }
    proof {
        assert(img@.subrange(at as int, at + n + 1) =~= name@.push(0));
    }
    true
}

/// Finds the export `name` in the image of a 32-bit module loaded at
/// `base`: walks the name table in order and, at the first name that
/// matches, maps its ordinal through the function table.  The result is
/// `base` plus the function's RVA.
pub fn find_export(img: &[u8], base: u32, name: &[u8]) -> (r: Result<u64, ExportError>)
    ensures
        r == spec_find_export(img@, base, name@),
{
    let t = match read_export_tables(img) {
        Ok(t) => t,
        Err(e) => {
            return Err(e);
        },
    };
    let count = t.number_of_names;
    let mut i: u32 = 0;
    while i < count
        invariant
            export_tables(img@) == Ok::<ExportTables, ExportError>(t),
            count == t.number_of_names,
            i <= count,
            scan_names(img@, t, name@, i as nat) == scan_names(img@, t, name@, 0),
        decreases count - i,
    {
        let name_slot = t.names as u64 + 4 * i as u64;
        let name_rva = match read_u32(img, name_slot) {
            Some(v) => v,
            None => {
                return Err(ExportError::OutOfImage);
            },
        };
        if name.len() >= img.len() || name_rva as u64 > (img.len() - name.len()
            - 1) as u64 {
            return Err(ExportError::OutOfImage);
        }
        if name_matches(img, name_rva as usize, name) {
            let ordinal = match read_u16(img, t.ordinals as u64 + 2 * i as u64) {
                Some(v) => v,
                None => {
                    return Err(ExportError::OutOfImage);
                },
            };
            let rva = match read_u32(img, t.functions as u64 + 4 * ordinal as u64) {
                Some(v) => v,
                None => {
                    return Err(ExportError::OutOfImage);
                },
            };
            return Ok(base as u64 + rva as u64);
        }
        i = i + 1;
    }
    Err(ExportError::NotFound)
}

/// ASCII lower case of a UTF-16 unit; other units are unchanged.
pub open spec fn ascii_lower(u: u16) -> u16 {
    if 65 <= u <= 90 {
        (u + 32) as u16
    } else {
        u
    }
}

/// The module name stored in `name` (up to its first NUL) equals `wanted`
/// when ASCII letters are compared without regard to case.
pub open spec fn spec_module_name_matches(name: Seq<u16>, wanted: Seq<u8>) -> bool {
    &&& wanted.len() <= name.len()
    &&& (wanted.len() == name.len() || name[wanted.len() as int] == 0)
    &&& forall|k: int|
        0 <= k < wanted.len() ==> name[k] != 0 && ascii_lower(name[k]) == ascii_lower(
            wanted[k] as u16,
        )
}

/// Compares a NUL-padded UTF-16 module name with an ASCII name, ignoring
/// ASCII case.
pub fn module_name_matches(name: &[u16], wanted: &[u8]) -> (r: bool)
    ensures
        r == spec_module_name_matches(name@, wanted@),
{
    let n = wanted.len();
    if n > name.len() {
        return false;
    }
    if n < name.len() && name[n] != 0 {
        return false;
    }
    let mut k: usize = 0;
    while k < n
        invariant
            n == wanted@.len(),
            n <= name@.len(),
            k <= n,
            forall|j: int|
                0 <= j < k ==> name@[j] != 0 && ascii_lower(name@[j]) == ascii_lower(
                    wanted@[j] as u16,
                ),
        decreases n - k,
    {
        let u = name[k];
        let lu = if 65 <= u && u <= 90 {
            u + 32
        } else {
            u
        };
        let w = wanted[k] as u16;
        let lw = if 65 <= w && w <= 90 {
            w + 32
        } else {
            w
        };
        if u == 0 || lu != lw {
            return false;
        }
        k = k + 1;
    }
    true
}

} // verus!
