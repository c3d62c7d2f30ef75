//! Build identification: the build number comes from the low 16 bits of the
//! executable's "file version LS" word and selects a record of hook sites.

use vstd::prelude::*;

use crate::text::{decimal, text_with_number};

verus! {

/// Vanilla 1.12.1.
pub const BUILD_VANILLA: u32 = 5875;

/// The Burning Crusade 2.4.3.
pub const BUILD_TBC: u32 = 8606;

/// Wrath of the Lich King 3.3.5a.
pub const BUILD_WOTLK: u32 = 12340;

/// Cataclysm 4.3.4.
pub const BUILD_CATA: u32 = 15595;

/// Largest offset relative to the module base in the build table.
pub const MAX_RELATIVE_OFFSET: usize = 0x00C27E00;

/// Absolute addresses and hook sizes for one running build.
#[derive(Clone, Copy, Debug, PartialEq, Eq, Structural)]
pub struct WowOffsets {
    /// Connection object / opcode handler table.
    pub opcode_table: usize,
    /// Opcode name table, 0 where the build has none.
    pub opcode_names: usize,
    /// Address of the send function (hooked).
    pub send_packet: usize,
    /// Address of the receive handler (hooked).
    pub recv_handler: usize,
    /// Number of opcodes in the build.
    pub num_opcodes: u32,
    /// Prologue bytes overwritten at the send site (on an instruction boundary).
    pub send_hook_size: usize,
    /// Prologue bytes overwritten at the receive site (on an instruction boundary).
    pub recv_hook_size: usize,
}

/// The builds that have a record.
pub open spec fn is_supported_build(build: u32) -> bool {
    build == BUILD_VANILLA || build == BUILD_TBC || build == BUILD_WOTLK || build == BUILD_CATA
}

/// The record of a supported build relative to a module base of 0; an
/// opcode-name offset of 0 means that the build has no such table.
pub open spec fn relative_record(build: u32) -> WowOffsets {
    if build == BUILD_VANILLA {
        WowOffsets {
            opcode_table: 0x00C27E00,
            opcode_names: 0,
            send_packet: 0x001B5630,
            recv_handler: 0x00137AA0,
            num_opcodes: 0x1DD,
            send_hook_size: 6,
            recv_hook_size: 9,
        }
    } else if build == BUILD_TBC {
        WowOffsets {
            opcode_table: 0x00A03F80,
            opcode_names: 0,
            send_packet: 0x00246530,
            recv_handler: 0x002455A0,
            num_opcodes: 0x3FF,
            send_hook_size: 6,
            recv_hook_size: 6,
        }
    } else if build == BUILD_WOTLK {
        WowOffsets {
            opcode_table: 0x00879CF4,
            opcode_names: 0x005E0E24,
            send_packet: 0x003653B0,
            recv_handler: 0x0036DC80,
            num_opcodes: 0x4FF,
            send_hook_size: 6,
            recv_hook_size: 6,
        }
    } else {
        WowOffsets {
            opcode_table: 0x009BE5A0,
            opcode_names: 0x009BE5A4,
            send_packet: 0x00405F70,
            recv_handler: 0x004098C0,
            num_opcodes: 0x7FF,
            send_hook_size: 6,
            recv_hook_size: 6,
        }
    }
}

/// Shifts every present address of `rel` by `base`.
pub open spec fn rebase(rel: WowOffsets, base: usize) -> WowOffsets {
    WowOffsets {
        opcode_table: (base + rel.opcode_table) as usize,
        opcode_names: if rel.opcode_names == 0 {
            0
        } else {
            (base + rel.opcode_names) as usize
        },
        send_packet: (base + rel.send_packet) as usize,
        recv_handler: (base + rel.recv_handler) as usize,
        ..rel
    }
}

/// The record of `build` for a module loaded at `base`, if the build is supported.
pub open spec fn spec_offsets_for_build(build: u32, base: usize) -> Option<WowOffsets> {
    if is_supported_build(build) {
        Some(rebase(relative_record(build), base))
    } else {
        None
    }
}

/// The build number held in a "file version LS" word: its low 16 bits.
pub open spec fn spec_build_from_version_ls(ls: u32) -> u32 {
    ls & 0xFFFF
}

/// Looks `build` up in the build table and computes absolute addresses for
/// a module loaded at `base`.  Any other build gives `None`.
pub fn offsets_for_build(build: u32, base: usize) -> (r: Option<WowOffsets>)
    requires
        base <= usize::MAX - MAX_RELATIVE_OFFSET,
    ensures
        r == spec_offsets_for_build(build, base),
        r matches Some(o) ==> 5 <= o.send_hook_size <= 16 && 5 <= o.recv_hook_size <= 16,
{
    match build {
        BUILD_VANILLA => Some(
            WowOffsets {
                opcode_table: base + 0x00C27E00,
                opcode_names: 0,
                send_packet: base + 0x001B5630,
                recv_handler: base + 0x00137AA0,
                num_opcodes: 0x1DD,
                send_hook_size: 6,
                recv_hook_size: 9,
            },
        ),
        BUILD_TBC => Some(
            WowOffsets {
                opcode_table: base + 0x00A03F80,
                opcode_names: 0,
                send_packet: base + 0x00246530,
                recv_handler: base + 0x002455A0,
                num_opcodes: 0x3FF,
                send_hook_size: 6,
                recv_hook_size: 6,
            },
        ),
        BUILD_WOTLK => Some(
            WowOffsets {
                opcode_table: base + 0x00879CF4,
                opcode_names: base + 0x005E0E24,
                send_packet: base + 0x003653B0,
                recv_handler: base + 0x0036DC80,
                num_opcodes: 0x4FF,
                send_hook_size: 6,
                recv_hook_size: 6,
            },
        ),
        BUILD_CATA => Some(
            WowOffsets {
                opcode_table: base + 0x009BE5A0,
                opcode_names: base + 0x009BE5A4,
                send_packet: base + 0x00405F70,
                recv_handler: base + 0x004098C0,
                num_opcodes: 0x7FF,
                send_hook_size: 6,
                recv_hook_size: 6,
            },
        ),
        _ => None,
    }
}

/// The build number in a "file version LS" word.
pub fn build_from_version_ls(ls: u32) -> (build: u32)
    ensures
        build == spec_build_from_version_ls(ls),
        build <= 0xFFFF,
{
    assert(ls & 0xFFFF <= 0xFFFF) by (bit_vector);
    ls & 0xFFFF
}

/// Identifies the running build from its "file version LS" word and returns
/// it with its record for a module loaded at `base`, or `None` when the
/// build is not in the table.
pub fn detect_build(file_version_ls: u32, base: usize) -> (r: Option<(u32, WowOffsets)>)
    requires
        base <= usize::MAX - MAX_RELATIVE_OFFSET,
    ensures
        r == (match spec_offsets_for_build(spec_build_from_version_ls(file_version_ls), base) {
            Some(o) => Some((spec_build_from_version_ls(file_version_ls), o)),
            None => None,
        }),
{
    let build = build_from_version_ls(file_version_ls);
    match offsets_for_build(build, base) {
        Some(o) => Some((build, o)),
        None => None,
    }
}

/// The label shown for a build.
pub open spec fn version_name(build: u32) -> Seq<char> {
    if build == BUILD_VANILLA {
        "1.12.1 (Vanilla)"@
    } else if build == BUILD_TBC {
        "2.4.3 (TBC)"@
    } else if build == BUILD_WOTLK {
        "3.3.5a (WotLK)"@
    } else if build == BUILD_CATA {
        "4.3.4 (Cataclysm)"@
    } else if build == 0 {
        "Unknown"@
    } else {
        "Unknown (build "@ + decimal(build as nat) + ")"@
    }
}

/// Human-readable name of a build; 0 stands for an undetermined build.
pub fn build_to_version_name(build: u32) -> (name: String)
    ensures
        name@ == version_name(build),
{
    match build {
        BUILD_VANILLA => "1.12.1 (Vanilla)".to_owned(),
        BUILD_TBC => "2.4.3 (TBC)".to_owned(),
        BUILD_WOTLK => "3.3.5a (WotLK)".to_owned(),
        BUILD_CATA => "4.3.4 (Cataclysm)".to_owned(),
        0 => "Unknown".to_owned(),
        _ => {
            let mut name = text_with_number("Unknown (build ", build);
            crate::text::push_text(&mut name, ")");
            name
        },
    }
}

} // verus!
