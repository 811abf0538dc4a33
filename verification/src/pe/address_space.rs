//! From relative virtual addresses to sections.
//!
//! The sections of an image lay its file contents out over a 32-bit address
//! space. They need not be sorted and may overlap: an address that several
//! sections hold belongs to the one that the section table lists first.
//! Addresses that no section holds form gaps, which read as zeros.

use crate::pe::section_header::SectionHeader;
use vstd::prelude::*;

verus! {

/// Where the address space ends for a reader: its position never passes
/// this value.
pub const ADDRESS_LIMIT: u64 = 0xffff_fffe_ffff_ffff;

/// A place in the address space of an image.
#[derive(Clone, Copy, Debug, PartialEq, Eq, Structural)]
pub struct Position {
    /// The address. Addresses past `u32::MAX` lie in no section.
    pub rva: u64,
    /// The index of the section that the address is read from, if any.
    pub section: Option<usize>,
    /// How many bytes can be read before the section, or the gap, ends.
    pub remaining: u64,
}

/// True when no section holds `rva`.
pub open spec fn unmapped(sections: Seq<SectionHeader>, rva: int) -> bool {
    forall|j: int| 0 <= j < sections.len() ==> !(#[trigger] sections[j]).contains(rva)
}

/// True when section `index` is the first of the table that holds `rva`.
pub open spec fn is_first_containing(sections: Seq<SectionHeader>, rva: int, index: int) -> bool {
    &&& 0 <= index < sections.len()
    &&& sections[index].contains(rva)
    &&& forall|j: int| 0 <= j < index ==> !(#[trigger] sections[j]).contains(rva)
}

/// True when no section starts behind `rva`.
pub open spec fn none_starts_after(sections: Seq<SectionHeader>, rva: int) -> bool {
    forall|j: int| 0 <= j < sections.len() ==> (#[trigger] sections[j]).virtual_address.0 <= rva
}

/// The size of a gap that no section ends: what is left of the address
/// space.
pub open spec fn unbounded_gap(rva: int) -> int {
    if rva <= ADDRESS_LIMIT {
        ADDRESS_LIMIT - rva
    } else {
        0
    }
}

/// True when `size` is the size of the gap at `rva`: the least positive
/// distance from `rva` to the start of a section, or, where no section
/// starts behind `rva`, what is left of the address space.
pub open spec fn is_gap_size(sections: Seq<SectionHeader>, rva: int, size: int) -> bool {
    if rva > u32::MAX || none_starts_after(sections, rva) {
        size == unbounded_gap(rva)
    } else {
        &&& size > 0
        &&& exists|j: int|
            0 <= j < sections.len() && (#[trigger] sections[j]).virtual_address.0 == rva + size
        &&& forall|j: int|
            0 <= j < sections.len() && (#[trigger] sections[j]).virtual_address.0 > rva
                ==> sections[j].virtual_address.0 >= rva + size
    }
}

/// True when `position` is what the address `rva` resolves to: the first
/// section that holds it, with the bytes left up to the end of that section,
/// or no section, with the size of the gap.
pub open spec fn resolves(sections: Seq<SectionHeader>, rva: u64, position: Position) -> bool {
    &&& position.rva == rva
    &&& match position.section {
        Some(index) => is_first_containing(sections, rva as int, index as int)
            && position.remaining == sections[index as int].virtual_end() - rva,
        None => unmapped(sections, rva as int) && is_gap_size(
            sections,
            rva as int,
            position.remaining as int,
        ),
    }
}

/// The position that `rva` resolves to.
pub open spec fn locate(sections: Seq<SectionHeader>, rva: u64) -> Position {
    choose|position: Position| resolves(sections, rva, position)
}

/// The offset of the position into its section.
pub open spec fn offset_in_section(sections: Seq<SectionHeader>, position: Position) -> int
    recommends
        position.section is Some,
{
    position.rva - sections[position.section.unwrap() as int].virtual_address.0
}

/// True of the positions that a reader can be at: in a section that holds
/// the address, though not always the first that does, or in a gap.
pub open spec fn valid_position(sections: Seq<SectionHeader>, position: Position) -> bool {
    match position.section {
        Some(index) => index < sections.len() && sections[index as int].contains(
            position.rva as int,
        ) && position.remaining == sections[index as int].virtual_end() - position.rva,
        None => unmapped(sections, position.rva as int) && is_gap_size(
            sections,
            position.rva as int,
            position.remaining as int,
        ),
    }
}

/// The position `n` bytes on, for an `n` of at most `position.remaining`.
/// Where the section or the gap is used up, the new address is resolved
/// afresh.
pub open spec fn advance(sections: Seq<SectionHeader>, position: Position, n: int) -> Position
    recommends
        0 <= n <= position.remaining,
{
    if n < position.remaining {
        Position {
            rva: (position.rva + n) as u64,
            section: position.section,
            remaining: (position.remaining - n) as u64,
        }
    } else {
        locate(sections, (position.rva + n) as u64)
    }
}

/// An address resolves to one position only: resolving it twice against the
/// same section table gives the same section and the same offset.
pub proof fn lemma_resolves_is_unique(
    sections: Seq<SectionHeader>,
    rva: u64,
    first: Position,
    second: Position,
)
    requires
        resolves(sections, rva, first),
        resolves(sections, rva, second),
    ensures
        first == second,
{
    if first.section is Some && second.section is Some {
        let i = first.section.unwrap() as int;
        let j = second.section.unwrap() as int;
        if i < j {
            assert(sections[i].contains(rva as int));
        } else if j < i {
            assert(sections[j].contains(rva as int));
        }
    } else if first.section is Some {
        assert(sections[first.section.unwrap() as int].contains(rva as int));
    } else if second.section is Some {
        assert(sections[second.section.unwrap() as int].contains(rva as int));
    }
}

/// Among the first `n` sections there is a first that holds `rva`, unless
/// none of them holds it.
proof fn lemma_first_containing(sections: Seq<SectionHeader>, rva: int, n: int) -> (found: Option<
    int,
>)
    requires
        0 <= n <= sections.len(),
    ensures
        match found {
            Some(index) => index < n && is_first_containing(sections, rva, index),
            None => forall|j: int| 0 <= j < n ==> !(#[trigger] sections[j]).contains(rva),
        },
    decreases n,
{
    if n == 0 {
        None
    } else {
        match lemma_first_containing(sections, rva, n - 1) {
            Some(index) => Some(index),
            None => if sections[n - 1].contains(rva) {
                Some(n - 1)
            } else {
                None
            },
        }
    }
}

/// Among the first `n` sections there is one that starts nearest behind
/// `rva`, unless none of them starts behind it.
proof fn lemma_nearest_start(sections: Seq<SectionHeader>, rva: int, n: int) -> (found: Option<int>)
    requires
        0 <= n <= sections.len(),
    ensures
        match found {
            Some(index) => 0 <= index < n && sections[index].virtual_address.0 > rva && forall|
                j: int,
            |
                0 <= j < n && (#[trigger] sections[j]).virtual_address.0 > rva
                    ==> sections[j].virtual_address.0 >= sections[index].virtual_address.0,
            None => forall|j: int|
                0 <= j < n ==> (#[trigger] sections[j]).virtual_address.0 <= rva,
        },
    decreases n,
{
    if n == 0 {
        None
    } else {
        let start = sections[n - 1].virtual_address.0;
        match lemma_nearest_start(sections, rva, n - 1) {
            Some(index) => if start > rva && start < sections[index].virtual_address.0 {
                Some(n - 1)
            } else {
                Some(index)
            },
            None => if start > rva {
                Some(n - 1)
            } else {
                None
            },
        }
    }
}

/// Every address resolves: to a section or to a gap.
pub proof fn lemma_every_address_resolves(sections: Seq<SectionHeader>, rva: u64)
    requires
        sections.len() <= usize::MAX,
    ensures
        resolves(sections, rva, locate(sections, rva)),
        valid_position(sections, locate(sections, rva)),
{
    let address = rva as int;
    let position = match lemma_first_containing(sections, address, sections.len() as int) {
        Some(index) => Position {
            rva,
            section: Some(index as usize),
            remaining: (sections[index].virtual_end() - rva) as u64,
        },
        None => {
            let size = if rva > u32::MAX {
                unbounded_gap(address)
            } else {
                match lemma_nearest_start(sections, address, sections.len() as int) {
                    Some(index) => sections[index].virtual_address.0 - rva,
                    None => unbounded_gap(address),
                }
            };
            Position { rva, section: None, remaining: size as u64 }
        },
    };
    assert(resolves(sections, rva, position));
    lemma_locate(sections, rva, position);
}

/// What an address resolves to is what `locate` names.
pub proof fn lemma_locate(sections: Seq<SectionHeader>, rva: u64, position: Position)
    requires
        resolves(sections, rva, position),
    ensures
        locate(sections, rva) == position,
{
    lemma_resolves_is_unique(sections, rva, locate(sections, rva), position);
}

/// The first address of a section resolves into that section at offset
/// zero, unless the section is empty or an earlier one holds the address.
pub proof fn lemma_start_resolves_to_offset_zero(sections: Seq<SectionHeader>, index: usize)
    requires
        index < sections.len(),
        sections[index as int].virtual_size > 0,
        forall|j: int|
            0 <= j < index ==> !(#[trigger] sections[j]).contains(
                sections[index as int].virtual_address.0 as int,
            ),
    ensures
        locate(sections, sections[index as int].virtual_address.0 as u64).section == Some(index),
        offset_in_section(
            sections,
            locate(sections, sections[index as int].virtual_address.0 as u64),
        ) == 0,
{
    let rva = sections[index as int].virtual_address.0 as u64;
    let position = Position {
        rva,
        section: Some(index),
        remaining: (sections[index as int].virtual_end() - rva) as u64,
    };
    lemma_locate(sections, rva, position);
}

/// The address behind the last one of a section never resolves into that
/// section: it belongs to another section or to a gap.
pub proof fn lemma_end_resolves_elsewhere(
    sections: Seq<SectionHeader>,
    index: usize,
    position: Position,
)
    requires
        index < sections.len(),
        resolves(
            sections,
            (sections[index as int].virtual_address.0 + sections[index as int].virtual_size) as u64,
            position,
        ),
    ensures
        position.section != Some(index),
{
}

/// A valid position and what is left at it stay clear of the end of the
/// range of `u64`.
pub proof fn lemma_position_is_bounded(sections: Seq<SectionHeader>, position: Position)
    requires
        valid_position(sections, position),
    ensures
        position.rva + position.remaining <= ADDRESS_LIMIT || position.rva > ADDRESS_LIMIT,
        position.rva > ADDRESS_LIMIT ==> position.remaining == 0,
        position.section is Some ==> position.remaining > 0 && position.rva <= u32::MAX,
{
    let rva = position.rva as int;
    if position.section is None {
        if !(rva > u32::MAX || none_starts_after(sections, rva)) {
            let size = position.remaining as int;
            let w = choose|j: int|
                0 <= j < sections.len() && (#[trigger] sections[j]).virtual_address.0 == rva
                    + size;
            assert(rva + size <= u32::MAX);
        }
    }
}

/// A reader that moves on inside a section or a gap stays at a valid
/// position.
pub proof fn lemma_advance_is_valid(sections: Seq<SectionHeader>, position: Position, n: int)
    requires
        valid_position(sections, position),
        0 <= n < position.remaining,
    ensures
        valid_position(sections, advance(sections, position, n)),
{
    let rva = position.rva as int;
    if position.section is None {
        if rva > u32::MAX || none_starts_after(sections, rva) {
            assert(none_starts_after(sections, rva) ==> none_starts_after(sections, rva + n));
            assert forall|j: int| 0 <= j < sections.len() implies !(
            #[trigger] sections[j]).contains(rva + n) by {
                assert(!sections[j].contains(rva));
            }
        } else {
            let size = position.remaining as int;
            let w = choose|j: int|
                0 <= j < sections.len() && (#[trigger] sections[j]).virtual_address.0 == rva
                    + size;
            assert(sections[w].virtual_address.0 == (rva + n) + (size - n));
            assert(!none_starts_after(sections, rva + n));
            assert forall|j: int| 0 <= j < sections.len() implies !(
            #[trigger] sections[j]).contains(rva + n) by {
                assert(!sections[j].contains(rva));
            }
        }
    }
}

/// Resolves `rva` against `sections`: a scan of the table for the first
/// section that holds the address and, where none does, for the nearest
/// section that starts behind it.
pub fn find_section(sections: &[SectionHeader], rva: u64) -> (position: Position)
    ensures
        resolves(sections@, rva, position),
        valid_position(sections@, position),
        position == locate(sections@, rva),
{
    if rva > 0xffff_ffff {
        let remaining: u64 = if rva <= ADDRESS_LIMIT {
            ADDRESS_LIMIT - rva
        } else {
            0
        };
        let position = Position { rva, section: None, remaining };
        proof {
            lemma_locate(sections@, rva, position);
        }
        return position;
    }
    let count: usize = sections.len();
    let mut i: usize = 0;
    while i < count
        invariant
            i <= count,
            count == sections@.len(),
            rva <= 0xffff_ffff,
            forall|j: int| 0 <= j < i ==> !(#[trigger] sections@[j]).contains(rva as int),
        decreases count - i,
    {
        let start: u64 = sections[i].virtual_address.0 as u64;
        let sum: u64 = start + sections[i].virtual_size as u64;
        let end: u64 = if sum <= 0x1_0000_0000 {
            sum
        } else {
            0x1_0000_0000
        };
        if start <= rva && rva < end {
            let position = Position { rva, section: Some(i), remaining: end - rva };
            proof {
                lemma_locate(sections@, rva, position);
            }
            return position;
        }
        i = i + 1;
    }
    let mut nearest: Option<u64> = None;
    let ghost mut witness: int = 0;
    let mut k: usize = 0;
    while k < count
        invariant
            k <= count,
            count == sections@.len(),
            rva <= 0xffff_ffff,
            nearest is None ==> forall|j: int|
                0 <= j < k ==> (#[trigger] sections@[j]).virtual_address.0 <= rva,
            nearest matches Some(size) ==> {
                &&& 0 < size <= 0xffff_ffff
                &&& 0 <= witness < k
                &&& sections@[witness].virtual_address.0 == rva + size
                &&& forall|j: int|
                    0 <= j < k && (#[trigger] sections@[j]).virtual_address.0 > rva
                        ==> sections@[j].virtual_address.0 >= rva + size
            },
        decreases count - k,
    {
        let start: u64 = sections[k].virtual_address.0 as u64;
        if start > rva {
            let distance: u64 = start - rva;
            let closer: bool = match nearest {
                None => true,
                Some(size) => distance < size,
            };
            if closer {
                nearest = Some(distance);
                proof {
                    witness = k as int;
                }
            }
        }
        k = k + 1;
    }
    let remaining: u64 = match nearest {
        Some(size) => size,
        None => ADDRESS_LIMIT - rva,
    };
    let position = Position { rva, section: None, remaining };
    proof {
        if nearest is Some {
            assert(sections@[witness].virtual_address.0 > rva);
            assert(!none_starts_after(sections@, rva as int));
        }
        lemma_locate(sections@, rva, position);
    }
    position
}

} // verus!
