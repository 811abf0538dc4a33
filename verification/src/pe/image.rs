//! The bytes of an image as a reader of its address space sees them.

use crate::io::read_at::fits;
use crate::pe::address_space::{advance, lemma_advance_is_valid, valid_position, Position};
use crate::pe::section_header::SectionHeader;
use vstd::prelude::*;

verus! {

/// What reads by address depend on: the bytes of the source, where in them
/// the image starts, and the section table.
pub ghost struct Image {
    pub content: Seq<u8>,
    pub exe_start: int,
    pub sections: Seq<SectionHeader>,
}

/// Where the byte at a position comes from.
pub ghost enum Backing {
    /// From nowhere: the byte is zero. That is so in a gap, and in a section
    /// behind the raw data that the file holds for it.
    Zeros,
    /// From the source, at this offset.
    File { offset: int },
}

impl Image {
    /// Where the byte at `position` comes from. Inside a section, `offset`
    /// bytes behind its first address, that is the source at `exe_start`
    /// plus the pointer to the raw data of the section (zero where it is
    /// absent) plus `offset`, as long as `offset` is below the size of the
    /// raw data.
    pub open spec fn backing(self, position: Position) -> Backing {
        match position.section {
            None => Backing::Zeros,
            Some(index) => {
                let section = self.sections[index as int];
                let offset = position.rva - section.virtual_address.0;
                if offset < section.size_of_raw_data {
                    Backing::File { offset: self.exe_start + section.raw_offset(offset) }
                } else {
                    Backing::Zeros
                }
            },
        }
    }

    /// How many bytes from `position` on come from one place: the bytes up
    /// to the end of the raw data of the section, or else up to the end of
    /// the section or the gap.
    pub open spec fn span(self, position: Position) -> int {
        match position.section {
            None => position.remaining as int,
            Some(index) => {
                let section = self.sections[index as int];
                let offset = position.rva - section.virtual_address.0;
                if offset < section.size_of_raw_data && section.size_of_raw_data - offset
                    < position.remaining {
                    section.size_of_raw_data - offset
                } else {
                    position.remaining as int
                }
            },
        }
    }

    /// The byte at `position`: none at the end of the address space, none
    /// where the source ends before the byte or cannot reach it, zero where
    /// nothing backs it.
    pub open spec fn byte_at(self, position: Position) -> Option<u8> {
        if position.remaining == 0 {
            None
        } else {
            match self.backing(position) {
                Backing::Zeros => Some(0u8),
                Backing::File { offset } => if fits(self.content, offset, 1) {
                    Some(self.content[offset])
                } else {
                    None
                },
            }
        }
    }

    /// The position `n` bytes behind `position`, reached byte by byte.
    pub open spec fn skip(self, position: Position, n: nat) -> Position
        decreases n,
    {
        if n == 0 {
            position
        } else {
            self.skip(advance(self.sections, position, 1), (n - 1) as nat)
        }
    }

    /// The `n` bytes from `position` on, or none where one of them is
    /// missing.
    pub open spec fn bytes_from(self, position: Position, n: nat) -> Option<Seq<u8>>
        decreases n,
    {
        if n == 0 {
            Some(Seq::empty())
        } else {
            match self.byte_at(position) {
                None => None,
                Some(byte) => match self.bytes_from(
                    advance(self.sections, position, 1),
                    (n - 1) as nat,
                ) {
                    None => None,
                    Some(rest) => Some(seq![byte] + rest),
                },
            }
        }
    }

    /// Moving on by up to what is left of a section or gap, byte by byte,
    /// comes to the same as moving on at once.
    pub proof fn lemma_skip_within(self, position: Position, n: nat)
        requires
            valid_position(self.sections, position),
            n <= position.remaining,
        ensures
            self.skip(position, n) == advance(self.sections, position, n as int) || (n == 0
                && self.skip(position, n) == position),
        decreases n,
    {
        if n > 0 {
            if 1 < position.remaining {
                let next = advance(self.sections, position, 1);
                lemma_advance_is_valid(self.sections, position, 1);
                self.lemma_skip_within(next, (n - 1) as nat);
            } else {
                assert(n == 1);
                assert(self.skip(advance(self.sections, position, 1), 0) == advance(
                    self.sections,
                    position,
                    1,
                ));
            }
        }
    }

    /// Where nothing backs them, the bytes from a position on are zeros.
    pub proof fn lemma_zeros(self, position: Position, n: nat)
        requires
            valid_position(self.sections, position),
            n <= position.remaining,
            self.backing(position) is Zeros,
        ensures
            self.bytes_from(position, n) == Some(Seq::new(n, |i: int| 0u8)),
        decreases n,
    {
        if n > 0 {
            let rest = Seq::new((n - 1) as nat, |i: int| 0u8);
            if 1 < position.remaining {
                let next = advance(self.sections, position, 1);
                lemma_advance_is_valid(self.sections, position, 1);
                self.lemma_zeros(next, (n - 1) as nat);
            } else {
                assert(n == 1);
            }
            assert(seq![0u8] + rest =~= Seq::new(n, |i: int| 0u8));
        } else {
            assert(Seq::<u8>::empty() =~= Seq::new(n, |i: int| 0u8));
        }
    }

    /// Where the source backs them, the bytes from a position on are those
    /// of the source.
    pub proof fn lemma_file(self, position: Position, n: nat, offset: int)
        requires
            valid_position(self.sections, position),
            n <= self.span(position),
            self.backing(position) == (Backing::File { offset }),
            0 < n,
            fits(self.content, offset, n),
        ensures
            self.bytes_from(position, n) == Some(self.content.subrange(offset, offset + n)),
        decreases n,
    {
        let rest = self.content.subrange(offset + 1, offset + n);
        let next = advance(self.sections, position, 1);
        assert(fits(self.content, offset, 1));
        assert(self.byte_at(position) == Some(self.content[offset]));
        if n > 1 {
            lemma_advance_is_valid(self.sections, position, 1);
            assert(fits(self.content, offset + 1, (n - 1) as nat));
            self.lemma_file(next, (n - 1) as nat, offset + 1);
        } else {
            assert(self.bytes_from(next, 0) == Some(Seq::<u8>::empty()));
            assert(rest =~= Seq::<u8>::empty());
        }
        assert(seq![self.content[offset]] + rest =~= self.content.subrange(offset, offset + n));
    }

    /// Reading on from where a read ended continues that read.
    pub proof fn lemma_bytes_append(self, position: Position, a: nat, b: nat)
        requires
            self.bytes_from(position, a) is Some,
        ensures
            self.skip(position, a + b) == self.skip(self.skip(position, a), b),
            self.bytes_from(position, a + b) == (match self.bytes_from(self.skip(position, a), b) {
                None => None,
                Some(more) => Some(self.bytes_from(position, a).unwrap() + more),
            }),
        decreases a,
    {
        if a == 0 {
            match self.bytes_from(position, b) {
                None => {},
                Some(more) => {
                    assert(Seq::<u8>::empty() + more =~= more);
                },
            }
        } else {
            let next = advance(self.sections, position, 1);
            self.lemma_bytes_append(next, (a - 1) as nat, b);
            let byte = self.byte_at(position).unwrap();
            let first = self.bytes_from(next, (a - 1) as nat).unwrap();
            match self.bytes_from(self.skip(position, a), b) {
                None => {},
                Some(more) => {
                    assert(seq![byte] + (first + more) =~= (seq![byte] + first) + more);
                },
            }
        }
    }

    /// The front of what can be read can be read, and a byte that was read
    /// is the byte at its position.
    pub proof fn lemma_bytes_prefix(self, position: Position, n: nat, k: nat)
        requires
            self.bytes_from(position, n) is Some,
            k <= n,
        ensures
            self.bytes_from(position, n).unwrap().len() == n,
            self.bytes_from(position, k) == Some(
                self.bytes_from(position, n).unwrap().subrange(0, k as int),
            ),
            k < n ==> self.byte_at(self.skip(position, k)) == Some(
                self.bytes_from(position, n).unwrap()[k as int],
            ),
        decreases n,
    {
        let all = self.bytes_from(position, n).unwrap();
        if n == 0 {
            assert(all.subrange(0, 0) =~= Seq::<u8>::empty());
        } else {
            let next = advance(self.sections, position, 1);
            let rest = self.bytes_from(next, (n - 1) as nat).unwrap();
            if k == 0 {
                self.lemma_bytes_prefix(next, (n - 1) as nat, 0);
                assert(all.subrange(0, 0) =~= Seq::<u8>::empty());
            } else {
                self.lemma_bytes_prefix(next, (n - 1) as nat, (k - 1) as nat);
                assert(seq![all[0]] + rest.subrange(0, k - 1) =~= all.subrange(0, k as int));
            }
        }
    }

    /// Where a byte is missing, no read that reaches it succeeds.
    pub proof fn lemma_bytes_missing(self, position: Position, k: nat, n: nat)
        requires
            self.bytes_from(position, k) is Some,
            self.byte_at(self.skip(position, k)) is None,
            k < n,
        ensures
            self.bytes_from(position, n) is None,
    {
        self.lemma_bytes_append(position, k, (n - k) as nat);
    }

    /// True when `text` is the zero-terminated string at `position`: the
    /// bytes from there up to the first zero, which is left out, or up to
    /// the first byte that is missing.
    pub open spec fn is_string_at(self, position: Position, text: Seq<u8>) -> bool {
        &&& forall|i: int| 0 <= i < text.len() ==> text[i] != 0
        &&& self.bytes_from(position, text.len()) == Some(text)
        &&& match self.byte_at(self.skip(position, text.len())) {
            Some(byte) => byte == 0,
            None => true,
        }
    }

    /// A position holds one zero-terminated string only.
    pub proof fn lemma_string_is_unique(self, position: Position, first: Seq<u8>, second: Seq<u8>)
        requires
            self.is_string_at(position, first),
            self.is_string_at(position, second),
        ensures
            first == second,
    {
        if first.len() < second.len() {
            self.lemma_bytes_prefix(position, second.len(), first.len());
            assert(second[first.len() as int] != 0);
        } else if second.len() < first.len() {
            self.lemma_bytes_prefix(position, first.len(), second.len());
            assert(first[second.len() as int] != 0);
        }
    }
}

} // verus!
