//! Seeded permutation table for 2D gradient noise.
//!
//! The noise generator owns a 256-entry byte table. Seed 0 uses the fixed
//! source table unmodified; a nonzero seed XORs every entry with the four
//! bytes of the seed. Lattice corners are hashed through the table (two
//! chained lookups at the call site) to select one of 8 fixed gradient
//! directions. Everything here is integer work and fully verified; the
//! floating-point falloff kernel that consumes the selected gradients lives
//! outside the verified core.

use vstd::prelude::*;

verus! {

/// Fixed base permutation: the classic 256-byte table.
pub open spec fn source_seq() -> Seq<u8> {
    seq![
        151u8, 160, 137, 91, 90, 15, 131, 13, 201, 95, 96, 53, 194, 233, 7, 225, 140, 36, 103, 30,
        69, 142, 8, 99, 37, 240, 21, 10, 23, 190, 6, 148, 247, 120, 234, 75, 0, 26, 197, 62, 94,
        252, 219, 203, 117, 35, 11, 32, 57, 177, 33, 88, 237, 149, 56, 87, 174, 20, 125, 136, 171,
        168, 68, 175, 74, 165, 71, 134, 139, 48, 27, 166, 77, 146, 158, 231, 83, 111, 229, 122, 60,
        211, 133, 230, 220, 105, 92, 41, 55, 46, 245, 40, 244, 102, 143, 54, 65, 25, 63, 161, 1,
        216, 80, 73, 209, 76, 132, 187, 208, 89, 18, 169, 200, 196, 135, 130, 116, 188, 159, 86,
        164, 100, 109, 198, 173, 186, 3, 64, 52, 217, 226, 250, 124, 123, 5, 202, 38, 147, 118,
        126, 255, 82, 85, 212, 207, 206, 59, 227, 47, 16, 58, 17, 182, 189, 28, 42, 223, 183, 170,
        213, 119, 248, 152, 2, 44, 154, 163, 70, 221, 153, 101, 155, 167, 43, 172, 9, 129, 22, 39,
        253, 19, 98, 108, 110, 79, 113, 224, 232, 178, 185, 112, 104, 218, 246, 97, 228, 251, 34,
        242, 193, 238, 210, 144, 12, 191, 179, 162, 241, 81, 51, 145, 235, 249, 14, 239, 107, 49,
        192, 214, 31, 181, 199, 106, 157, 184, 84, 204, 176, 115, 121, 50, 45, 127, 4, 150, 254,
        138, 236, 205, 93, 222, 114, 67, 29, 24, 72, 243, 141, 128, 195, 78, 66, 215, 61, 156,
        180,
    ]
}

/// The four bytes of a seed, least significant first, as `unpack_u32` lays
/// them out.
pub open spec fn seed_bytes(val: u32) -> Seq<u8> {
    seq![
        (val & 0x00ff) as u8,
        ((val & 0xff00) >> 8) as u8,
        ((val & 0x00ff0000) >> 16) as u8,
        ((val & 0xff000000) >> 24) as u8,
    ]
}

/// Entry `i` of the table a given seed produces: the source entry for seed 0,
/// otherwise the source entry XORed with each seed byte in turn.
pub open spec fn table_entry(seed: u32, i: int) -> u8 {
    if seed == 0 {
        source_seq()[i]
    } else {
        (((source_seq()[i] ^ seed_bytes(seed)[0]) ^ seed_bytes(seed)[1]) ^ seed_bytes(seed)[2])
            ^ seed_bytes(seed)[3]
    }
}

/// The whole 256-entry table a given seed produces.
pub open spec fn permutation_table(seed: u32) -> Seq<u8> {
    Seq::new(256, |i: int| table_entry(seed, i))
}

/// Index into the table that a (possibly negative) lattice coordinate hashes
/// to: the coordinate truncated to the machine word, reduced mod the table
/// size.
pub open spec fn hash_index(i: i128) -> int {
    ((i as usize) % 256) as int
}

/// The gradient direction that a hashed byte selects: one of 8 fixed unit or
/// diagonal directions, chosen by the low three bits.
pub open spec fn grad2_spec(hash: u8) -> (i32, i32) {
    let h = hash & 7;
    if h == 0 {
        (-1i32, -1i32)
    } else if h == 1 {
        (1i32, 0i32)
    } else if h == 2 {
        (-1i32, 0i32)
    } else if h == 3 {
        (1i32, 1i32)
    } else if h == 4 {
        (-1i32, 1i32)
    } else if h == 5 {
        (0i32, -1i32)
    } else if h == 6 {
        (0i32, 1i32)
    } else {
        (1i32, -1i32)
    }
}

/// Seeded 2D gradient-noise generator: its state is the permutation table
/// alone, so everything derived from it is a function of the seed.
#[derive(Clone, Copy)]
pub struct NoiseSimplex2d {
    pub random: [u8; 256],
}

impl Default for NoiseSimplex2d {
    /// An all-zero table, as before any seeding.
    fn default() -> (r: Self)
        ensures
            r.random@ == Seq::new(256, |i: int| 0u8),
    {
        let r = NoiseSimplex2d { random: [0; 256] };
        proof {
            assert(r.random@ =~= Seq::new(256, |i: int| 0u8));
        }
        r
    }
}

impl NoiseSimplex2d {
    pub const SIZE: usize = 256;

    /// Builds the generator for a seed: the table is exactly
    /// `permutation_table(seed)`.
    pub fn new(seed: u32) -> (r: Self)
        ensures
            r.random@ == permutation_table(seed),
    {
        let mut noise_gen = NoiseSimplex2d { random: [0; 256] };
        noise_gen.randomize(seed);
        noise_gen
    }

    /// Fills the table for a seed: seed 0 copies the source table through
    /// unchanged, a nonzero seed XORs every source entry with the four seed
    /// bytes.
    pub fn randomize(&mut self, seed: u32)
        ensures
            final(self).random@ == permutation_table(seed),
    {
        let source = source_table();
        if seed != 0 {
            let bytes = Self::unpack_u32(seed);
            for i in 0..256usize
                invariant
                    bytes@ == seed_bytes(seed),
                    source@ == source_seq(),
                    seed != 0,
                    forall|j: int| 0 <= j < i ==> self.random@[j] == table_entry(seed, j),
            {
                self.random[i] = source[i] ^ bytes[0];
                self.random[i] = self.random[i] ^ bytes[1];
                self.random[i] = self.random[i] ^ bytes[2];
                self.random[i] = self.random[i] ^ bytes[3];
            }
        } else {
            for i in 0..256usize
                invariant
                    source@ == source_seq(),
                    forall|j: int| 0 <= j < i ==> self.random@[j] == table_entry(0, j),
            {
                self.random[i] = source[i];
            }
        }
        proof {
            assert(self.random@ =~= permutation_table(seed));
        }
    }

    /// Hashes a lattice coordinate to a table entry. Negative coordinates
    /// truncate to the machine word before the reduction, as the cast does.
    pub fn hash(&self, i: i128) -> (r: u8)
        ensures
            r == self.random@[hash_index(i)],
    {
        self.random[#[verifier::truncate] (i as usize) % 256]
    }

    /// The gradient direction a hashed byte selects.
    pub fn grad2(hash: u8) -> (r: (i32, i32))
        ensures
            r == grad2_spec(hash),
    {
        let h = hash & 7;
        if h == 0 {
            (-1, -1)
        } else if h == 1 {
            (1, 0)
        } else if h == 2 {
            (-1, 0)
        } else if h == 3 {
            (1, 1)
        } else if h == 4 {
            (-1, 1)
        } else if h == 5 {
            (0, -1)
        } else if h == 6 {
            (0, 1)
        } else {
            (1, -1)
        }
    }

    /// Splits a seed into its four bytes, least significant first.
    pub fn unpack_u32(val: u32) -> (r: [u8; 4])
        ensures
            r@ == seed_bytes(val),
    {
        let r: [u8; 4] = [
            (val & 0x00ff) as u8,
            ((val & 0xff00) >> 8) as u8,
            ((val & 0x00ff0000) >> 16) as u8,
            ((val & 0xff000000) >> 24) as u8,
        ];
        proof {
            assert(r@ =~= seed_bytes(val));
        }
        r
    }
}

/// The source table as an array, pinned to `source_seq`.
fn source_table() -> (t: [u8; 256])
    ensures
        t@ == source_seq(),
{
    let t: [u8; 256] = [
        151, 160, 137, 91, 90, 15, 131, 13, 201, 95, 96, 53, 194, 233, 7, 225, 140, 36, 103, 30,
        69, 142, 8, 99, 37, 240, 21, 10, 23, 190, 6, 148, 247, 120, 234, 75, 0, 26, 197, 62, 94,
        252, 219, 203, 117, 35, 11, 32, 57, 177, 33, 88, 237, 149, 56, 87, 174, 20, 125, 136, 171,
        168, 68, 175, 74, 165, 71, 134, 139, 48, 27, 166, 77, 146, 158, 231, 83, 111, 229, 122, 60,
        211, 133, 230, 220, 105, 92, 41, 55, 46, 245, 40, 244, 102, 143, 54, 65, 25, 63, 161, 1,
        216, 80, 73, 209, 76, 132, 187, 208, 89, 18, 169, 200, 196, 135, 130, 116, 188, 159, 86,
        164, 100, 109, 198, 173, 186, 3, 64, 52, 217, 226, 250, 124, 123, 5, 202, 38, 147, 118,
        126, 255, 82, 85, 212, 207, 206, 59, 227, 47, 16, 58, 17, 182, 189, 28, 42, 223, 183, 170,
        213, 119, 248, 152, 2, 44, 154, 163, 70, 221, 153, 101, 155, 167, 43, 172, 9, 129, 22, 39,
        253, 19, 98, 108, 110, 79, 113, 224, 232, 178, 185, 112, 104, 218, 246, 97, 228, 251, 34,
        242, 193, 238, 210, 144, 12, 191, 179, 162, 241, 81, 51, 145, 235, 249, 14, 239, 107, 49,
        192, 214, 31, 181, 199, 106, 157, 184, 84, 204, 176, 115, 121, 50, 45, 127, 4, 150, 254,
        138, 236, 205, 93, 222, 114, 67, 29, 24, 72, 243, 141, 128, 195, 78, 66, 215, 61, 156,
        180,
    ];
    proof {
        assert(t@ =~= source_seq());
    }
    t
}

/// Two generators built from the same seed hold bit-identical tables, so
/// everything derived from the table alone is deterministic in the seed.
pub proof fn lemma_table_deterministic(a: NoiseSimplex2d, b: NoiseSimplex2d, seed: u32)
    requires
        a.random@ == permutation_table(seed),
        b.random@ == permutation_table(seed),
    ensures
        a.random@ == b.random@,
{
}

} // verus!
