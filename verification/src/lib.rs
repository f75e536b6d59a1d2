//! A 32-bit, 4-dimensional packed vector in the `GL_UNSIGNED_INT_2_10_10_10_REV`
//! layout: three 10-bit fields (`x`, `y`, `z`) and one 2-bit field (`w`), packed
//! from least-significant to most-significant bit as
//! `x` (bits 0..=9), `y` (bits 10..=19), `z` (bits 20..=29), `w` (bits 30..=31).
//!
//! Each field stores a quantization level: an integer in `0..=1023` for `x`,
//! `y` and `z`, and in `0..=3` for `w`, standing for the normalized value
//! `level / max_level` in `[0.0, 1.0]`. This crate owns the integer side of the
//! codec — the packing, unpacking and in-place field updates on the raw word —
//! and proves that they are exact: packing then unpacking returns every level
//! unchanged, every 32-bit word is the packing of its own fields, and a field
//! update leaves the other three fields bitwise untouched. Turning a float into
//! a level (clamp to `[0.0, 1.0]`, scale by the field's maximum and round) is
//! the caller's side.

use vstd::prelude::*;

verus! {

/// Largest quantization level of the 10-bit `x`, `y` and `z` fields.
pub const XYZ_MAX: u32 = 1023;

/// Largest quantization level of the 2-bit `w` field.
pub const W_MAX: u32 = 3;

/// The `x` field of a packed word: bits 0..=9.
pub open spec fn x_of(word: u32) -> u32 {
    word & 0x3ff
}

/// The `y` field of a packed word: bits 10..=19.
pub open spec fn y_of(word: u32) -> u32 {
    (word >> 10) & 0x3ff
}

/// The `z` field of a packed word: bits 20..=29.
pub open spec fn z_of(word: u32) -> u32 {
    (word >> 20) & 0x3ff
}

/// The `w` field of a packed word: bits 30..=31.
pub open spec fn w_of(word: u32) -> u32 {
    (word >> 30) & 0x3
}

/// The word that packs the four levels: `(w << 30) | (z << 20) | (y << 10) | x`.
pub open spec fn pack(x: u32, y: u32, z: u32, w: u32) -> u32 {
    (w << 30) | (z << 20) | (y << 10) | x
}

/// The word with its `x` field replaced by `v`: bits 10..=31 are kept.
pub open spec fn with_x(word: u32, v: u32) -> u32 {
    (word & 0xffff_fc00) | v
}

/// The word with its `y` field replaced by `v`: bits 0..=9 and 20..=31 are kept.
pub open spec fn with_y(word: u32, v: u32) -> u32 {
    (word & 0xfff0_03ff) | (v << 10)
}

/// The word with its `z` field replaced by `v`: bits 0..=19 and 30..=31 are kept.
pub open spec fn with_z(word: u32, v: u32) -> u32 {
    (word & 0xc00f_ffff) | (v << 20)
}

/// The word with its `w` field replaced by `v`: bits 0..=29 are kept.
pub open spec fn with_w(word: u32, v: u32) -> u32 {
    (word & 0x3fff_ffff) | (v << 30)
}

/// The word with its `x`, `y` and `z` fields replaced in one combined mask:
/// only the `w` field's bits 30..=31 are kept.
pub open spec fn with_xyz(word: u32, x: u32, y: u32, z: u32) -> u32 {
    (word & 0xc000_0000) | (z << 20) | (y << 10) | x
}

/// Every field of every word is a level the field's width can hold: the
/// decoder is total over all 2^32 bit patterns.
pub proof fn lemma_fields_bounded(word: u32)
    by (bit_vector)
    ensures
        x_of(word) <= XYZ_MAX,
        y_of(word) <= XYZ_MAX,
        z_of(word) <= XYZ_MAX,
        w_of(word) <= W_MAX,
{
}

/// Packing levels that fit their fields and unpacking them again returns each
/// level unchanged: encoding loses nothing once the inputs are on the
/// quantization grid.
pub proof fn lemma_pack_unpack(x: u32, y: u32, z: u32, w: u32)
    by (bit_vector)
    requires
        x <= XYZ_MAX,
        y <= XYZ_MAX,
        z <= XYZ_MAX,
        w <= W_MAX,
    ensures
        x_of(pack(x, y, z, w)) == x,
        y_of(pack(x, y, z, w)) == y,
        z_of(pack(x, y, z, w)) == z,
        w_of(pack(x, y, z, w)) == w,
{
}

/// Every 32-bit word is exactly the packing of its own four fields: decoding
/// then re-encoding reproduces the word bit for bit, so a raw word makes an
/// exact round trip through the codec.
pub proof fn lemma_unpack_pack(word: u32)
    by (bit_vector)
    ensures
        pack(x_of(word), y_of(word), z_of(word), w_of(word)) == word,
{
}

/// Replacing the `x` field stores the new level exactly and leaves the `y`,
/// `z` and `w` fields bitwise unchanged.
pub proof fn lemma_with_x(word: u32, v: u32)
    by (bit_vector)
    requires
        v <= XYZ_MAX,
    ensures
        x_of(with_x(word, v)) == v,
        y_of(with_x(word, v)) == y_of(word),
        z_of(with_x(word, v)) == z_of(word),
        w_of(with_x(word, v)) == w_of(word),
{
}

/// Replacing the `y` field stores the new level exactly and leaves the `x`,
/// `z` and `w` fields bitwise unchanged.
pub proof fn lemma_with_y(word: u32, v: u32)
    by (bit_vector)
    requires
        v <= XYZ_MAX,
    ensures
        x_of(with_y(word, v)) == x_of(word),
        y_of(with_y(word, v)) == v,
        z_of(with_y(word, v)) == z_of(word),
        w_of(with_y(word, v)) == w_of(word),
{
}

/// Replacing the `z` field stores the new level exactly and leaves the `x`,
/// `y` and `w` fields bitwise unchanged.
pub proof fn lemma_with_z(word: u32, v: u32)
    by (bit_vector)
    requires
        v <= XYZ_MAX,
    ensures
        x_of(with_z(word, v)) == x_of(word),
        y_of(with_z(word, v)) == y_of(word),
        z_of(with_z(word, v)) == v,
        w_of(with_z(word, v)) == w_of(word),
{
}

/// Replacing the `w` field stores the new level exactly and leaves the `x`,
/// `y` and `z` fields bitwise unchanged.
pub proof fn lemma_with_w(word: u32, v: u32)
    by (bit_vector)
    requires
        v <= W_MAX,
    ensures
        x_of(with_w(word, v)) == x_of(word),
        y_of(with_w(word, v)) == y_of(word),
        z_of(with_w(word, v)) == z_of(word),
        w_of(with_w(word, v)) == v,
{
}

/// Replacing `x`, `y` and `z` in one combined mask stores the three levels
/// exactly and leaves the `w` field bitwise unchanged.
pub proof fn lemma_with_xyz(word: u32, x: u32, y: u32, z: u32)
    by (bit_vector)
    requires
        x <= XYZ_MAX,
        y <= XYZ_MAX,
        z <= XYZ_MAX,
    ensures
        x_of(with_xyz(word, x, y, z)) == x,
        y_of(with_xyz(word, x, y, z)) == y,
        z_of(with_xyz(word, x, y, z)) == z,
        w_of(with_xyz(word, x, y, z)) == w_of(word),
{
}

/// A writer matches a fresh construction: after replacing a field of any word
/// with level `v`, the field reads back exactly as it does from a vector
/// packed fresh with `v` there and any levels in the other fields.
pub proof fn lemma_write_matches_fresh(word: u32, v: u32, x2: u32, y2: u32, z2: u32, w2: u32)
    requires
        x2 <= XYZ_MAX,
        y2 <= XYZ_MAX,
        z2 <= XYZ_MAX,
        w2 <= W_MAX,
    ensures
        v <= XYZ_MAX ==> x_of(with_x(word, v)) == x_of(pack(v, y2, z2, w2)),
        v <= XYZ_MAX ==> y_of(with_y(word, v)) == y_of(pack(x2, v, z2, w2)),
        v <= XYZ_MAX ==> z_of(with_z(word, v)) == z_of(pack(x2, y2, v, w2)),
        v <= W_MAX ==> w_of(with_w(word, v)) == w_of(pack(x2, y2, z2, v)),
{
    if v <= XYZ_MAX {
        lemma_with_x(word, v);
        lemma_with_y(word, v);
        lemma_with_z(word, v);
        lemma_pack_unpack(v, y2, z2, w2);
        lemma_pack_unpack(x2, v, z2, w2);
        lemma_pack_unpack(x2, y2, v, w2);
    }
    if v <= W_MAX {
        lemma_with_w(word, v);
        lemma_pack_unpack(x2, y2, z2, v);
    }
}

/// The grouped writer equals the three single-field writers: replacing `x`,
/// `y` and `z` in one combined mask leaves the same word as the three
/// sequential single-field replacements.
pub proof fn lemma_with_xyz_is_sequential(word: u32, x: u32, y: u32, z: u32)
    by (bit_vector)
    requires
        x <= XYZ_MAX,
        y <= XYZ_MAX,
        z <= XYZ_MAX,
    ensures
        with_xyz(word, x, y, z) == with_z(with_y(with_x(word, x), y), z),
{
}

/// Four dimensional 2-10-10-10 vector.
///
/// A plain value wrapping the packed 32-bit word. Copying the word copies the
/// whole state; two vectors are equal exactly when their words are.
#[derive(Clone, Copy, Debug, PartialEq, Eq, Structural)]
pub struct Vector {
    data: u32,
}

impl Vector {
    /// The packed 32-bit word this vector stores.
    pub closed spec fn spec_raw(self) -> u32 {
        self.data
    }

    /// The stored `x` level, an integer in `0..=1023`.
    pub open spec fn spec_x(self) -> u32 {
        x_of(self.spec_raw())
    }

    /// The stored `y` level, an integer in `0..=1023`.
    pub open spec fn spec_y(self) -> u32 {
        y_of(self.spec_raw())
    }

    /// The stored `z` level, an integer in `0..=1023`.
    pub open spec fn spec_z(self) -> u32 {
        z_of(self.spec_raw())
    }

    /// The stored `w` level, an integer in `0..=3`.
    pub open spec fn spec_w(self) -> u32 {
        w_of(self.spec_raw())
    }

    /// Creates a vector from four quantization levels, one per field.
    ///
    /// The levels are packed into the word as `(w << 30) | (z << 20) |
    /// (y << 10) | x`, and each one is stored exactly.
    pub fn from_levels(x: u32, y: u32, z: u32, w: u32) -> (v: Vector)
        requires
            x <= XYZ_MAX,
            y <= XYZ_MAX,
            z <= XYZ_MAX,
            w <= W_MAX,
        ensures
            v.spec_raw() == pack(x, y, z, w),
            v.spec_x() == x,
            v.spec_y() == y,
            v.spec_z() == z,
            v.spec_w() == w,
    {
        proof {
            lemma_pack_unpack(x, y, z, w);
        }
        Vector { data: (w << 30) | (z << 20) | (y << 10) | x }
    }

    /// Creates a vector from a raw 32-bit word, verbatim and without
    /// validation: every bit pattern is a valid packed vector.
    pub fn from_raw(data: u32) -> (v: Vector)
        ensures
            v.spec_raw() == data,
    {
        Vector { data }
    }

    /// Gets the stored `x` level.
    pub fn x_level(&self) -> (r: u32)
        ensures
            r == self.spec_x(),
            r <= XYZ_MAX,
    {
        proof {
            lemma_fields_bounded(self.spec_raw());
        }
        self.data & 0x3ff
    }

    /// Gets the stored `y` level.
    pub fn y_level(&self) -> (r: u32)
        ensures
            r == self.spec_y(),
            r <= XYZ_MAX,
    {
        proof {
            lemma_fields_bounded(self.spec_raw());
        }
        (self.data >> 10) & 0x3ff
    }

    /// Gets the stored `z` level.
    pub fn z_level(&self) -> (r: u32)
        ensures
            r == self.spec_z(),
            r <= XYZ_MAX,
    {
        proof {
            lemma_fields_bounded(self.spec_raw());
        }
        (self.data >> 20) & 0x3ff
    }

    /// Gets the stored `w` level.
    pub fn w_level(&self) -> (r: u32)
        ensures
            r == self.spec_w(),
            r <= W_MAX,
    {
        proof {
            lemma_fields_bounded(self.spec_raw());
        }
        (self.data >> 30) & 0x3
    }

    /// Updates the `x` level in place.
    ///
    /// Only bits 0..=9 of the word change: the `y`, `z` and `w` fields are
    /// bitwise unchanged.
    pub fn set_x_level(&mut self, v: u32)
        requires
            v <= XYZ_MAX,
        ensures
            final(self).spec_raw() == with_x(old(self).spec_raw(), v),
            final(self).spec_x() == v,
            final(self).spec_y() == old(self).spec_y(),
            final(self).spec_z() == old(self).spec_z(),
            final(self).spec_w() == old(self).spec_w(),
    {
        proof {
            lemma_with_x(self.spec_raw(), v);
        }
        self.data = (self.data & 0xffff_fc00) | v;
    }

    /// Updates the `y` level in place.
    ///
    /// Only bits 10..=19 of the word change: the `x`, `z` and `w` fields are
    /// bitwise unchanged.
    pub fn set_y_level(&mut self, v: u32)
        requires
            v <= XYZ_MAX,
        ensures
            final(self).spec_raw() == with_y(old(self).spec_raw(), v),
            final(self).spec_x() == old(self).spec_x(),
            final(self).spec_y() == v,
            final(self).spec_z() == old(self).spec_z(),
            final(self).spec_w() == old(self).spec_w(),
    {
        proof {
            lemma_with_y(self.spec_raw(), v);
        }
        self.data = (self.data & 0xfff0_03ff) | (v << 10);
    }

    /// Updates the `z` level in place.
    ///
    /// Only bits 20..=29 of the word change: the `x`, `y` and `w` fields are
    /// bitwise unchanged.
    pub fn set_z_level(&mut self, v: u32)
        requires
            v <= XYZ_MAX,
        ensures
            final(self).spec_raw() == with_z(old(self).spec_raw(), v),
            final(self).spec_x() == old(self).spec_x(),
            final(self).spec_y() == old(self).spec_y(),
            final(self).spec_z() == v,
            final(self).spec_w() == old(self).spec_w(),
    {
        proof {
            lemma_with_z(self.spec_raw(), v);
        }
        self.data = (self.data & 0xc00f_ffff) | (v << 20);
    }

    /// Updates the `w` level in place.
    ///
    /// Only bits 30..=31 of the word change: the `x`, `y` and `z` fields are
    /// bitwise unchanged.
    pub fn set_w_level(&mut self, v: u32)
        requires
            v <= W_MAX,
        ensures
            final(self).spec_raw() == with_w(old(self).spec_raw(), v),
            final(self).spec_x() == old(self).spec_x(),
            final(self).spec_y() == old(self).spec_y(),
            final(self).spec_z() == old(self).spec_z(),
            final(self).spec_w() == v,
    {
        proof {
            lemma_with_w(self.spec_raw(), v);
        }
        self.data = (self.data & 0x3fff_ffff) | (v << 30);
    }

    /// Updates the `x`, `y` and `z` levels in one combined mask.
    ///
    /// Behaviorally identical to calling `set_x_level`, `set_y_level` and
    /// `set_z_level` in sequence; only the `w` field's bits are kept.
    pub fn set_xyz_levels(&mut self, x: u32, y: u32, z: u32)
        requires
            x <= XYZ_MAX,
            y <= XYZ_MAX,
            z <= XYZ_MAX,
        ensures
            final(self).spec_raw() == with_xyz(old(self).spec_raw(), x, y, z),
            final(self).spec_x() == x,
            final(self).spec_y() == y,
            final(self).spec_z() == z,
            final(self).spec_w() == old(self).spec_w(),
    {
        proof {
            lemma_with_xyz(self.spec_raw(), x, y, z);
        }
        self.data = (self.data & 0xc000_0000) | (z << 20) | (y << 10) | x;
    }

    /// Returns the raw internal word unchanged, for placing the vector into an
    /// external binary buffer that expects this encoding.
    pub fn raw_value(&self) -> (r: u32)
        ensures
            r == self.spec_raw(),
    {
        self.data
    }
}

} // verus!
