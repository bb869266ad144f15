//! The command encoder: turns a typed led argument into an address fragment
//! plus the wire arguments it stands for, and owns the led bitmask packing
//! that folds a row of eight booleans into one mask byte.

use vstd::prelude::*;

verus! {

use vstd::arithmetic::div_mod::lemma_fundamental_div_mod;
use vstd::string::StringExecFns;

use crate::osc::ArgV;
use crate::osc::OscArg;

/// Whether bit `k` (bit 0 is the least significant) of `m` is set.
pub open spec fn bit_of(m: u8, k: u8) -> bool {
    (m >> k) & 1u8 == 1u8
}

/// The mask packed from `leds[base] ..= leds[base + k - 1]`: bit `j` is set
/// exactly when the led at `base + j` is lit.
pub open spec fn mask_rec(leds: Seq<bool>, base: int, k: nat) -> u8
    decreases k,
{
    if k == 0 {
        0u8
    } else {
        mask_rec(leds, base, (k - 1) as nat) | (if leds[base + k - 1] {
            1u8 << (k - 1) as u8
        } else {
            0u8
        })
    }
}

/// The packed mask for one full 8-led row starting at `base`.
pub open spec fn row_mask(leds: Seq<bool>, base: int) -> u8 {
    mask_rec(leds, base, 8)
}

proof fn lemma_or_bit(m: u8, mm: u8, j: u8, b: bool)
    by (bit_vector)
    requires
        j < 8,
        mm == (m | (if b {
            1u8 << j
        } else {
            0u8
        })),
    ensures
        bit_of(mm, j) == (bit_of(m, j) || b),
        forall|k: u8| k < 8 && k != j ==> bit_of(mm, k) == bit_of(m, k),
{
}

/// Bit `k` of a packed row mask is exactly the led at offset `k` of the row,
/// and the bits above the packed range stay clear.
pub proof fn lemma_mask_rec_bits(leds: Seq<bool>, base: int, n: nat)
    requires
        n <= 8,
        0 <= base,
        base + n <= leds.len(),
    ensures
        forall|k: u8| k < n ==> bit_of(mask_rec(leds, base, n), k) == leds[base + k],
        forall|k: u8| n <= k < 8 ==> !bit_of(mask_rec(leds, base, n), k),
    decreases n,
{
    if n == 0 {
        assert(forall|k: u8| k < 8 ==> !bit_of(0u8, k)) by (bit_vector);
    } else {
        let prev = (n - 1) as nat;
        lemma_mask_rec_bits(leds, base, prev);
        let m = mask_rec(leds, base, prev);
        let b = leds[base + n - 1];
        let j = (n - 1) as u8;
        let mm = mask_rec(leds, base, n);
        assert(mm == (m | (if b {
            1u8 << j
        } else {
            0u8
        })));
        lemma_or_bit(m, mm, j, b);
        assert forall|k: u8| k < n implies bit_of(mm, k) == leds[base + k] by {
            if k == j {
                assert(!bit_of(m, j));
            }
        }
        assert forall|k: u8| n <= k < 8 implies !bit_of(mm, k) by {
            assert(!bit_of(m, k));
        }
    }
}

/// The row masks of a 64-led quadrant, one byte per row, row-major.
pub open spec fn pack_bool64(leds: Seq<bool>) -> Seq<u8> {
    Seq::new(8, |i: int| row_mask(leds, 8 * i))
}

/// The led array read back from eight row masks: the led at column `k` of
/// row `i` is bit `k` of mask `i`.
pub open spec fn unpack_masks(masks: Seq<u8>) -> Seq<bool> {
    Seq::new(64, |n: int| bit_of(masks[n / 8], (n % 8) as u8))
}

/// Packing 64 booleans into eight row masks and reading every bit back
/// yields the original array: the bitmask codec loses nothing.
pub proof fn lemma_pack_unpack(leds: Seq<bool>)
    requires
        leds.len() == 64,
    ensures
        unpack_masks(pack_bool64(leds)) == leds,
{
    let rt = unpack_masks(pack_bool64(leds));
    assert forall|n: int| 0 <= n < 64 implies rt[n] == leds[n] by {
        lemma_fundamental_div_mod(n, 8);
        lemma_mask_rec_bits(leds, 8 * (n / 8), 8);
        assert(bit_of(row_mask(leds, 8 * (n / 8)), (n % 8) as u8) == leds[8 * (n / 8) + (n
            % 8)]);
    }
    assert(rt =~= leds);
}

/// Converts one command argument into the address fragment it selects and
/// the list of wire arguments it encodes to.
pub trait IntoAddrAndArgs<B: DeepView> {
    /// The address fragment the argument selects: `"level/"` for intensity
    /// shapes, empty for on/off shapes.
    spec fn frag_spec(&self) -> Seq<char>;

    /// The wire arguments the value encodes to.
    spec fn args_spec(&self) -> B::V;

    /// Encodes the value into its address fragment and wire arguments.
    fn as_addr_frag_and_args(&self) -> (r: (String, B))
        ensures
            r.0@ == self.frag_spec(),
            r.1.deep_view() == self.args_spec(),
    ;
}

/// A single intensity in `[0, 16)`: adds the `"level/"` fragment.
impl IntoAddrAndArgs<OscArg> for i32 {
    open spec fn frag_spec(&self) -> Seq<char> {
        "level/"@
    }

    open spec fn args_spec(&self) -> ArgV {
        ArgV::Int(*self)
    }

    fn as_addr_frag_and_args(&self) -> (r: (String, OscArg)) {
        (String::from_str("level/"), OscArg::Int(*self))
    }
}

/// An on/off flag: encodes to the integer 1 or 0.
impl IntoAddrAndArgs<OscArg> for bool {
    open spec fn frag_spec(&self) -> Seq<char> {
        ""@
    }

    open spec fn args_spec(&self) -> ArgV {
        ArgV::Int(
            if *self {
                1
            } else {
                0
            },
        )
    }

    fn as_addr_frag_and_args(&self) -> (r: (String, OscArg)) {
        (
            String::from_str(""),
            OscArg::Int(
                if *self {
                    1
                } else {
                    0
                },
            ),
        )
    }
}

/// One ready-made row mask byte.
impl IntoAddrAndArgs<Vec<OscArg>> for u8 {
    open spec fn frag_spec(&self) -> Seq<char> {
        ""@
    }

    open spec fn args_spec(&self) -> Seq<ArgV> {
        seq![ArgV::Int(*self as i32)]
    }

    fn as_addr_frag_and_args(&self) -> (r: (String, Vec<OscArg>)) {
        let mut v: Vec<OscArg> = Vec::new();
        v.push(OscArg::Int(*self as i32));
        assert(v.deep_view() =~= seq![ArgV::Int(*self as i32)]);
        (String::from_str(""), v)
    }
}

/// Sixty-four intensity values, row-major: adds the `"level/"` fragment.
impl IntoAddrAndArgs<Vec<OscArg>> for [u8; 64] {
    open spec fn frag_spec(&self) -> Seq<char> {
        "level/"@
    }

    open spec fn args_spec(&self) -> Seq<ArgV> {
        Seq::new(64, |i: int| ArgV::Int(self@[i] as i32))
    }

    fn as_addr_frag_and_args(&self) -> (r: (String, Vec<OscArg>)) {
        let mut v: Vec<OscArg> = Vec::new();
        let mut i: usize = 0;
        while i < 64
            invariant
                i <= 64,
                v@.len() == i,
                forall|j: int| 0 <= j < i ==> v@[j] == OscArg::Int(#[trigger] self@[j] as i32),
            decreases 64 - i,
        {
            v.push(OscArg::Int(self[i] as i32));
            i += 1;
        }
        assert(v.deep_view() =~= self.args_spec());
        (String::from_str("level/"), v)
    }
}

/// Eight ready-made row mask bytes, one per row.
impl IntoAddrAndArgs<Vec<OscArg>> for [u8; 8] {
    open spec fn frag_spec(&self) -> Seq<char> {
        ""@
    }

    open spec fn args_spec(&self) -> Seq<ArgV> {
        Seq::new(8, |i: int| ArgV::Int(self@[i] as i32))
    }

    fn as_addr_frag_and_args(&self) -> (r: (String, Vec<OscArg>)) {
        let mut v: Vec<OscArg> = Vec::new();
        let mut i: usize = 0;
        while i < 8
            invariant
                i <= 8,
                v@.len() == i,
                forall|j: int| 0 <= j < i ==> v@[j] == OscArg::Int(#[trigger] self@[j] as i32),
            decreases 8 - i,
        {
            v.push(OscArg::Int(self[i] as i32));
            i += 1;
        }
        assert(v.deep_view() =~= self.args_spec());
        (String::from_str(""), v)
    }
}

/// Sixty-four booleans, row-major: packed into eight row mask bytes.
impl IntoAddrAndArgs<Vec<OscArg>> for [bool; 64] {
    open spec fn frag_spec(&self) -> Seq<char> {
        ""@
    }

    open spec fn args_spec(&self) -> Seq<ArgV> {
        Seq::new(8, |i: int| ArgV::Int(row_mask(self@, 8 * i) as i32))
    }

    fn as_addr_frag_and_args(&self) -> (r: (String, Vec<OscArg>)) {
        let mut v: Vec<OscArg> = Vec::new();
        let mut i: usize = 0;
        while i < 8
            invariant
                i <= 8,
                v@.len() == i,
                forall|a: int| 0 <= a < i ==> v@[a] == OscArg::Int(#[trigger] row_mask(self@, 8 * a) as i32),
            decreases 8 - i,
        {
            let mut mask: u8 = 0;
            let mut j: usize = 0;
            while j < 8
                invariant
                    i < 8,
                    j <= 8,
                    mask == mask_rec(self@, 8 * i as int, j as nat),
                decreases 8 - j,
            {
                let lit = self[8 * i + j];
                mask = mask | (if lit {
                    1u8 << (j as u8)
                } else {
                    0u8
                });
                assert(mask == mask_rec(self@, 8 * i as int, (j + 1) as nat));
                j += 1;
            }
            v.push(OscArg::Int(mask as i32));
            i += 1;
        }
        assert(v.deep_view() =~= self.args_spec());
        (String::from_str(""), v)
    }
}

} // verus!
