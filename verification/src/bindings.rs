//! The rule by which the generated `citro3d` bindings treat some blocklisted C types
//! as "known good": such types are taken to implement `Copy` and `Debug`, which in
//! turn lets the bindings use Rust `union`s and derived `Debug` impls.

use vstd::prelude::*;
use vstd::string::StringSliceAdditionalSpecFns;

verus! {

/// A trait that the binding generator may derive for a type.
#[derive(Clone, Copy, Debug, PartialEq, Eq)]
pub enum DeriveTrait {
    /// `Copy`.
    Copy,
    /// `Debug`.
    Debug,
    /// `Default`.
    Default,
    /// `Hash`.
    Hash,
    /// `PartialEq` or `PartialOrd`.
    PartialEqOrPartialOrd,
}

/// Whether a type implements a trait, as told to the binding generator.
#[derive(Clone, Copy, Debug, PartialEq, Eq)]
pub enum ImplementsTrait {
    /// It does not.
    No,
    /// It does, by a manual impl.
    Manually,
    /// It does.
    Yes,
}

/// The bytes of an ASCII text.
pub open spec fn ascii(text: Seq<char>) -> Seq<u8> {
    text.map_values(|c: char| c as u8)
}

/// The UTF-8 bytes of the names of the known good types, apart from the `GPU_` ones.
pub open spec fn spec_known_names() -> Seq<Seq<u8>> {
    seq![
        ascii("u64_"@),
        ascii("u32_"@),
        ascii("u16_"@),
        ascii("u8_"@),
        ascii("u64"@),
        ascii("u32"@),
        ascii("u16"@),
        ascii("u8"@),
        ascii("gfxScreen_t"@),
        ascii("gfx3dSide_t"@),
    ]
}

/// The UTF-8 bytes of the prefix `GPU_`.
pub open spec fn spec_gpu_prefix() -> Seq<u8> {
    ascii("GPU_"@)
}

/// Whether the type whose name has the UTF-8 bytes `name` is a known good type: one
/// of the listed names, or any name that starts with `GPU_`.
pub open spec fn spec_is_known_good(name: Seq<u8>) -> bool {
    ||| spec_known_names().contains(name)
    ||| (spec_gpu_prefix().len() <= name.len() && name.subrange(0, spec_gpu_prefix().len() as int)
        == spec_gpu_prefix())
}

/// Whether the bytes `a` and `b` are the same.
fn bytes_equal(a: &[u8], b: &[u8]) -> (r: bool)
    ensures
        r == (a@ == b@),
{
    if a.len() != b.len() {
        return false;
    }
    let mut i: usize = 0;
    while i < a.len()
        invariant
            a@.len() == b@.len(),
            i <= a@.len(),
            forall|j: int| 0 <= j < i ==> a@[j] == b@[j],
        decreases a@.len() - i,
    {
        if a[i] != b[i] {
            return false;
        }
        i = i + 1;
    }
    assert(a@ =~= b@);
    true
}

/// Whether the bytes `s` start with the bytes `p`.
fn has_prefix(s: &[u8], p: &[u8]) -> (r: bool)
    ensures
        r == (p@.len() <= s@.len() && s@.subrange(0, p@.len() as int) == p@),
{
    if p.len() > s.len() {
        return false;
    }
    let mut i: usize = 0;
    while i < p.len()
        invariant
            p@.len() <= s@.len(),
            i <= p@.len(),
            forall|j: int| 0 <= j < i ==> s@[j] == p@[j],
        decreases p@.len() - i,
    {
        if s[i] != p[i] {
            assert(s@.subrange(0, p@.len() as int)[i as int] != p@[i as int]);
            return false;
        }
        i = i + 1;
    }
    assert(s@.subrange(0, p@.len() as int) =~= p@);
    true
}

/// Whether the type named `name` is a known good type: one of the fixed-size integer
/// types (with or without a trailing underscore), `gfxScreen_t`, `gfx3dSide_t`, or any
/// type whose name starts with `GPU_`.
pub fn is_known_good_type(name: &str) -> (r: bool)
    ensures
        r == spec_is_known_good(name.spec_bytes()),
{
    let n: &[u8] = name.as_bytes();
    let ghost names = spec_known_names();
    proof {
        reveal_strlit("u64_");
        reveal_strlit("u32_");
        reveal_strlit("u16_");
        reveal_strlit("u8_");
        reveal_strlit("u64");
        reveal_strlit("u32");
        reveal_strlit("u16");
        reveal_strlit("u8");
        reveal_strlit("gfxScreen_t");
        reveal_strlit("gfx3dSide_t");
        reveal_strlit("GPU_");
        assert(names[0] =~= seq![117u8, 54, 52, 95]);
        assert(names[1] =~= seq![117u8, 51, 50, 95]);
        assert(names[2] =~= seq![117u8, 49, 54, 95]);
        assert(names[3] =~= seq![117u8, 56, 95]);
        assert(names[4] =~= seq![117u8, 54, 52]);
        assert(names[5] =~= seq![117u8, 51, 50]);
        assert(names[6] =~= seq![117u8, 49, 54]);
        assert(names[7] =~= seq![117u8, 56]);
        assert(names[8] =~= seq![103u8, 102, 120, 83, 99, 114, 101, 101, 110, 95, 116]);
        assert(names[9] =~= seq![103u8, 102, 120, 51, 100, 83, 105, 100, 101, 95, 116]);
        assert(spec_gpu_prefix() =~= seq![71u8, 80, 85, 95]);
    }
    let found = if bytes_equal(n, &[117u8, 54, 52, 95]) {
        assert(names[0] == n@);
        true
    } else if bytes_equal(n, &[117u8, 51, 50, 95]) {
        assert(names[1] == n@);
        true
    } else if bytes_equal(n, &[117u8, 49, 54, 95]) {
        assert(names[2] == n@);
        true
    } else if bytes_equal(n, &[117u8, 56, 95]) {
        assert(names[3] == n@);
        true
    } else if bytes_equal(n, &[117u8, 54, 52]) {
        assert(names[4] == n@);
        true
    } else if bytes_equal(n, &[117u8, 51, 50]) {
        assert(names[5] == n@);
        true
    } else if bytes_equal(n, &[117u8, 49, 54]) {
        assert(names[6] == n@);
        true
    } else if bytes_equal(n, &[117u8, 56]) {
        assert(names[7] == n@);
        true
    } else if bytes_equal(n, &[103u8, 102, 120, 83, 99, 114, 101, 101, 110, 95, 116]) {
        assert(names[8] == n@);
        true
    } else if bytes_equal(n, &[103u8, 102, 120, 51, 100, 83, 105, 100, 101, 95, 116]) {
        assert(names[9] == n@);
        true
    } else {
        assert(!names.contains(n@));
        false
    };
    found || has_prefix(n, &[71u8, 80, 85, 95])
}

/// Whether a blocklisted type implements `derive_trait`: known good types are
/// reported to implement `Copy` and `Debug`; about every other type or trait
/// nothing is said.
pub fn blocklisted_type_implements_trait(name: &str, derive_trait: DeriveTrait) -> (r: Option<
    ImplementsTrait,
>)
    ensures
        r == (if (derive_trait == DeriveTrait::Copy || derive_trait == DeriveTrait::Debug)
            && spec_is_known_good(name.spec_bytes()) {
            Some(ImplementsTrait::Yes)
        } else {
            None::<ImplementsTrait>
        }),
{
    match derive_trait {
        DeriveTrait::Copy | DeriveTrait::Debug => {
            if is_known_good_type(name) {
                Some(ImplementsTrait::Yes)
            } else {
                None
            }
        },
        _ => None,
    }
}

} // verus!
