//! The key catalog: the fixed, ordered set of the 24 major and minor keys,
//! enumerated in circle-of-fifths order (flat side first, then sharp side,
//! each major key paired with its relative minor).

use vstd::prelude::*;

verus! {

/// One of the 24 musical keys, major or minor.
#[derive(Copy, Clone, PartialEq, Eq, Structural, Debug)]
pub enum Key {
    Cmajor,
    Aminor,
    Fmajor,
    Dminor,
    Bflatmajor,
    Gminor,
    Eflatmajor,
    Cminor,
    Aflatmajor,
    Fminor,
    Dflatmajor,
    Bflatminor,
    Gflatmajor,
    Eflatminor,
    Bmajor,
    Gsharpminor,
    Emajor,
    Csharpminor,
    Amajor,
    Fsharpminor,
    Dmajor,
    Bminor,
    Gmajor,
    Eminor,
}

/// The number of keys in the catalog.
pub const KEY_COUNT: usize = 24;

/// The key at position `i` of the circle-of-fifths ordering.
pub open spec fn key_at(i: int) -> Key {
    if i == 0 {
        Key::Cmajor
    } else if i == 1 {
        Key::Aminor
    } else if i == 2 {
        Key::Fmajor
    } else if i == 3 {
        Key::Dminor
    } else if i == 4 {
        Key::Bflatmajor
    } else if i == 5 {
        Key::Gminor
    } else if i == 6 {
        Key::Eflatmajor
    } else if i == 7 {
        Key::Cminor
    } else if i == 8 {
        Key::Aflatmajor
    } else if i == 9 {
        Key::Fminor
    } else if i == 10 {
        Key::Dflatmajor
    } else if i == 11 {
        Key::Bflatminor
    } else if i == 12 {
        Key::Gflatmajor
    } else if i == 13 {
        Key::Eflatminor
    } else if i == 14 {
        Key::Bmajor
    } else if i == 15 {
        Key::Gsharpminor
    } else if i == 16 {
        Key::Emajor
    } else if i == 17 {
        Key::Csharpminor
    } else if i == 18 {
        Key::Amajor
    } else if i == 19 {
        Key::Fsharpminor
    } else if i == 20 {
        Key::Dmajor
    } else if i == 21 {
        Key::Bminor
    } else if i == 22 {
        Key::Gmajor
    } else {
        Key::Eminor
    }
}

/// The position of `k` in the circle-of-fifths ordering.
pub open spec fn key_index(k: Key) -> int {
    match k {
        Key::Cmajor => 0,
        Key::Aminor => 1,
        Key::Fmajor => 2,
        Key::Dminor => 3,
        Key::Bflatmajor => 4,
        Key::Gminor => 5,
        Key::Eflatmajor => 6,
        Key::Cminor => 7,
        Key::Aflatmajor => 8,
        Key::Fminor => 9,
        Key::Dflatmajor => 10,
        Key::Bflatminor => 11,
        Key::Gflatmajor => 12,
        Key::Eflatminor => 13,
        Key::Bmajor => 14,
        Key::Gsharpminor => 15,
        Key::Emajor => 16,
        Key::Csharpminor => 17,
        Key::Amajor => 18,
        Key::Fsharpminor => 19,
        Key::Dmajor => 20,
        Key::Bminor => 21,
        Key::Gmajor => 22,
        Key::Eminor => 23,
    }
}

/// The whole catalog as a sequence: all 24 keys, in circle-of-fifths order.
pub open spec fn catalog() -> Seq<Key> {
    Seq::new(KEY_COUNT as nat, |i: int| key_at(i))
}

/// Positions and keys are in bijection: `key_index` inverts `key_at` on the
/// catalog's index range, and every key sits at its own index.
pub proof fn lemma_key_index_bijective()
    ensures
        forall|i: int| 0 <= i < KEY_COUNT ==> key_index(key_at(i)) == i,
        forall|k: Key| 0 <= key_index(k) < KEY_COUNT && key_at(key_index(k)) == k,
{
}

/// Catalog completeness: the catalog holds exactly 24 keys, the key at each
/// position is the one the circle-of-fifths ordering prescribes, no key
/// appears twice, and no key is missing.
pub proof fn lemma_catalog_complete()
    ensures
        catalog().len() == KEY_COUNT,
        forall|i: int| 0 <= i < KEY_COUNT ==> catalog()[i] == key_at(i),
        forall|i: int, j: int|
            0 <= i < KEY_COUNT && 0 <= j < KEY_COUNT && i != j ==> catalog()[i] != catalog()[j],
        forall|k: Key| catalog().contains(k),
{
    lemma_key_index_bijective();
    assert forall|i: int, j: int|
        0 <= i < KEY_COUNT && 0 <= j < KEY_COUNT && i != j implies catalog()[i]
        != catalog()[j] by {
        assert(key_index(catalog()[i]) == i);
        assert(key_index(catalog()[j]) == j);
    }
    assert forall|k: Key| catalog().contains(k) by {
        assert(catalog()[key_index(k)] == k);
    }
}

impl Key {
    /// The catalog as a vector: all 24 keys, in circle-of-fifths order.
    pub fn make_vec() -> (r: Vec<Self>)
        ensures
            r@ == catalog(),
    {
        let v: Vec<Self> = vec![
            Self::Cmajor,
            Self::Aminor,
            Self::Fmajor,
            Self::Dminor,
            Self::Bflatmajor,
            Self::Gminor,
            Self::Eflatmajor,
            Self::Cminor,
            Self::Aflatmajor,
            Self::Fminor,
            Self::Dflatmajor,
            Self::Bflatminor,
            Self::Gflatmajor,
            Self::Eflatminor,
            Self::Bmajor,
            Self::Gsharpminor,
            Self::Emajor,
            Self::Csharpminor,
            Self::Amajor,
            Self::Fsharpminor,
            Self::Dmajor,
            Self::Bminor,
            Self::Gmajor,
            Self::Eminor,
        ];
        proof {
            assert(v@ =~= catalog());
        }
        v
    }
}

} // verus!
