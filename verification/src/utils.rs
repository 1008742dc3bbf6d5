//! Small formatting helpers shared by the model.

use crate::text::{decimal, push_decimal, str_chars};
use std::marker::PhantomData;
use vstd::prelude::*;
use vstd::std_specs::convert::IntoSpec;

verus! {

/// The suffix that turns the numeral of `n` into its ordinal form: `th` for
/// eleven to nineteen, otherwise by the last digit.
pub open spec fn ordinal_suffix(n: nat) -> Seq<char> {
    if 10 < n < 20 {
        "th"@
    } else if n % 10 == 1 {
        "st"@
    } else if n % 10 == 2 {
        "nd"@
    } else if n % 10 == 3 {
        "rd"@
    } else {
        "th"@
    }
}

/// The ordinal form of `n`: its decimal numeral followed by its suffix.
pub open spec fn ordinal(n: nat) -> Seq<char> {
    decimal(n) + ordinal_suffix(n)
}

/// Formats a number in its ordinal form, such as `1st`, `12th` or `23rd`.
pub fn ordinal_number<N: Into<usize>>(n: N) -> (r: String)
    ensures
        <N as IntoSpec<usize>>::obeys_into_spec() ==> r@ == ordinal(
            <N as IntoSpec<usize>>::into_spec(n) as nat,
        ),
{
    let ghost given = n;
    let n: usize = n.into();
    let mut r = String::new();
    push_decimal(&mut r, n as u64);
    let suffix = if n > 10 && n < 20 {
        "th"
    } else if n % 10 == 1 {
        "st"
    } else if n % 10 == 2 {
        "nd"
    } else if n % 10 == 3 {
        "rd"
    } else {
        "th"
    };
    r.append(suffix);
    assert(r@ =~= ordinal(n as nat));
    r
}

/// A kind of flag that a set of flags can hold: each flag has a bit of its
/// own and a letter by which it is written.
pub trait Flag: Sized + Copy {
    /// The position of the flag's bit.
    spec fn spec_bit(self) -> nat;

    /// The flag whose bit is at position `bit`, if there is one.
    spec fn spec_from_bit(bit: nat) -> Option<Self>;

    /// The flag that the letter `c` stands for, if there is one.
    spec fn spec_from_char(c: char) -> Option<Self>;

    /// Bits and flags correspond one to one, and every bit is below sixteen.
    proof fn lemma_bits()
        ensures
            forall|f: Self| #[trigger] f.spec_bit() < 16,
            forall|f: Self| Self::spec_from_bit(#[trigger] f.spec_bit()) == Some(f),
            forall|b: nat| (#[trigger] Self::spec_from_bit(b)) matches Some(f) ==> f.spec_bit() == b,
    ;

    /// The position of the flag's bit.
    fn bit(self) -> (b: u16)
        ensures
            b == self.spec_bit(),
    ;

    /// The flag whose bit is at position `bit`, if there is one.
    fn from_bit(bit: u16) -> (f: Option<Self>)
        ensures
            f == Self::spec_from_bit(bit as nat),
    ;

    /// The flag that the letter `c` stands for, if there is one.
    fn from_char(c: char) -> (f: Option<Self>)
        ensures
            f == Self::spec_from_char(c),
    ;
}

/// Whether the bit at position `bit` is set in `bits`.
pub open spec fn has_bit(bits: u16, bit: nat) -> bool {
    bit < 16 && bits & (1u16 << (bit as u16)) != 0
}

proof fn lemma_set_bit(bits: u16, b: u16, c: u16)
    requires
        b < 16,
        c < 16,
    ensures
        ((bits | (1u16 << b)) & (1u16 << c) != 0) == ((bits & (1u16 << c) != 0) || b == c),
        0u16 & (1u16 << c) == 0,
{
    assert(((bits | (1u16 << b)) & (1u16 << c) != 0) == ((bits & (1u16 << c) != 0) || b == c))
        by (bit_vector)
        requires
            b < 16,
            c < 16,
    ;
    assert(0u16 & (1u16 << c) == 0) by (bit_vector);
}

/// Whether `listed` lists the flags of `held`, each once, by ascending bit.
pub open spec fn is_listing<T: Flag>(listed: Seq<T>, held: Set<T>) -> bool {
    &&& forall|i: int| 0 <= i < listed.len() ==> held.contains(#[trigger] listed[i])
    &&& forall|i: int, j: int|
        0 <= i < j < listed.len() ==> (#[trigger] listed[i]).spec_bit() < (
        #[trigger] listed[j]).spec_bit()
    &&& forall|f: T| held.contains(f) ==> listed.contains(f)
}

/// A set of flags of one kind, held as bits and written as a string of
/// letters, one letter per flag.
#[derive(Debug, PartialEq, Eq)]
pub struct CharFlags<T: Flag> {
    bits: u16,
    kind: PhantomData<T>,
}

impl<T: Flag> Clone for CharFlags<T> {
    fn clone(&self) -> (r: Self)
        ensures
            r == *self,
    {
        CharFlags { bits: self.bits, kind: PhantomData }
    }
}

impl<T: Flag> Copy for CharFlags<T> {

}

impl<T: Flag> View for CharFlags<T> {
    type V = Set<T>;

    closed spec fn view(&self) -> Set<T> {
        Set::new(|f: T| has_bit(self.bits, f.spec_bit()))
    }
}

impl<T: Flag> CharFlags<T> {
    /// The flags that the letters of `s` stand for, where each does.
    pub open spec fn spec_parse(s: Seq<char>) -> Option<Set<T>> {
        if forall|i: int| 0 <= i < s.len() ==> T::spec_from_char(#[trigger] s[i]) is Some {
            Some(
                Set::new(
                    |f: T| exists|i: int| 0 <= i < s.len() && T::spec_from_char(#[trigger] s[i]) == Some(f),
                ),
            )
        } else {
            None
        }
    }

    /// The set that holds no flag.
    pub fn empty() -> (r: Self)
        ensures
            r@ == Set::<T>::empty(),
    {
        let r = CharFlags { bits: 0, kind: PhantomData };
        proof {
            T::lemma_bits();
            assert forall|f: T| !has_bit(0u16, #[trigger] f.spec_bit()) by {
                lemma_set_bit(0, 0, f.spec_bit() as u16);
            }
            assert(r@ =~= Set::<T>::empty());
        }
        r
    }

    /// Whether the set holds `flag`.
    pub fn contains(&self, flag: T) -> (r: bool)
        ensures
            r == self@.contains(flag),
    {
        proof {
            T::lemma_bits();
        }
        let b = flag.bit();
        self.bits & (1u16 << b) != 0
    }

    /// Adds `flag` to the set.
    pub fn insert(&mut self, flag: T)
        ensures
            final(self)@ == old(self)@.insert(flag),
    {
        proof {
            T::lemma_bits();
        }
        let b = flag.bit();
        let ghost before = self.bits;
        self.bits = self.bits | (1u16 << b);
        proof {
            assert forall|f: T| has_bit(self.bits, #[trigger] f.spec_bit()) == (has_bit(
                before,
                f.spec_bit(),
            ) || f == flag) by {
                lemma_set_bit(before, b, f.spec_bit() as u16);
            }
            assert(self@ =~= old(self)@.insert(flag));
        }
    }

    /// The flags of the set, each once, by ascending bit.
    pub fn to_vec(&self) -> (r: Vec<T>)
        ensures
            is_listing(r@, self@),
    {
        proof {
            T::lemma_bits();
        }
        let mut r: Vec<T> = Vec::new();
        let mut b: u16 = 0;
        while b < 16
            invariant
                b <= 16,
                forall|i: int| 0 <= i < r.len() ==> self@.contains(#[trigger] r[i]),
                forall|i: int| 0 <= i < r.len() ==> (#[trigger] r[i]).spec_bit() < b,
                forall|i: int, j: int|
                    0 <= i < j < r.len() ==> (#[trigger] r[i]).spec_bit() < (
                    #[trigger] r[j]).spec_bit(),
                forall|f: T| self@.contains(f) && f.spec_bit() < b ==> r@.contains(f),
                forall|f: T| #[trigger] f.spec_bit() < 16,
                forall|f: T| T::spec_from_bit(#[trigger] f.spec_bit()) == Some(f),
                forall|c: nat| (#[trigger] T::spec_from_bit(c)) matches Some(f) ==> f.spec_bit() == c,
            decreases 16 - b,
        {
            let ghost before = r@;
            if self.bits & (1u16 << b) != 0 {
                match T::from_bit(b) {
                    Some(f) => {
                        r.push(f);
                        assert(r@[r.len() - 1] == f);
                        assert forall|g: T| self@.contains(g) && g.spec_bit() < b + 1 implies r@.contains(g) by {
                            if g.spec_bit() < b {
                                let k = choose|k: int| 0 <= k < before.len() && before[k] == g;
                                assert(r@[k] == g);
                            } else {
                                assert(g == f);
                            }
                        }
                    },
                    None => {},
                }
            }
            b += 1;
        }
        r
    }

    /// Reads a set of flags from its written form; `None` where a letter
    /// stands for no flag.
    pub fn parse(s: &str) -> (r: Option<Self>)
        ensures
            match r {
                Some(flags) => Self::spec_parse(s@) == Some(flags@),
                None => Self::spec_parse(s@) is None,
            },
    {
        let chars = str_chars(s);
        let mut flags = Self::empty();
        let mut i: usize = 0;
        while i < chars.len()
            invariant
                i <= chars.len(),
                chars@ == s@,
                forall|k: int| 0 <= k < i ==> T::spec_from_char(#[trigger] s@[k]) is Some,
                forall|f: T|
                    flags@.contains(f) <==> exists|k: int|
                        0 <= k < i && T::spec_from_char(#[trigger] s@[k]) == Some(f),
            decreases chars.len() - i,
        {
            match T::from_char(chars[i]) {
                Some(flag) => {
                    let ghost before = flags@;
                    flags.insert(flag);
                    proof {
                        assert forall|f: T| flags@.contains(f) <==> exists|k: int|
                            0 <= k < i + 1 && T::spec_from_char(#[trigger] s@[k]) == Some(f) by {
                            if flags@.contains(f) {
                                if f == flag {
                                    assert(T::spec_from_char(s@[i as int]) == Some(f));
                                } else {
                                    assert(before.contains(f));
                                    let k = choose|k: int|
                                        0 <= k < i && T::spec_from_char(#[trigger] s@[k]) == Some(f);
                                    assert(0 <= k < i + 1 && T::spec_from_char(s@[k]) == Some(f));
                                }
                            }
                            if exists|k: int|
                                0 <= k < i + 1 && T::spec_from_char(#[trigger] s@[k]) == Some(f) {
                                let k = choose|k: int|
                                    0 <= k < i + 1 && T::spec_from_char(#[trigger] s@[k]) == Some(f);
                                if k < i {
                                    assert(before.contains(f));
                                }
                            }
                        }
                    }
                },
                None => {
                    assert(T::spec_from_char(s@[i as int]) is None);
                    return None;
                },
            }
            i += 1;
        }
        proof {
            assert(flags@ =~= Self::spec_parse(s@)->0);
        }
        Some(flags)
    }
}

} // verus!
