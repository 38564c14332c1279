use vstd::prelude::*;
use vstd::std_specs::ops::{BitAndSpecImpl, BitOrSpecImpl, BitXorSpecImpl, NotSpecImpl, SubSpecImpl};

verus! {

/// Bit of a property that may be deleted or changed.
pub const CONFIGURABLE_BIT: u32 = 1;

/// Bit of a property that shows up when the object's properties are enumerated.
pub const ENUMERABLE_BIT: u32 = 2;

/// Bit of a property whose value may be changed by assignment.
pub const WRITABLE_BIT: u32 = 4;

/// All the bits that name a known flag.
pub const ALL_BITS: u32 = 7;

/// The bits of `bits` that name known flags, the others dropped.
pub open spec fn known_bits(bits: u32) -> u32 {
    bits & ALL_BITS
}

/// The names of the flags set in `bits`, in the order the flags are declared.
pub open spec fn flag_names(bits: u32) -> Seq<Seq<char>> {
    (if bits & CONFIGURABLE_BIT != 0 {
        seq!["CONFIGURABLE"@]
    } else {
        Seq::empty()
    }) + (if bits & ENUMERABLE_BIT != 0 {
        seq!["ENUMERABLE"@]
    } else {
        Seq::empty()
    }) + (if bits & WRITABLE_BIT != 0 {
        seq!["WRITABLE"@]
    } else {
        Seq::empty()
    })
}

/// `names` joined by `" | "`.
pub open spec fn join_names(names: Seq<Seq<char>>) -> Seq<char>
    decreases names.len(),
{
    if names.len() == 0 {
        Seq::empty()
    } else if names.len() == 1 {
        names[0]
    } else {
        join_names(names.drop_last()) + " | "@ + names.last()
    }
}

/// How a set of flags is written out: the names of its flags joined by
/// `" | "`, or `(empty)` when no flag is set.
pub open spec fn debug_text(bits: u32) -> Seq<char> {
    if flag_names(bits).len() == 0 {
        "(empty)"@
    } else {
        join_names(flag_names(bits))
    }
}

/// Appends `name` to the names already written to `text`, after a separator
/// unless it is the first.
fn append_name(text: &mut String, Ghost(names): Ghost<Seq<Seq<char>>>, first: bool, name: &str)
    requires
        old(text)@ == join_names(names),
        first == (names.len() == 0),
    ensures
        final(text)@ == join_names(names.push(name@)),
{
    assert(names.push(name@).drop_last() =~= names);
    if !first {
        text.append(" | ");
    }
    text.append(name);
    if !first {
        assert(text@ =~= join_names(names) + " | "@ + name@);
    } else {
        assert(text@ =~= name@);
    }
}

/// Flags of a property defined on a JavaScript object (`JSCValuePropertyFlags`).
///
/// Its view is the set of flags as a bit mask; only the known bits are ever set.
#[derive(Clone, Copy, PartialEq, Eq, Structural, PartialOrd, Ord, Debug, Hash)]
pub struct ValuePropertyFlags {
    bits: u32,
}

impl View for ValuePropertyFlags {
    type V = u32;

    closed spec fn view(&self) -> u32 {
        self.bits
    }
}

impl ValuePropertyFlags {
    #[verifier::type_invariant]
    closed spec fn inv(self) -> bool {
        self.bits <= ALL_BITS
    }

    /// The empty set of flags.
    pub fn empty() -> (r: Self)
        ensures
            r@ == 0,
    {
        ValuePropertyFlags { bits: 0 }
    }

    /// Every known flag.
    pub fn all() -> (r: Self)
        ensures
            r@ == ALL_BITS,
    {
        ValuePropertyFlags { bits: ALL_BITS }
    }

    /// The single flag `CONFIGURABLE`.
    pub fn configurable() -> (r: Self)
        ensures
            r@ == CONFIGURABLE_BIT,
    {
        ValuePropertyFlags { bits: CONFIGURABLE_BIT }
    }

    /// The single flag `ENUMERABLE`.
    pub fn enumerable() -> (r: Self)
        ensures
            r@ == ENUMERABLE_BIT,
    {
        ValuePropertyFlags { bits: ENUMERABLE_BIT }
    }

    /// The single flag `WRITABLE`.
    pub fn writable() -> (r: Self)
        ensures
            r@ == WRITABLE_BIT,
    {
        ValuePropertyFlags { bits: WRITABLE_BIT }
    }

    /// The raw bit mask.
    pub fn bits(&self) -> (r: u32)
        ensures
            r == self@,
            r <= ALL_BITS,
    {
        proof {
            use_type_invariant(self);
        }
        self.bits
    }

    /// The flags of `bits`, or `None` when `bits` holds an unknown bit.
    pub fn from_bits(bits: u32) -> (r: Option<Self>)
        ensures
            r is Some <==> bits & !ALL_BITS == 0,
            r matches Some(f) ==> f@ == bits,
    {
        if bits & !ALL_BITS == 0 {
            assert(bits & !7u32 == 0 ==> bits <= 7) by (bit_vector);
            Some(ValuePropertyFlags { bits })
        } else {
            None
        }
    }

    /// The flags of `bits`, unknown bits dropped.
    pub fn from_bits_truncate(bits: u32) -> (r: Self)
        ensures
            r@ == known_bits(bits),
            r@ == bits & ALL_BITS,
    {
        assert(bits & 7u32 <= 7) by (bit_vector);
        ValuePropertyFlags { bits: bits & ALL_BITS }
    }

    /// Whether no flag is set.
    pub fn is_empty(&self) -> (r: bool)
        ensures
            r == (self@ == 0),
    {
        self.bits == 0
    }

    /// Whether every known flag is set.
    pub fn is_all(&self) -> (r: bool)
        ensures
            r == (self@ == ALL_BITS),
    {
        self.bits == ALL_BITS
    }

    /// Whether every flag of `other` is set in `self`.
    pub fn contains(&self, other: Self) -> (r: bool)
        ensures
            r == (self@ & other@ == other@),
    {
        self.bits & other.bits == other.bits
    }

    /// Whether `self` and `other` have a flag in common.
    pub fn intersects(&self, other: Self) -> (r: bool)
        ensures
            r == (self@ & other@ != 0),
    {
        self.bits & other.bits != 0
    }

    /// The flags set in `self` or in `other`.
    pub fn union(self, other: Self) -> (r: Self)
        ensures
            r@ == self@ | other@,
    {
        proof {
            use_type_invariant(&self);
            use_type_invariant(&other);
        }
        let a = self.bits;
        let b = other.bits;
        assert(a <= 7 && b <= 7 ==> a | b <= 7) by (bit_vector);
        ValuePropertyFlags { bits: a | b }
    }

    /// The flags set in both `self` and `other`.
    pub fn intersection(self, other: Self) -> (r: Self)
        ensures
            r@ == self@ & other@,
    {
        proof {
            use_type_invariant(&self);
        }
        let a = self.bits;
        let b = other.bits;
        assert(a <= 7 ==> a & b <= 7) by (bit_vector);
        ValuePropertyFlags { bits: a & b }
    }

    /// The flags set in `self` and not in `other`.
    pub fn difference(self, other: Self) -> (r: Self)
        ensures
            r@ == self@ & !other@,
    {
        proof {
            use_type_invariant(&self);
        }
        let a = self.bits;
        let b = other.bits;
        assert(a <= 7 ==> a & !b <= 7) by (bit_vector);
        ValuePropertyFlags { bits: a & !b }
    }

    /// The flags set in exactly one of `self` and `other`.
    pub fn symmetric_difference(self, other: Self) -> (r: Self)
        ensures
            r@ == self@ ^ other@,
    {
        proof {
            use_type_invariant(&self);
            use_type_invariant(&other);
        }
        let a = self.bits;
        let b = other.bits;
        assert(a <= 7 && b <= 7 ==> a ^ b <= 7) by (bit_vector);
        ValuePropertyFlags { bits: a ^ b }
    }

    /// The known flags that are not set in `self`.
    pub fn complement(self) -> (r: Self)
        ensures
            r@ == known_bits(!self@),
            r@ == !self@ & ALL_BITS,
    {
        Self::from_bits_truncate(!self.bits)
    }

    /// Flips the flags of `other`.
    pub fn toggle(&mut self, other: Self)
        ensures
            final(self)@ == old(self)@ ^ other@,
    {
        *self = self.symmetric_difference(other);
    }

    /// Sets the flags of `other` when `value` holds, clears them otherwise.
    pub fn set(&mut self, other: Self, value: bool)
        ensures
            final(self)@ == (if value {
                old(self)@ | other@
            } else {
                old(self)@ & !other@
            }),
    {
        if value {
            self.insert(other);
        } else {
            self.remove(other);
        }
    }

    /// Sets the flags of `other`.
    pub fn insert(&mut self, other: Self)
        ensures
            final(self)@ == old(self)@ | other@,
    {
        *self = self.union(other);
    }

    /// Clears the flags of `other`.
    pub fn remove(&mut self, other: Self)
        ensures
            final(self)@ == old(self)@ & !other@,
    {
        *self = self.difference(other);
    }

    /// The flags written out as their names joined by `" | "`, or `(empty)`.
    pub fn debug_string(&self) -> (r: String)
        ensures
            r@ == debug_text(self@),
    {
        let mut text = String::new();
        let ghost mut names: Seq<Seq<char>> = Seq::empty();
        let mut first = true;
        if self.bits & CONFIGURABLE_BIT != 0 {
            append_name(&mut text, Ghost(names), first, "CONFIGURABLE");
            proof {
                names = names.push("CONFIGURABLE"@);
            }
            first = false;
        }
        if self.bits & ENUMERABLE_BIT != 0 {
            append_name(&mut text, Ghost(names), first, "ENUMERABLE");
            proof {
                names = names.push("ENUMERABLE"@);
            }
            first = false;
        }
        if self.bits & WRITABLE_BIT != 0 {
            append_name(&mut text, Ghost(names), first, "WRITABLE");
            proof {
                names = names.push("WRITABLE"@);
            }
            first = false;
        }
        assert(names =~= flag_names(self@));
        if first {
            text.append("(empty)");
            assert(text@ =~= "(empty)"@);
        }
        text
    }

    /// The value handed to the engine for these flags.
    pub fn to_glib(&self) -> (r: u32)
        ensures
            r == self@,
    {
        self.bits()
    }

    /// The flags of a value read from the engine; unknown bits are dropped.
    pub fn from_glib(value: u32) -> (r: Self)
        ensures
            r@ == known_bits(value),
            r@ == value & ALL_BITS,
    {
        Self::from_bits_truncate(value)
    }
}

impl core::ops::BitOr for ValuePropertyFlags {
    type Output = ValuePropertyFlags;

    /// `a | b` is `a.union(b)`.
    fn bitor(self, rhs: ValuePropertyFlags) -> (r: ValuePropertyFlags)
        ensures
            r@ == self@ | rhs@,
    {
        self.union(rhs)
    }
}

impl BitOrSpecImpl for ValuePropertyFlags {
    open spec fn obeys_bitor_spec() -> bool {
        true
    }

    open spec fn bitor_req(self, rhs: ValuePropertyFlags) -> bool {
        true
    }

    closed spec fn bitor_spec(self, rhs: ValuePropertyFlags) -> ValuePropertyFlags {
        ValuePropertyFlags { bits: self.bits | rhs.bits }
    }
}

impl core::ops::BitAnd for ValuePropertyFlags {
    type Output = ValuePropertyFlags;

    /// `a & b` is `a.intersection(b)`.
    fn bitand(self, rhs: ValuePropertyFlags) -> (r: ValuePropertyFlags)
        ensures
            r@ == self@ & rhs@,
    {
        self.intersection(rhs)
    }
}

impl BitAndSpecImpl for ValuePropertyFlags {
    open spec fn obeys_bitand_spec() -> bool {
        true
    }

    open spec fn bitand_req(self, rhs: ValuePropertyFlags) -> bool {
        true
    }

    closed spec fn bitand_spec(self, rhs: ValuePropertyFlags) -> ValuePropertyFlags {
        ValuePropertyFlags { bits: self.bits & rhs.bits }
    }
}

impl core::ops::BitXor for ValuePropertyFlags {
    type Output = ValuePropertyFlags;

    /// `a ^ b` is `a.symmetric_difference(b)`.
    fn bitxor(self, rhs: ValuePropertyFlags) -> (r: ValuePropertyFlags)
        ensures
            r@ == self@ ^ rhs@,
    {
        self.symmetric_difference(rhs)
    }
}

impl BitXorSpecImpl for ValuePropertyFlags {
    open spec fn obeys_bitxor_spec() -> bool {
        true
    }

    open spec fn bitxor_req(self, rhs: ValuePropertyFlags) -> bool {
        true
    }

    closed spec fn bitxor_spec(self, rhs: ValuePropertyFlags) -> ValuePropertyFlags {
        ValuePropertyFlags { bits: self.bits ^ rhs.bits }
    }
}

impl core::ops::Sub for ValuePropertyFlags {
    type Output = ValuePropertyFlags;

    /// `a - b` is `a.difference(b)`.
    fn sub(self, rhs: ValuePropertyFlags) -> (r: ValuePropertyFlags)
        ensures
            r@ == self@ & !rhs@,
    {
        self.difference(rhs)
    }
}

impl SubSpecImpl for ValuePropertyFlags {
    open spec fn obeys_sub_spec() -> bool {
        true
    }

    open spec fn sub_req(self, rhs: ValuePropertyFlags) -> bool {
        true
    }

    closed spec fn sub_spec(self, rhs: ValuePropertyFlags) -> ValuePropertyFlags {
        ValuePropertyFlags { bits: self.bits & !rhs.bits }
    }
}

impl core::ops::Not for ValuePropertyFlags {
    type Output = ValuePropertyFlags;

    /// `!a` is `a.complement()`.
    fn not(self) -> (r: ValuePropertyFlags)
        ensures
            r@ == known_bits(!self@),
            r@ == !self@ & ALL_BITS,
    {
        self.complement()
    }
}

impl NotSpecImpl for ValuePropertyFlags {
    open spec fn obeys_not_spec() -> bool {
        true
    }

    open spec fn not_req(self) -> bool {
        true
    }

    closed spec fn not_spec(self) -> ValuePropertyFlags {
        ValuePropertyFlags { bits: !self.bits & ALL_BITS }
    }
}

impl core::ops::BitOrAssign for ValuePropertyFlags {
    /// `a |= b` is `a.insert(b)`.
    fn bitor_assign(&mut self, rhs: ValuePropertyFlags)
        ensures
            final(self)@ == old(self)@ | rhs@,
    {
        self.insert(rhs);
    }
}

impl core::ops::BitAndAssign for ValuePropertyFlags {
    /// `a &= b` keeps the flags of `a` that are also in `b`.
    fn bitand_assign(&mut self, rhs: ValuePropertyFlags)
        ensures
            final(self)@ == old(self)@ & rhs@,
    {
        *self = self.intersection(rhs);
    }
}

impl core::ops::BitXorAssign for ValuePropertyFlags {
    /// `a ^= b` is `a.toggle(b)`.
    fn bitxor_assign(&mut self, rhs: ValuePropertyFlags)
        ensures
            final(self)@ == old(self)@ ^ rhs@,
    {
        self.toggle(rhs);
    }
}

impl core::ops::SubAssign for ValuePropertyFlags {
    /// `a -= b` is `a.remove(b)`.
    fn sub_assign(&mut self, rhs: ValuePropertyFlags)
        ensures
            final(self)@ == old(self)@ & !rhs@,
    {
        self.remove(rhs);
    }
}

/// Two sets of flags are equal exactly when their masks are.
pub proof fn law_view_determines_flags(a: ValuePropertyFlags, b: ValuePropertyFlags)
    ensures
        (a == b) <==> (a@ == b@),
{
}

/// Truncating raw bits keeps each known flag exactly when the raw bits hold
/// it, whatever unknown bits they hold besides, and leaves no unknown bit.
pub proof fn law_truncate_keeps_known_flags(bits: u32)
    ensures
        known_bits(bits) & !ALL_BITS == 0,
        (known_bits(bits) & CONFIGURABLE_BIT != 0) <==> (bits & CONFIGURABLE_BIT != 0),
        (known_bits(bits) & ENUMERABLE_BIT != 0) <==> (bits & ENUMERABLE_BIT != 0),
        (known_bits(bits) & WRITABLE_BIT != 0) <==> (bits & WRITABLE_BIT != 0),
{
    assert(((bits & 7u32) & !7u32 == 0) && (((bits & 7u32) & 1u32 != 0) == (bits & 1u32 != 0)) && ((
    (bits & 7u32) & 2u32 != 0) == (bits & 2u32 != 0)) && (((bits & 7u32) & 4u32 != 0) == (bits & 4u32
        != 0))) by (bit_vector);
}

/// `join_names` on one, two and three names.
proof fn lemma_join_names_small(names: Seq<Seq<char>>)
    ensures
        names.len() == 1 ==> join_names(names) == names[0],
        names.len() == 2 ==> join_names(names) == names[0] + " | "@ + names[1],
        names.len() == 3 ==> join_names(names) == names[0] + " | "@ + names[1] + " | "@
            + names[2],
{
    if names.len() == 2 {
        let first = names.drop_last();
        assert(first.len() == 1 && first[0] == names[0]);
        assert(join_names(first) == names[0]);
        assert(join_names(names) == join_names(first) + " | "@ + names.last());
    }
    if names.len() == 3 {
        let two = names.drop_last();
        let one = two.drop_last();
        assert(one.len() == 1 && one[0] == names[0]);
        assert(two[1] == names[1]);
        assert(join_names(one) == names[0]);
        assert(join_names(two) == join_names(one) + " | "@ + two.last());
        assert(join_names(names) == join_names(two) + " | "@ + names.last());
    }
}

/// The written form lists the name of each flag exactly when the flag is set,
/// and is `(empty)` exactly when no known flag is set.
pub proof fn law_written_form_names_the_set_flags(bits: u32)
    ensures
        flag_names(bits).contains("CONFIGURABLE"@) <==> (bits & CONFIGURABLE_BIT != 0),
        flag_names(bits).contains("ENUMERABLE"@) <==> (bits & ENUMERABLE_BIT != 0),
        flag_names(bits).contains("WRITABLE"@) <==> (bits & WRITABLE_BIT != 0),
        (debug_text(bits) == "(empty)"@) <==> (bits & ALL_BITS == 0),
{
    reveal_strlit("CONFIGURABLE");
    reveal_strlit("ENUMERABLE");
    reveal_strlit("WRITABLE");
    reveal_strlit("(empty)");
    reveal_strlit(" | ");
    let c = "CONFIGURABLE"@;
    let e = "ENUMERABLE"@;
    let w = "WRITABLE"@;
    let names = flag_names(bits);
    assert(((bits & 7u32 == 0) == (bits & 1u32 == 0 && bits & 2u32 == 0 && bits & 4u32 == 0)))
        by (bit_vector);
    assert(c.len() == 12 && e.len() == 10 && w.len() == 8);
    assert(forall|i: int| 0 <= i < names.len() ==> names[i] == c || names[i] == e || names[i] == w);
    if bits & CONFIGURABLE_BIT != 0 {
        assert(names[0] == c);
    }
    if bits & ENUMERABLE_BIT != 0 {
        if bits & CONFIGURABLE_BIT != 0 {
            assert(names[1] == e);
        } else {
            assert(names[0] == e);
        }
    }
    if bits & WRITABLE_BIT != 0 {
        assert(names[names.len() - 1] == w);
    }
    lemma_join_names_small(names);
    if names.len() > 0 {
        assert(names.len() <= 3);
        assert(debug_text(bits) != "(empty)"@) by {
            if names.len() == 1 {
                assert(names[0].len() != 7);
            } else if names.len() == 2 {
                assert(debug_text(bits).len() > 7);
            } else {
                assert(debug_text(bits).len() > 7);
            }
        }
    }
}

/// The written form of every valid set of flags, spelled out.
pub proof fn law_written_form_of_each_set(bits: u32)
    requires
        bits <= ALL_BITS,
    ensures
        debug_text(bits) == (if bits == 0 {
            "(empty)"@
        } else if bits == 1 {
            "CONFIGURABLE"@
        } else if bits == 2 {
            "ENUMERABLE"@
        } else if bits == 3 {
            "CONFIGURABLE | ENUMERABLE"@
        } else if bits == 4 {
            "WRITABLE"@
        } else if bits == 5 {
            "CONFIGURABLE | WRITABLE"@
        } else if bits == 6 {
            "ENUMERABLE | WRITABLE"@
        } else {
            "CONFIGURABLE | ENUMERABLE | WRITABLE"@
        }),
{
    reveal_strlit("CONFIGURABLE");
    reveal_strlit("ENUMERABLE");
    reveal_strlit("WRITABLE");
    reveal_strlit("(empty)");
    reveal_strlit(" | ");
    reveal_strlit("CONFIGURABLE | ENUMERABLE");
    reveal_strlit("CONFIGURABLE | WRITABLE");
    reveal_strlit("ENUMERABLE | WRITABLE");
    reveal_strlit("CONFIGURABLE | ENUMERABLE | WRITABLE");
    let c = "CONFIGURABLE"@;
    let e = "ENUMERABLE"@;
    let w = "WRITABLE"@;
    let sep = " | "@;
    assert(bits <= 7u32 ==> ((bits & 1u32 != 0) == (bits % 2 == 1)) && ((bits & 2u32 != 0) == (bits
        == 2 || bits == 3 || bits == 6 || bits == 7)) && ((bits & 4u32 != 0) == (bits >= 4)))
        by (bit_vector);
    let names = flag_names(bits);
    lemma_join_names_small(names);
    if bits == 1 {
        assert(names =~= seq![c]);
    } else if bits == 2 {
        assert(names =~= seq![e]);
    } else if bits == 3 {
        assert(names =~= seq![c, e]);
        assert(c + sep + e =~= "CONFIGURABLE | ENUMERABLE"@);
    } else if bits == 4 {
        assert(names =~= seq![w]);
    } else if bits == 5 {
        assert(names =~= seq![c, w]);
        assert(c + sep + w =~= "CONFIGURABLE | WRITABLE"@);
    } else if bits == 6 {
        assert(names =~= seq![e, w]);
        assert(e + sep + w =~= "ENUMERABLE | WRITABLE"@);
    } else if bits == 7 {
        assert(names =~= seq![c, e, w]);
        assert(c + sep + e + sep + w =~= "CONFIGURABLE | ENUMERABLE | WRITABLE"@);
    } else {
        assert(names =~= Seq::<Seq<char>>::empty());
    }
}

/// Handing flags to the engine and reading them back gives the same flags:
/// `from_glib(to_glib(f)) == f` for every valid set of flags.
pub proof fn law_glib_round_trip(flags: u32)
    requires
        flags <= ALL_BITS,
    ensures
        known_bits(flags) == flags,
{
    assert(flags <= 7 ==> flags & 7 == flags) by (bit_vector);
}

/// Truncating keeps only known bits, and truncating twice is truncating once.
pub proof fn law_truncate_idempotent(bits: u32)
    ensures
        known_bits(bits) <= ALL_BITS,
        known_bits(known_bits(bits)) == known_bits(bits),
{
    assert(bits & 7 <= 7 && (bits & 7) & 7 == bits & 7) by (bit_vector);
}

/// `from_bits` accepts exactly the masks that `from_bits_truncate` leaves unchanged.
pub proof fn law_from_bits_exact(bits: u32)
    ensures
        (bits & !ALL_BITS == 0) <==> known_bits(bits) == bits,
{
    assert((bits & !7u32 == 0) <==> (bits & 7 == bits)) by (bit_vector);
}

/// The union of two sets of flags contains both, and after `insert` the
/// inserted flags are contained.
pub proof fn law_union_contains_both(a: u32, b: u32)
    ensures
        (a | b) & a == a,
        (a | b) & b == b,
{
    assert((a | b) & a == a && (a | b) & b == b) by (bit_vector);
}

/// After `remove`, none of the removed flags is left, and the others are kept.
pub proof fn law_remove_clears(a: u32, b: u32)
    ensures
        (a & !b) & b == 0,
        (a & !b) | (a & b) == a,
{
    assert((a & !b) & b == 0 && (a & !b) | (a & b) == a) by (bit_vector);
}

} // verus!
