//! Permission bits checked before a tool call.
//!
//! `ADMIN` has no bit of its own: it is the union `READ | WRITE | MODIFY`.
//! A new permission bit must be added to `ADMIN` explicitly, so that the
//! permission surface never grows implicitly.
//!
//! Each value is one subset of the three defined bits (`READ` = `1 << 0`,
//! `WRITE` = `1 << 1`, `MODIFY` = `1 << 2`); its view is the `u32` holding
//! exactly those bits.

use vstd::prelude::*;

verus! {

/// A set of permission bits, one variant per subset of the defined bits.
#[allow(non_camel_case_types)]
#[derive(Debug, Clone, Copy, PartialEq, Eq, Hash, Structural)]
pub enum Permissions {
    EMPTY,
    READ,
    WRITE,
    MODIFY,
    READ_WRITE,
    READ_MODIFY,
    WRITE_MODIFY,
    ADMIN,
}

/// The bits of every defined flag: `READ | WRITE | MODIFY`.
pub open spec fn all_bits() -> u32 {
    7
}

impl View for Permissions {
    type V = u32;

    open spec fn view(&self) -> u32 {
        match self {
            Permissions::EMPTY => 0,
            Permissions::READ => 1,
            Permissions::WRITE => 2,
            Permissions::MODIFY => 4,
            Permissions::READ_WRITE => 3,
            Permissions::READ_MODIFY => 5,
            Permissions::WRITE_MODIFY => 6,
            Permissions::ADMIN => 7,
        }
    }
}

/// The value whose view is the defined bits of `bits`.
pub open spec fn permissions_of(bits: u32) -> Permissions {
    let b = bits & all_bits();
    if b == 0 {
        Permissions::EMPTY
    } else if b == 1 {
        Permissions::READ
    } else if b == 2 {
        Permissions::WRITE
    } else if b == 3 {
        Permissions::READ_WRITE
    } else if b == 4 {
        Permissions::MODIFY
    } else if b == 5 {
        Permissions::READ_MODIFY
    } else if b == 6 {
        Permissions::WRITE_MODIFY
    } else {
        Permissions::ADMIN
    }
}

/// The single flags set in `bits`, in the order `READ`, `WRITE`, `MODIFY`.
pub open spec fn flags_in(bits: u32) -> Seq<Permissions> {
    (if bits & 1 == 1 { seq![Permissions::READ] } else { seq![] }) + (if bits & 2 == 2 {
        seq![Permissions::WRITE]
    } else {
        seq![]
    }) + (if bits & 4 == 4 { seq![Permissions::MODIFY] } else { seq![] })
}

/// The `Debug` text of a value: the names of its flags joined by ` | `, or
/// the hex number `0x0` where no flag is set, inside `Permissions(..)`.
pub open spec fn debug_text(p: Permissions) -> Seq<char> {
    match p {
        Permissions::EMPTY => "Permissions(0x0)"@,
        Permissions::READ => "Permissions(READ)"@,
        Permissions::WRITE => "Permissions(WRITE)"@,
        Permissions::MODIFY => "Permissions(MODIFY)"@,
        Permissions::READ_WRITE => "Permissions(READ | WRITE)"@,
        Permissions::READ_MODIFY => "Permissions(READ | MODIFY)"@,
        Permissions::WRITE_MODIFY => "Permissions(WRITE | MODIFY)"@,
        Permissions::ADMIN => "Permissions(READ | WRITE | MODIFY)"@,
    }
}

/// Whether every bit of `b` is set in `a`.
pub open spec fn bits_contain(a: u32, b: u32) -> bool {
    a & b == b
}

impl Permissions {
    /// The value with no bit set.
    pub fn empty() -> (p: Permissions)
        ensures
            p@ == 0,
    {
        Permissions::EMPTY
    }

    /// The value with every defined bit set.
    pub fn all() -> (p: Permissions)
        ensures
            p@ == all_bits(),
    {
        Permissions::ADMIN
    }

    /// The underlying bits.
    pub fn bits(&self) -> (b: u32)
        ensures
            b == self@,
    {
        match self {
            Permissions::EMPTY => 0,
            Permissions::READ => 1,
            Permissions::WRITE => 2,
            Permissions::MODIFY => 4,
            Permissions::READ_WRITE => 3,
            Permissions::READ_MODIFY => 5,
            Permissions::WRITE_MODIFY => 6,
            Permissions::ADMIN => 7,
        }
    }

    /// The value holding the defined bits of `bits`; other bits are dropped.
    pub fn from_bits_truncate(bits: u32) -> (p: Permissions)
        ensures
            p@ == bits & all_bits(),
            p == permissions_of(bits),
    {
        let b: u32 = bits & 7;
        assert(bits & 7 <= 7) by (bit_vector);
        if b == 0 {
            Permissions::EMPTY
        } else if b == 1 {
            Permissions::READ
        } else if b == 2 {
            Permissions::WRITE
        } else if b == 3 {
            Permissions::READ_WRITE
        } else if b == 4 {
            Permissions::MODIFY
        } else if b == 5 {
            Permissions::READ_MODIFY
        } else if b == 6 {
            Permissions::WRITE_MODIFY
        } else {
            Permissions::ADMIN
        }
    }

    /// Whether every bit of `other` is also set in `self`.
    pub fn contains(&self, other: Permissions) -> (r: bool)
        ensures
            r == bits_contain(self@, other@),
    {
        self.bits() & other.bits() == other.bits()
    }

    /// The bits set in either value.
    pub fn union(self, other: Permissions) -> (p: Permissions)
        ensures
            p@ == self@ | other@,
            p == permissions_of(self@ | other@),
    {
        let a = self.bits();
        let b = other.bits();
        assert(a <= 7 && b <= 7 ==> (a | b) & 7 == a | b) by (bit_vector);
        Permissions::from_bits_truncate(a | b)
    }

    /// The value of `bits` where it holds only defined bits, else `None`.
    pub fn from_bits(bits: u32) -> (p: Option<Permissions>)
        ensures
            p is Some <==> bits & all_bits() == bits,
            p is Some ==> p->0@ == bits,
    {
        let t = Permissions::from_bits_truncate(bits);
        if t.bits() == bits {
            Some(t)
        } else {
            None
        }
    }

    /// Whether no bit is set.
    pub fn is_empty(&self) -> (r: bool)
        ensures
            r == (self@ == 0),
    {
        self.bits() == 0
    }

    /// Whether every defined bit is set.
    pub fn is_all(&self) -> (r: bool)
        ensures
            r == (all_bits() | self@ == self@),
    {
        7 | self.bits() == self.bits()
    }

    /// Whether some bit is set in both values.
    pub fn intersects(&self, other: Permissions) -> (r: bool)
        ensures
            r == (self@ & other@ != 0),
    {
        self.bits() & other.bits() != 0
    }

    /// The bits set in both values.
    pub fn intersection(self, other: Permissions) -> (p: Permissions)
        ensures
            p@ == self@ & other@,
            p == permissions_of(self@ & other@),
    {
        let a = self.bits();
        let b = other.bits();
        assert(a <= 7 && b <= 7 ==> (a & b) & 7 == a & b) by (bit_vector);
        Permissions::from_bits_truncate(a & b)
    }

    /// The bits set in `self` and not in `other`.
    pub fn difference(self, other: Permissions) -> (p: Permissions)
        ensures
            p@ == self@ & !other@,
            p == permissions_of(self@ & !other@),
    {
        let a = self.bits();
        let b = other.bits();
        assert(a <= 7 && b <= 7 ==> (a & !b) & 7 == a & !b) by (bit_vector);
        Permissions::from_bits_truncate(a & !b)
    }

    /// The bits set in exactly one of the two values.
    pub fn symmetric_difference(self, other: Permissions) -> (p: Permissions)
        ensures
            p@ == self@ ^ other@,
            p == permissions_of(self@ ^ other@),
    {
        let a = self.bits();
        let b = other.bits();
        assert(a <= 7 && b <= 7 ==> (a ^ b) & 7 == a ^ b) by (bit_vector);
        Permissions::from_bits_truncate(a ^ b)
    }

    /// The defined bits not set in `self`.
    pub fn complement(self) -> (p: Permissions)
        ensures
            p@ == !self@ & all_bits(),
            p == permissions_of(!self@),
    {
        Permissions::from_bits_truncate(!self.bits())
    }

    /// Sets the bits of `other` in `self`.
    pub fn insert(&mut self, other: Permissions)
        ensures
            final(self)@ == old(self)@ | other@,
    {
        *self = self.union(other);
    }

    /// Clears the bits of `other` in `self`.
    pub fn remove(&mut self, other: Permissions)
        ensures
            final(self)@ == old(self)@ & !other@,
    {
        *self = self.difference(other);
    }

    /// Flips the bits of `other` in `self`.
    pub fn toggle(&mut self, other: Permissions)
        ensures
            final(self)@ == old(self)@ ^ other@,
    {
        *self = self.symmetric_difference(other);
    }

    /// Sets the bits of `other` in `self` where `value` holds, else clears them.
    pub fn set(&mut self, other: Permissions, value: bool)
        ensures
            final(self)@ == if value {
                old(self)@ | other@
            } else {
                old(self)@ & !other@
            },
    {
        if value {
            self.insert(other);
        } else {
            self.remove(other);
        }
    }

    /// The single flags that `self` holds, in the order `READ`, `WRITE`, `MODIFY`.
    pub fn iter(&self) -> (v: Vec<Permissions>)
        ensures
            v@ == flags_in(self@),
    {
        let b = self.bits();
        let mut v: Vec<Permissions> = Vec::new();
        if b & 1 == 1 {
            v.push(Permissions::READ);
        }
        if b & 2 == 2 {
            v.push(Permissions::WRITE);
        }
        if b & 4 == 4 {
            v.push(Permissions::MODIFY);
        }
        assert(v@ =~= flags_in(b));
        v
    }

    /// The text that `Debug` shows of a value, as the bitflags form writes it:
    /// `Permissions(READ | WRITE)`, or `Permissions(0x0)` where no flag is set.
    pub fn debug_string(&self) -> (s: String)
        ensures
            s@ == debug_text(*self),
    {
        match self {
            Permissions::EMPTY => "Permissions(0x0)".to_string(),
            Permissions::READ => "Permissions(READ)".to_string(),
            Permissions::WRITE => "Permissions(WRITE)".to_string(),
            Permissions::MODIFY => "Permissions(MODIFY)".to_string(),
            Permissions::READ_WRITE => "Permissions(READ | WRITE)".to_string(),
            Permissions::READ_MODIFY => "Permissions(READ | MODIFY)".to_string(),
            Permissions::WRITE_MODIFY => "Permissions(WRITE | MODIFY)".to_string(),
            Permissions::ADMIN => "Permissions(READ | WRITE | MODIFY)".to_string(),
        }
    }
}

impl core::ops::BitOr for Permissions {
    type Output = Permissions;

    /// Same as `union`.
    fn bitor(self, other: Permissions) -> (p: Permissions)
        ensures
            p@ == self@ | other@,
    {
        self.union(other)
    }
}

impl vstd::std_specs::ops::BitOrSpecImpl for Permissions {
    open spec fn obeys_bitor_spec() -> bool {
        true
    }

    open spec fn bitor_req(self, other: Permissions) -> bool {
        true
    }

    open spec fn bitor_spec(self, other: Permissions) -> Permissions {
        permissions_of(self@ | other@)
    }
}

impl core::ops::BitAnd for Permissions {
    type Output = Permissions;

    /// Same as `intersection`.
    fn bitand(self, other: Permissions) -> (p: Permissions)
        ensures
            p@ == self@ & other@,
    {
        self.intersection(other)
    }
}

impl vstd::std_specs::ops::BitAndSpecImpl for Permissions {
    open spec fn obeys_bitand_spec() -> bool {
        true
    }

    open spec fn bitand_req(self, other: Permissions) -> bool {
        true
    }

    open spec fn bitand_spec(self, other: Permissions) -> Permissions {
        permissions_of(self@ & other@)
    }
}

impl core::ops::Sub for Permissions {
    type Output = Permissions;

    /// Same as `difference`.
    fn sub(self, other: Permissions) -> (p: Permissions)
        ensures
            p@ == self@ & !other@,
    {
        self.difference(other)
    }
}

impl vstd::std_specs::ops::SubSpecImpl for Permissions {
    open spec fn obeys_sub_spec() -> bool {
        true
    }

    open spec fn sub_req(self, other: Permissions) -> bool {
        true
    }

    open spec fn sub_spec(self, other: Permissions) -> Permissions {
        permissions_of(self@ & !other@)
    }
}

impl core::ops::BitXor for Permissions {
    type Output = Permissions;

    /// Same as `symmetric_difference`.
    fn bitxor(self, other: Permissions) -> (p: Permissions)
        ensures
            p@ == self@ ^ other@,
    {
        self.symmetric_difference(other)
    }
}

impl vstd::std_specs::ops::BitXorSpecImpl for Permissions {
    open spec fn obeys_bitxor_spec() -> bool {
        true
    }

    open spec fn bitxor_req(self, other: Permissions) -> bool {
        true
    }

    open spec fn bitxor_spec(self, other: Permissions) -> Permissions {
        permissions_of(self@ ^ other@)
    }
}

impl core::ops::Not for Permissions {
    type Output = Permissions;

    /// Same as `complement`.
    fn not(self) -> (p: Permissions)
        ensures
            p@ == !self@ & all_bits(),
    {
        self.complement()
    }
}

impl vstd::std_specs::ops::NotSpecImpl for Permissions {
    open spec fn obeys_not_spec() -> bool {
        true
    }

    open spec fn not_req(self) -> bool {
        true
    }

    open spec fn not_spec(self) -> Permissions {
        permissions_of(!self@)
    }
}

/// Every value holds only defined bits, and is the value of its own bits.
pub proof fn lemma_view_determines_value(p: Permissions)
    ensures
        p@ <= all_bits(),
        p@ & all_bits() == p@,
        permissions_of(p@) == p,
{
    let b = p@;
    assert(b <= 7 ==> b & 7 == b) by (bit_vector);
}

/// Two values with the same bits are the same value.
pub proof fn lemma_view_injective(p: Permissions, q: Permissions)
    ensures
        p@ == q@ <==> p == q,
{
    lemma_view_determines_value(p);
    lemma_view_determines_value(q);
}

/// `ADMIN` is exactly `READ | WRITE | MODIFY`: it holds each of the three
/// flags and every defined bit, and no bit of its own.
pub proof fn lemma_admin_is_read_write_modify()
    ensures
        Permissions::ADMIN == permissions_of(
            Permissions::READ@ | Permissions::WRITE@ | Permissions::MODIFY@,
        ),
        Permissions::ADMIN@ == Permissions::READ@ | Permissions::WRITE@ | Permissions::MODIFY@,
        Permissions::ADMIN@ == all_bits(),
        bits_contain(Permissions::ADMIN@, Permissions::READ@),
        bits_contain(Permissions::ADMIN@, Permissions::WRITE@),
        bits_contain(Permissions::ADMIN@, Permissions::MODIFY@),
{
    assert(1u32 | 2u32 | 4u32 == 7u32) by (bit_vector);
    assert(7u32 & 7u32 == 7u32) by (bit_vector);
    assert(7u32 & 1u32 == 1u32) by (bit_vector);
    assert(7u32 & 2u32 == 2u32) by (bit_vector);
    assert(7u32 & 4u32 == 4u32) by (bit_vector);
}

/// `ADMIN` holds every value: no permission lies beyond it.
pub proof fn lemma_admin_contains_every_value(p: Permissions)
    ensures
        bits_contain(Permissions::ADMIN@, p@),
{
    lemma_view_determines_value(p);
    let b = p@;
    assert(b <= 7 ==> 7u32 & b == b) by (bit_vector);
}

/// The empty value grants nothing: it holds a value only when that value is
/// itself empty, so none of `READ`, `WRITE`, `MODIFY`.
pub proof fn lemma_empty_grants_nothing(p: Permissions)
    ensures
        bits_contain(0, p@) <==> p == Permissions::EMPTY,
        !bits_contain(0, Permissions::READ@),
        !bits_contain(0, Permissions::WRITE@),
        !bits_contain(0, Permissions::MODIFY@),
{
    let b = p@;
    assert(0u32 & b == b <==> b == 0) by (bit_vector);
    assert(0u32 & 1u32 != 1u32 && 0u32 & 2u32 != 2u32 && 0u32 & 4u32 != 4u32) by (bit_vector);
    lemma_view_injective(p, Permissions::EMPTY);
}

/// `contains` orders the values: it is reflexive, antisymmetric and transitive.
pub proof fn lemma_contains_is_partial_order(p: Permissions, q: Permissions, r: Permissions)
    ensures
        bits_contain(p@, p@),
        bits_contain(p@, q@) && bits_contain(q@, p@) ==> p == q,
        bits_contain(p@, q@) && bits_contain(q@, r@) ==> bits_contain(p@, r@),
{
    let (a, b, c) = (p@, q@, r@);
    assert(a & a == a) by (bit_vector);
    assert(a & b == b && b & a == a ==> a == b) by (bit_vector);
    assert(a & b == b && b & c == c ==> a & c == c) by (bit_vector);
    lemma_view_injective(p, q);
}

/// The union of two values is the least value that holds both.
pub proof fn lemma_union_is_least_upper_bound(p: Permissions, q: Permissions, r: Permissions)
    ensures
        bits_contain(p@ | q@, p@),
        bits_contain(p@ | q@, q@),
        bits_contain(r@, p@) && bits_contain(r@, q@) ==> bits_contain(r@, p@ | q@),
{
    let (a, b, c) = (p@, q@, r@);
    assert((a | b) & a == a) by (bit_vector);
    assert((a | b) & b == b) by (bit_vector);
    assert(c & a == a && c & b == b ==> c & (a | b) == a | b) by (bit_vector);
}

/// Taking the bits of a value and truncating them back gives the same value.
pub proof fn lemma_bits_round_trip(p: Permissions)
    ensures
        permissions_of(p@) == p,
        permissions_of(p@)@ == p@,
{
    lemma_view_determines_value(p);
}

/// Whether `p` is one of the single flags `READ`, `WRITE`, `MODIFY`.
pub open spec fn is_single_flag(p: Permissions) -> bool {
    p == Permissions::READ || p == Permissions::WRITE || p == Permissions::MODIFY
}

/// The flags that `iter` yields are exactly the single flags that the value
/// contains, each once, in increasing order of their bit.
pub proof fn lemma_iter_yields_contained_flags(p: Permissions)
    ensures
        forall|f: Permissions|
            flags_in(p@).contains(f) <==> is_single_flag(f) && bits_contain(p@, f@),
        forall|i: int, j: int|
            0 <= i < j < flags_in(p@).len() ==> flags_in(p@)[i]@ < flags_in(p@)[j]@,
{
    let b = p@;
    assert(b & 1 == 1 <==> b & 1u32 == 1u32) by (bit_vector);
    let s = flags_in(b);
    assert forall|f: Permissions|
        s.contains(f) <==> is_single_flag(f) && bits_contain(b, f@) by {
        if s.contains(f) {
            let k = choose|k: int| 0 <= k < s.len() && s[k] == f;
        }
        if is_single_flag(f) && bits_contain(b, f@) {
            if f == Permissions::READ {
                assert(s[0] == f);
            } else if f == Permissions::WRITE {
                let k: int = if b & 1 == 1 { 1 } else { 0 };
                assert(s[k] == f);
            } else {
                let k: int = (if b & 1 == 1 { 1int } else { 0int }) + (if b & 2 == 2 { 1int } else { 0int });
                assert(s[k] == f);
            }
        }
    }
}

/// The name of a single flag.
pub open spec fn flag_name(f: Permissions) -> Seq<char> {
    if f == Permissions::READ {
        "READ"@
    } else if f == Permissions::WRITE {
        "WRITE"@
    } else {
        "MODIFY"@
    }
}

/// The names of `flags`, joined by ` | `.
pub open spec fn joined_names(flags: Seq<Permissions>) -> Seq<char>
    decreases flags.len(),
{
    if flags.len() == 0 {
        Seq::empty()
    } else if flags.len() == 1 {
        flag_name(flags[0])
    } else {
        joined_names(flags.drop_last()) + " | "@ + flag_name(flags.last())
    }
}

/// The `Debug` text of a value names exactly the flags that it contains, in
/// the order that `iter` yields them, joined by ` | ` inside
/// `Permissions(..)`; a value with no flag shows as `Permissions(0x0)`.
pub proof fn lemma_debug_text_names_contained_flags(p: Permissions)
    ensures
        flag_name(Permissions::READ) == "READ"@,
        flag_name(Permissions::WRITE) == "WRITE"@,
        flag_name(Permissions::MODIFY) == "MODIFY"@,
        flags_in(p@).len() == 0 ==> debug_text(p) == "Permissions(0x0)"@,
        flags_in(p@).len() > 0 ==> debug_text(p) == "Permissions("@ + joined_names(flags_in(p@))
            + ")"@,
{
    reveal_strlit("Permissions(0x0)");
    reveal_strlit("Permissions(READ)");
    reveal_strlit("Permissions(WRITE)");
    reveal_strlit("Permissions(MODIFY)");
    reveal_strlit("Permissions(READ | WRITE)");
    reveal_strlit("Permissions(READ | MODIFY)");
    reveal_strlit("Permissions(WRITE | MODIFY)");
    reveal_strlit("Permissions(READ | WRITE | MODIFY)");
    reveal_strlit("Permissions(");
    reveal_strlit(")");
    reveal_strlit(" | ");
    reveal_strlit("READ");
    reveal_strlit("WRITE");
    reveal_strlit("MODIFY");
    assert(0u32 & 1u32 == 0u32 && 0u32 & 2u32 == 0u32 && 0u32 & 4u32 == 0u32) by (bit_vector);
    assert(1u32 & 1u32 == 1u32 && 1u32 & 2u32 == 0u32 && 1u32 & 4u32 == 0u32) by (bit_vector);
    assert(2u32 & 1u32 == 0u32 && 2u32 & 2u32 == 2u32 && 2u32 & 4u32 == 0u32) by (bit_vector);
    assert(3u32 & 1u32 == 1u32 && 3u32 & 2u32 == 2u32 && 3u32 & 4u32 == 0u32) by (bit_vector);
    assert(4u32 & 1u32 == 0u32 && 4u32 & 2u32 == 0u32 && 4u32 & 4u32 == 4u32) by (bit_vector);
    assert(5u32 & 1u32 == 1u32 && 5u32 & 2u32 == 0u32 && 5u32 & 4u32 == 4u32) by (bit_vector);
    assert(6u32 & 1u32 == 0u32 && 6u32 & 2u32 == 2u32 && 6u32 & 4u32 == 4u32) by (bit_vector);
    assert(7u32 & 1u32 == 1u32 && 7u32 & 2u32 == 2u32 && 7u32 & 4u32 == 4u32) by (bit_vector);
    let s = flags_in(p@);
    reveal_with_fuel(joined_names, 3);
    match p {
        Permissions::EMPTY => {
            assert(s =~= seq![]);
        },
        Permissions::READ => {
            assert(s =~= seq![Permissions::READ]);
            assert(debug_text(p) =~= "Permissions("@ + joined_names(s) + ")"@);
        },
        Permissions::WRITE => {
            assert(s =~= seq![Permissions::WRITE]);
            assert(debug_text(p) =~= "Permissions("@ + joined_names(s) + ")"@);
        },
        Permissions::MODIFY => {
            assert(s =~= seq![Permissions::MODIFY]);
            assert(debug_text(p) =~= "Permissions("@ + joined_names(s) + ")"@);
        },
        Permissions::READ_WRITE => {
            assert(s =~= seq![Permissions::READ, Permissions::WRITE]);
            assert(s.drop_last() =~= seq![Permissions::READ]);
            assert(joined_names(s) == "READ"@ + " | "@ + "WRITE"@);
            assert(debug_text(p) =~= "Permissions("@ + joined_names(s) + ")"@);
        },
        Permissions::READ_MODIFY => {
            assert(s =~= seq![Permissions::READ, Permissions::MODIFY]);
            assert(s.drop_last() =~= seq![Permissions::READ]);
            assert(joined_names(s) == "READ"@ + " | "@ + "MODIFY"@);
            assert(debug_text(p) =~= "Permissions("@ + joined_names(s) + ")"@);
        },
        Permissions::WRITE_MODIFY => {
            assert(s =~= seq![Permissions::WRITE, Permissions::MODIFY]);
            assert(s.drop_last() =~= seq![Permissions::WRITE]);
            assert(joined_names(s) == "WRITE"@ + " | "@ + "MODIFY"@);
            assert(debug_text(p) =~= "Permissions("@ + joined_names(s) + ")"@);
        },
        Permissions::ADMIN => {
            assert(s =~= seq![Permissions::READ, Permissions::WRITE, Permissions::MODIFY]);
            assert(s.drop_last() =~= seq![Permissions::READ, Permissions::WRITE]);
            assert(s.drop_last().drop_last() =~= seq![Permissions::READ]);
            assert(joined_names(s.drop_last()) == "READ"@ + " | "@ + "WRITE"@);
            assert(joined_names(s) == "READ"@ + " | "@ + "WRITE"@ + " | "@ + "MODIFY"@);
            assert(debug_text(p) =~= "Permissions("@ + joined_names(s) + ")"@);
        },
    }
}

} // verus!
