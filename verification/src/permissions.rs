//! The set of permissions a user holds on a crate or an organisation.
//!
//! A set is a bit field: each permission is one bit, a set holds a permission
//! when its bit is set. On the wire a set is a list of permission names.
use vstd::prelude::*;

use crate::text::str_eq;

verus! {

/// Bit of the `VISIBLE` permission.
pub const VISIBLE_BIT: i32 = 0b0000_0001;
/// Bit of the `PUBLISH_VERSION` permission.
pub const PUBLISH_VERSION_BIT: i32 = 0b0000_0010;
/// Bit of the `YANK_VERSION` permission.
pub const YANK_VERSION_BIT: i32 = 0b0000_0100;
/// Bit of the `MANAGE_USERS` permission.
pub const MANAGE_USERS_BIT: i32 = 0b0000_1000;
/// Bit of the `CREATE_CRATE` permission.
pub const CREATE_CRATE_BIT: i32 = 0b0001_0000;
/// Every bit that stands for a permission.
pub const ALL_BITS: i32 = 0b0001_1111;

/// Number of distinct permissions.
pub const PERMISSION_COUNT: usize = 5;

/// The bit of the permission at `index` in declaration order.
pub open spec fn variant_bit(index: int) -> i32 {
    if index == 0 {
        VISIBLE_BIT
    } else if index == 1 {
        PUBLISH_VERSION_BIT
    } else if index == 2 {
        YANK_VERSION_BIT
    } else if index == 3 {
        MANAGE_USERS_BIT
    } else {
        CREATE_CRATE_BIT
    }
}

/// The name of the permission at `index` in declaration order.
pub open spec fn variant_name(index: int) -> Seq<char> {
    if index == 0 {
        "VISIBLE"@
    } else if index == 1 {
        "PUBLISH_VERSION"@
    } else if index == 2 {
        "YANK_VERSION"@
    } else if index == 3 {
        "MANAGE_USERS"@
    } else {
        "CREATE_CRATE"@
    }
}

/// The names of every permission, in declaration order.
pub open spec fn all_names() -> Seq<Seq<char>> {
    Seq::new(5, |i: int| variant_name(i))
}

/// The bits below the permission at `index`: `(1 << index) - 1`.
pub open spec fn mask_below(index: int) -> i32 {
    if index <= 0 {
        0
    } else if index == 1 {
        1
    } else if index == 2 {
        3
    } else if index == 3 {
        7
    } else if index == 4 {
        15
    } else {
        31
    }
}

/// `held` holds every bit of `wanted`.
pub open spec fn bits_contain(held: i32, wanted: i32) -> bool {
    held & wanted == wanted
}

/// The names of the permissions among the first `count` that `bits` holds,
/// in declaration order.
pub open spec fn names_upto(bits: i32, count: int) -> Seq<Seq<char>>
    decreases count,
{
    if count <= 0 {
        seq![]
    } else {
        let before = names_upto(bits, count - 1);
        if bits_contain(bits, variant_bit(count - 1)) {
            before.push(variant_name(count - 1))
        } else {
            before
        }
    }
}

/// The names that a permission set with `bits` is written as.
pub open spec fn names_of(bits: i32) -> Seq<Seq<char>> {
    names_upto(bits, 5)
}

/// The bit of the permission called `name`, if there is one.
pub open spec fn bit_of_name(name: Seq<char>) -> Option<i32> {
    if name == variant_name(0) {
        Some(variant_bit(0))
    } else if name == variant_name(1) {
        Some(variant_bit(1))
    } else if name == variant_name(2) {
        Some(variant_bit(2))
    } else if name == variant_name(3) {
        Some(variant_bit(3))
    } else if name == variant_name(4) {
        Some(variant_bit(4))
    } else {
        None
    }
}

/// The bits of the set written as `names`, or the first name that is no
/// permission.
pub open spec fn bits_of_names(names: Seq<Seq<char>>) -> Result<i32, Seq<char>>
    decreases names.len(),
{
    if names.len() == 0 {
        Ok(0)
    } else {
        match bits_of_names(names.drop_last()) {
            Err(unknown) => Err(unknown),
            Ok(bits) => match bit_of_name(names.last()) {
                None => Err(names.last()),
                Some(bit) => Ok(bits | bit),
            },
        }
    }
}

/// A set of permissions.
#[derive(Clone, Copy, PartialEq, Eq, Structural, Debug, Hash)]
pub struct UserPermission {
    /// One bit per permission held.
    pub bits: i32,
}

/// A name that stands for no permission.
#[derive(Clone, PartialEq, Eq, Debug)]
pub struct UnknownPermission(pub String);

impl Default for UserPermission {
    /// The empty set.
    fn default() -> (r: Self)
        ensures
            r.bits == 0,
    {
        UserPermission { bits: 0 }
    }
}

impl UserPermission {
    /// The permission to see a crate or an organisation.
    pub fn visible() -> (r: UserPermission)
        ensures
            r.bits == VISIBLE_BIT,
    {
        UserPermission { bits: VISIBLE_BIT }
    }

    /// The permission to publish a new version of a crate.
    pub fn publish_version() -> (r: UserPermission)
        ensures
            r.bits == PUBLISH_VERSION_BIT,
    {
        UserPermission { bits: PUBLISH_VERSION_BIT }
    }

    /// The permission to yank or unyank a version.
    pub fn yank_version() -> (r: UserPermission)
        ensures
            r.bits == YANK_VERSION_BIT,
    {
        UserPermission { bits: YANK_VERSION_BIT }
    }

    /// The permission to change who holds which permissions.
    pub fn manage_users() -> (r: UserPermission)
        ensures
            r.bits == MANAGE_USERS_BIT,
    {
        UserPermission { bits: MANAGE_USERS_BIT }
    }

    /// The permission to create crates in an organisation.
    pub fn create_crate() -> (r: UserPermission)
        ensures
            r.bits == CREATE_CRATE_BIT,
    {
        UserPermission { bits: CREATE_CRATE_BIT }
    }

    /// The raw bits of the set.
    pub fn bits(&self) -> (r: i32)
        ensures
            r == self.bits,
    {
        self.bits
    }

    /// The empty set.
    pub fn empty() -> (r: UserPermission)
        ensures
            r.bits == 0,
    {
        UserPermission { bits: 0 }
    }

    /// The set of every permission.
    pub fn all() -> (r: UserPermission)
        ensures
            r.bits == ALL_BITS,
    {
        UserPermission { bits: ALL_BITS }
    }

    /// The set whose bits are those of `bits` that stand for a permission;
    /// the other bits are dropped.
    pub fn from_bits_truncate(bits: i32) -> (r: UserPermission)
        ensures
            r.bits == bits & ALL_BITS,
    {
        UserPermission { bits: bits & ALL_BITS }
    }

    /// The set with exactly `bits`, if every one of them stands for a permission.
    pub fn from_bits(bits: i32) -> (r: Option<UserPermission>)
        ensures
            r == (if bits & !ALL_BITS == 0 { Some(UserPermission { bits }) } else { None }),
    {
        if bits & !ALL_BITS == 0 {
            Some(UserPermission { bits })
        } else {
            None
        }
    }

    /// Whether the set holds no permission.
    pub fn is_empty(&self) -> (r: bool)
        ensures
            r == (self.bits == 0),
    {
        self.bits == 0
    }

    /// Whether the set holds every permission that `other` holds.
    pub fn contains(&self, other: UserPermission) -> (r: bool)
        ensures
            r == bits_contain(self.bits, other.bits),
    {
        self.bits & other.bits == other.bits
    }

    /// The permissions held by either set.
    pub fn union(&self, other: UserPermission) -> (r: UserPermission)
        ensures
            r.bits == self.bits | other.bits,
    {
        UserPermission { bits: self.bits | other.bits }
    }

    /// The permissions held by both sets.
    pub fn intersection(&self, other: UserPermission) -> (r: UserPermission)
        ensures
            r.bits == self.bits & other.bits,
    {
        UserPermission { bits: self.bits & other.bits }
    }

    /// Adds the permissions of `other` to the set.
    pub fn insert(&mut self, other: UserPermission)
        ensures
            final(self).bits == old(self).bits | other.bits,
    {
        self.bits = self.bits | other.bits;
    }

    /// Removes the permissions of `other` from the set.
    pub fn remove(&mut self, other: UserPermission)
        ensures
            final(self).bits == old(self).bits & !other.bits,
    {
        self.bits = self.bits & !other.bits;
    }

    /// The names of every permission, in declaration order.
    pub fn names() -> (r: Vec<&'static str>)
        ensures
            r@.len() == PERMISSION_COUNT,
            forall|i: int| 0 <= i < PERMISSION_COUNT ==> #[trigger] r@[i]@ == variant_name(i),
    {
        let mut r: Vec<&'static str> = Vec::new();
        r.push("VISIBLE");
        r.push("PUBLISH_VERSION");
        r.push("YANK_VERSION");
        r.push("MANAGE_USERS");
        r.push("CREATE_CRATE");
        r
    }

    /// The names of the permissions the set holds, in declaration order: how
    /// the set is written on the wire.
    pub fn to_names(&self) -> (r: Vec<&'static str>)
        ensures
            r@.map_values(|s: &str| s@) == names_of(self.bits),
    {
        let mut r: Vec<&'static str> = Vec::new();
        assert(names_upto(self.bits, 0) =~= Seq::<Seq<char>>::empty());
        assert(r@.map_values(|s: &str| s@) =~= names_upto(self.bits, 0));
        if self.bits & VISIBLE_BIT == VISIBLE_BIT {
            r.push("VISIBLE");
        }
        assert(r@.map_values(|s: &str| s@) =~= names_upto(self.bits, 1));
        if self.bits & PUBLISH_VERSION_BIT == PUBLISH_VERSION_BIT {
            r.push("PUBLISH_VERSION");
        }
        assert(r@.map_values(|s: &str| s@) =~= names_upto(self.bits, 2));
        if self.bits & YANK_VERSION_BIT == YANK_VERSION_BIT {
            r.push("YANK_VERSION");
        }
        assert(r@.map_values(|s: &str| s@) =~= names_upto(self.bits, 3));
        if self.bits & MANAGE_USERS_BIT == MANAGE_USERS_BIT {
            r.push("MANAGE_USERS");
        }
        assert(r@.map_values(|s: &str| s@) =~= names_upto(self.bits, 4));
        if self.bits & CREATE_CRATE_BIT == CREATE_CRATE_BIT {
            r.push("CREATE_CRATE");
        }
        assert(r@.map_values(|s: &str| s@) =~= names_upto(self.bits, 5));
        r
    }

    /// The bit of the permission called `name`, if there is one.
    pub fn bit_of_name(name: &str) -> (r: Option<i32>)
        ensures
            r == bit_of_name(name@),
    {
        if str_eq(name, "VISIBLE") {
            Some(VISIBLE_BIT)
        } else if str_eq(name, "PUBLISH_VERSION") {
            Some(PUBLISH_VERSION_BIT)
        } else if str_eq(name, "YANK_VERSION") {
            Some(YANK_VERSION_BIT)
        } else if str_eq(name, "MANAGE_USERS") {
            Some(MANAGE_USERS_BIT)
        } else if str_eq(name, "CREATE_CRATE") {
            Some(CREATE_CRATE_BIT)
        } else {
            None
        }
    }

    /// Reads a set written as a list of names; fails on the first name that
    /// stands for no permission.
    pub fn from_names(names: &[String]) -> (r: Result<UserPermission, UnknownPermission>)
        ensures
            match bits_of_names(names@.map_values(|s: String| s@)) {
                Ok(bits) => r == Ok::<UserPermission, UnknownPermission>(UserPermission { bits }),
                Err(unknown) => r is Err && r->Err_0.0@ == unknown,
            },
    {
        let ghost views = names@.map_values(|s: String| s@);
        let mut acc: i32 = 0;
        let mut i: usize = 0;
        while i < names.len()
            invariant
                i <= names.len(),
                views == names@.map_values(|s: String| s@),
                bits_of_names(views.take(i as int)) == Ok::<i32, Seq<char>>(acc),
            decreases names.len() - i,
        {
            assert(views.take(i + 1).drop_last() =~= views.take(i as int));
            match Self::bit_of_name(names[i].as_str()) {
                None => {
                    proof {
                        lemma_unknown_prefix(views, (i + 1) as int);
                    }
                    return Err(UnknownPermission(names[i].clone()));
                },
                Some(bit) => {
                    acc = acc | bit;
                },
            }
            i = i + 1;
        }
        assert(views.take(i as int) =~= views);
        Ok(UserPermission { bits: acc })
    }
}

/// An error in a prefix of a list of names is the error of the whole list.
proof fn lemma_unknown_prefix(names: Seq<Seq<char>>, k: int)
    requires
        0 <= k <= names.len(),
        bits_of_names(names.take(k)) is Err,
    ensures
        bits_of_names(names) == bits_of_names(names.take(k)),
    decreases names.len() - k,
{
    if k < names.len() {
        assert(names.take(k + 1).drop_last() =~= names.take(k));
        lemma_unknown_prefix(names, k + 1);
    } else {
        assert(names.take(k) =~= names);
    }
}

/// Each permission's name reads back as that permission's bit.
proof fn lemma_bit_of_variant_name(index: int)
    requires
        0 <= index < 5,
    ensures
        bit_of_name(variant_name(index)) == Some(variant_bit(index)),
{
    reveal_strlit("VISIBLE");
    reveal_strlit("PUBLISH_VERSION");
    reveal_strlit("YANK_VERSION");
    reveal_strlit("MANAGE_USERS");
    reveal_strlit("CREATE_CRATE");
    assert("VISIBLE"@.len() == 7);
    assert("PUBLISH_VERSION"@.len() == 15);
    assert("YANK_VERSION"@.len() == 12);
    assert("MANAGE_USERS"@.len() == 12);
    assert("CREATE_CRATE"@.len() == 12);
    assert("YANK_VERSION"@[0] != "MANAGE_USERS"@[0]);
    assert("YANK_VERSION"@[0] != "CREATE_CRATE"@[0]);
    assert("MANAGE_USERS"@[0] != "CREATE_CRATE"@[0]);
}

/// Reading the names of the first `count` permissions held by `bits` gives
/// back those bits.
proof fn lemma_names_upto_read_back(bits: i32, count: int)
    requires
        0 <= count <= 5,
    ensures
        bits_of_names(names_upto(bits, count)) == Ok::<i32, Seq<char>>(bits & mask_below(count)),
    decreases count,
{
    if count == 0 {
        assert(bits & 0 == 0) by (bit_vector);
    } else {
        lemma_names_upto_read_back(bits, count - 1);
        lemma_bit_of_variant_name(count - 1);
        let before = names_upto(bits, count - 1);
        let k = count - 1;
        let v = variant_bit(k);
        let lo = mask_below(k);
        let hi = mask_below(count);
        if k == 0 {
            assert(v == 1 && lo == 0 && hi == 1);
        } else if k == 1 {
            assert(v == 2 && lo == 1 && hi == 3);
        } else if k == 2 {
            assert(v == 4 && lo == 3 && hi == 7);
        } else if k == 3 {
            assert(v == 8 && lo == 7 && hi == 15);
        } else {
            assert(v == 16 && lo == 15 && hi == 31);
        }
        lemma_mask_step(bits, v, lo, hi);
        if bits_contain(bits, v) {
            let after = before.push(variant_name(k));
            assert(after.drop_last() =~= before);
            assert(names_upto(bits, count) == after);
        } else {
            assert(names_upto(bits, count) == before);
        }
    }
}

/// One step of collecting the bits below a permission's bit.
proof fn lemma_mask_step(bits: i32, v: i32, lo: i32, hi: i32)
    requires
        (v == 1 && lo == 0 && hi == 1) || (v == 2 && lo == 1 && hi == 3) || (v == 4 && lo == 3
            && hi == 7) || (v == 8 && lo == 7 && hi == 15) || (v == 16 && lo == 15 && hi == 31),
    ensures
        bits & v == v ==> (bits & lo) | v == bits & hi,
        bits & v != v ==> bits & lo == bits & hi,
{
    assert(((v == 1 && lo == 0 && hi == 1) || (v == 2 && lo == 1 && hi == 3) || (v == 4 && lo == 3
        && hi == 7) || (v == 8 && lo == 7 && hi == 15) || (v == 16 && lo == 15 && hi == 31)) ==> (
    bits & v == v ==> (bits & lo) | v == bits & hi)) by (bit_vector);
    assert(((v == 1 && lo == 0 && hi == 1) || (v == 2 && lo == 1 && hi == 3) || (v == 4 && lo == 3
        && hi == 7) || (v == 8 && lo == 7 && hi == 15) || (v == 16 && lo == 15 && hi == 31)) ==> (
    bits & v != v ==> bits & lo == bits & hi)) by (bit_vector);
}

/// Writing a set as names and reading the names back gives the set, for
/// every set whose bits all stand for permissions.
pub proof fn lemma_names_round_trip(p: UserPermission)
    requires
        p.bits & !ALL_BITS == 0,
    ensures
        bits_of_names(names_of(p.bits)) == Ok::<i32, Seq<char>>(p.bits),
{
    lemma_names_upto_read_back(p.bits, 5);
    let b = p.bits;
    assert(b & !31i32 == 0 ==> b & 31 == b) by (bit_vector);
}

/// Truncating bits keeps exactly the bits that stand for permissions, and the
/// result is held by the set of every permission.
pub proof fn lemma_truncate_within_all(bits: i32)
    ensures
        (bits & ALL_BITS) & !ALL_BITS == 0,
        bits_contain(ALL_BITS, bits & ALL_BITS),
        (bits & ALL_BITS) & ALL_BITS == bits & ALL_BITS,
{
    assert((bits & 31i32) & !31i32 == 0) by (bit_vector);
    assert(31i32 & (bits & 31i32) == bits & 31i32) by (bit_vector);
    assert((bits & 31i32) & 31i32 == bits & 31i32) by (bit_vector);
}

/// A union holds both of its operands, and a set holds another exactly when
/// adding the other to it changes nothing.
pub proof fn lemma_union_contains(a: i32, b: i32)
    ensures
        bits_contain(a | b, a),
        bits_contain(a | b, b),
        bits_contain(a, b) <==> (a | b) == a,
{
    assert((a | b) & a == a) by (bit_vector);
    assert((a | b) & b == b) by (bit_vector);
    assert((a & b == b) <==> ((a | b) == a)) by (bit_vector);
}

/// Holding is reflexive and transitive, and every set holds the empty set.
pub proof fn lemma_contains_order(a: i32, b: i32, c: i32)
    ensures
        bits_contain(a, a),
        bits_contain(a, 0),
        bits_contain(a, b) && bits_contain(b, c) ==> bits_contain(a, c),
        bits_contain(a, b) && bits_contain(b, a) ==> a == b,
{
    assert(a & a == a) by (bit_vector);
    assert(a & 0 == 0) by (bit_vector);
    assert((a & b == b && b & c == c) ==> a & c == c) by (bit_vector);
    assert((a & b == b && b & a == a) ==> a == b) by (bit_vector);
}

} // verus!
