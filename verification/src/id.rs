//! Package types and the numeric ids handed out within each of them.
//!
//! The ids of a package type are its base times the powers of two, in
//! ascending order. The bases are distinct odd numbers, so no id belongs to
//! two package types.

use vstd::arithmetic::power2::{
    lemma2_to64, lemma_pow2_adds, lemma_pow2_pos, lemma_pow2_strictly_increases, lemma_pow2_unfold,
    pow2,
};
use vstd::prelude::*;

verus! {

/// A category of packages. Each has its own id numbering and its own rule for
/// access to the shared store.
#[derive(Debug, Clone, Copy, PartialEq, Eq, Hash, Structural)]
pub enum PackageType {
    Init,
    Context,
    State,
    Output,
}

impl PackageType {
    /// The first id of the package type.
    pub open spec fn base(self) -> nat {
        match self {
            PackageType::Init => 3,
            PackageType::Context => 5,
            PackageType::State => 7,
            PackageType::Output => 11,
        }
    }

    /// The tag that names the package type in diagnostics.
    pub open spec fn tag(self) -> Seq<char> {
        match self {
            PackageType::Init => "Init"@,
            PackageType::Context => "Context"@,
            PackageType::State => "State"@,
            PackageType::Output => "Output"@,
        }
    }

    /// The tag that names the package type in diagnostics.
    pub fn as_str(&self) -> (s: &'static str)
        ensures
            s@ == self.tag(),
    {
        match self {
            PackageType::Init => "Init",
            PackageType::Context => "Context",
            PackageType::State => "State",
            PackageType::Output => "Output",
        }
    }

    fn multiplier(self) -> (m: usize)
        ensures
            m == self.base(),
    {
        match self {
            PackageType::Init => 3,
            PackageType::Context => 5,
            PackageType::State => 7,
            PackageType::Output => 11,
        }
    }
}

/// The `n`-th id of a package type, counted from zero.
pub open spec fn id_at(package_type: PackageType, n: nat) -> nat {
    package_type.base() * pow2(n)
}

/// Identifies a package among all packages of all types.
#[derive(Debug, Clone, Copy, PartialEq, Eq, Hash, Structural)]
pub struct PackageId(pub usize);

impl PackageId {
    pub fn as_usize(&self) -> (n: usize)
        ensures
            n == self.0,
    {
        self.0
    }
}

/// Hands out the ids of one package type, each once, in ascending order.
#[derive(Debug)]
pub struct PackageIdGenerator {
    package_type: PackageType,
    cur: u32,
    upcoming: Option<usize>,
}

impl PackageIdGenerator {
    #[verifier::type_invariant]
    spec fn inv(&self) -> bool {
        &&& self.cur <= 64
        &&& self.upcoming matches Some(id) ==> id == id_at(self.package_type, self.cur as nat)
        &&& self.upcoming is None ==> id_at(self.package_type, self.cur as nat) > usize::MAX
    }

    /// The package type whose ids the generator hands out.
    pub closed spec fn package_type(&self) -> PackageType {
        self.package_type
    }

    /// How many ids the generator has handed out.
    pub closed spec fn issued(&self) -> nat {
        self.cur as nat
    }

    /// Whether the next id of the package type still fits the machine word.
    pub open spec fn can_issue(&self) -> bool {
        id_at(self.package_type(), self.issued()) <= usize::MAX
    }

    /// A generator that has handed out no id yet.
    pub fn new(package_type: PackageType) -> (generator: PackageIdGenerator)
        ensures
            generator.package_type() == package_type,
            generator.issued() == 0,
            generator.can_issue(),
    {
        proof {
            lemma_small_powers();
        }
        PackageIdGenerator { package_type, cur: 0, upcoming: Some(package_type.multiplier()) }
    }

    /// Whether `next` may be called.
    pub fn has_next(&self) -> (b: bool)
        ensures
            b == self.can_issue(),
    {
        proof {
            use_type_invariant(self);
        }
        self.upcoming.is_some()
    }

    /// Hands out the next id of the package type.
    pub fn next(&mut self) -> (id: PackageId)
        requires
            old(self).can_issue(),
        ensures
            id.0 == id_at(old(self).package_type(), old(self).issued()),
            final(self).package_type() == old(self).package_type(),
            final(self).issued() == old(self).issued() + 1,
    {
        proof {
            use_type_invariant(&*self);
            lemma_word_bounds_count(self.package_type, self.cur as nat);
            lemma_id_doubles(self.package_type, self.cur as nat);
        }
        let id = match self.upcoming {
            Some(id) => id,
            None => vstd::pervasive::unreached(),
        };
        *self = PackageIdGenerator {
            package_type: self.package_type,
            cur: self.cur + 1,
            upcoming: id.checked_mul(2),
        };
        PackageId(id)
    }
}

/// Each id of a package type is twice the one before it.
pub proof fn lemma_id_doubles(package_type: PackageType, n: nat)
    ensures
        id_at(package_type, n + 1) == 2 * id_at(package_type, n),
{
    lemma_pow2_unfold(n + 1);
    assert(package_type.base() * (2 * pow2(n)) == 2 * (package_type.base() * pow2(n)))
        by (nonlinear_arith);
}

/// The ids of a package type ascend, so no two of them are equal.
pub proof fn lemma_ids_ascend(package_type: PackageType, i: nat, j: nat)
    requires
        i < j,
    ensures
        id_at(package_type, i) < id_at(package_type, j),
{
    lemma_pow2_strictly_increases(i, j);
    assert(package_type.base() * pow2(i) < package_type.base() * pow2(j)) by (nonlinear_arith)
        requires
            package_type.base() > 0,
            pow2(i) < pow2(j),
    ;
}

/// Two package types share no id.
pub proof fn lemma_ids_of_types_differ(a: PackageType, i: nat, b: PackageType, j: nat)
    requires
        a != b,
    ensures
        id_at(a, i) != id_at(b, j),
{
    if id_at(a, i) == id_at(b, j) {
        if i <= j {
            lemma_odd_factor(a.base(), i, b.base(), j);
        } else {
            lemma_odd_factor(b.base(), j, a.base(), i);
        }
    }
}

/// An odd number times a power of two determines both factors.
proof fn lemma_odd_factor(a: nat, i: nat, b: nat, j: nat)
    requires
        a % 2 == 1,
        b % 2 == 1,
        i <= j,
        a * pow2(i) == b * pow2(j),
    ensures
        i == j,
        a == b,
{
    let p = pow2(i);
    let q = pow2((j - i) as nat);
    lemma_pow2_adds(i, (j - i) as nat);
    lemma_pow2_pos(i);
    assert(a == b * q) by (nonlinear_arith)
        requires
            a * p == b * (p * q),
            p > 0,
    ;
    if i < j {
        lemma_pow2_unfold((j - i) as nat);
        let r = pow2((j - i - 1) as nat);
        assert(b * (2 * r) == 2 * (b * r)) by (nonlinear_arith);
        assert(a % 2 == 0);
    } else {
        lemma_small_powers();
        assert(b * 1 == b);
    }
}

/// The first ids of every package type fit any machine word.
pub proof fn lemma_small_ids_fit(package_type: PackageType, n: nat)
    requires
        n <= 2,
    ensures
        id_at(package_type, n) <= 44,
        id_at(package_type, n) <= usize::MAX,
{
    lemma_small_powers();
    assert(package_type.base() * pow2(n) <= 44) by (nonlinear_arith)
        requires
            package_type.base() <= 11,
            pow2(n) <= 4,
    ;
}

/// The first powers of two.
proof fn lemma_small_powers()
    ensures
        pow2(0) == 1,
        pow2(1) == 2,
        pow2(2) == 4,
{
    lemma2_to64();
}

/// An id that fits the machine word is not past the 63rd of its type.
proof fn lemma_word_bounds_count(package_type: PackageType, n: nat)
    requires
        id_at(package_type, n) <= usize::MAX,
    ensures
        n < 64,
{
    if n >= 64 {
        lemma2_to64();
        if n > 64 {
            lemma_pow2_strictly_increases(64, n);
        }
        assert(pow2(n) >= 0x10000000000000000);
        assert(package_type.base() >= 3);
        assert(package_type.base() * pow2(n) >= pow2(n)) by (nonlinear_arith)
            requires
                package_type.base() >= 1,
        ;
    }
}

} // verus!
