//! The set of authentication methods that a peer permits.

use vstd::prelude::*;

verus! {

/// A method of authentication.
#[derive(Debug, Clone, Copy, PartialEq, Eq)]
pub enum AuthMethod {
    /// The method `"none"`.
    NoAuth,
    /// The method `"password"`.
    Password,
    /// The method `"publickey"`.
    PublicKey,
    /// Host-based authentication.
    HostBased,
    /// Keyboard-interactive authentication.
    Interactive,
    /// GSSAPI authentication.
    GssapiMic,
}

impl AuthMethod {
    /// The bit that stands for the method in the engine's mask.
    pub open spec fn spec_bit(&self) -> u32 {
        match self {
            AuthMethod::NoAuth => 0x01,
            AuthMethod::Password => 0x02,
            AuthMethod::PublicKey => 0x04,
            AuthMethod::HostBased => 0x08,
            AuthMethod::Interactive => 0x10,
            AuthMethod::GssapiMic => 0x20,
        }
    }

    /// The bit that stands for the method in the engine's mask.
    #[verifier::when_used_as_spec(spec_bit)]
    pub fn bit(&self) -> (b: u32)
        ensures
            b == self.spec_bit(),
    {
        match self {
            AuthMethod::NoAuth => 0x01,
            AuthMethod::Password => 0x02,
            AuthMethod::PublicKey => 0x04,
            AuthMethod::HostBased => 0x08,
            AuthMethod::Interactive => 0x10,
            AuthMethod::GssapiMic => 0x20,
        }
    }
}

/// The bits of all six methods.
pub const ALL_METHODS: u32 = 0x3f;

/// The methods that a mask names: a method is in the set exactly where its
/// bit is set. Bits that stand for no method name nothing.
pub open spec fn methods_of(bits: u32) -> Set<AuthMethod> {
    Set::new(|m: AuthMethod| bits & m.spec_bit() != 0)
}

/// A set of authentication methods, kept as the engine's mask of them.
#[derive(Debug, Clone, Copy, PartialEq, Eq, Hash)]
pub struct AuthMethods {
    bits: u32,
}

impl View for AuthMethods {
    type V = Set<AuthMethod>;

    closed spec fn view(&self) -> Set<AuthMethod> {
        methods_of(self.bits)
    }
}

/// Membership of each of the six methods, bit by bit.
proof fn lemma_members(bits: u32)
    ensures
        methods_of(bits).contains(AuthMethod::NoAuth) == (bits & 0x01 != 0),
        methods_of(bits).contains(AuthMethod::Password) == (bits & 0x02 != 0),
        methods_of(bits).contains(AuthMethod::PublicKey) == (bits & 0x04 != 0),
        methods_of(bits).contains(AuthMethod::HostBased) == (bits & 0x08 != 0),
        methods_of(bits).contains(AuthMethod::Interactive) == (bits & 0x10 != 0),
        methods_of(bits).contains(AuthMethod::GssapiMic) == (bits & 0x20 != 0),
{
    assert(AuthMethod::NoAuth.spec_bit() == 0x01);
    assert(AuthMethod::Password.spec_bit() == 0x02);
    assert(AuthMethod::PublicKey.spec_bit() == 0x04);
    assert(AuthMethod::HostBased.spec_bit() == 0x08);
    assert(AuthMethod::Interactive.spec_bit() == 0x10);
    assert(AuthMethod::GssapiMic.spec_bit() == 0x20);
}

/// Two masks without stray bits that name the same methods are the same
/// mask: a set is known by its methods alone.
pub proof fn lemma_same_methods(a: u32, b: u32)
    requires
        a & !ALL_METHODS == 0,
        b & !ALL_METHODS == 0,
        methods_of(a) == methods_of(b),
    ensures
        a == b,
{
    lemma_members(a);
    lemma_members(b);
    assert(a == b) by (bit_vector)
        requires
            a & !0x3fu32 == 0,
            b & !0x3fu32 == 0,
            (a & 0x01 != 0) == (b & 0x01 != 0),
            (a & 0x02 != 0) == (b & 0x02 != 0),
            (a & 0x04 != 0) == (b & 0x04 != 0),
            (a & 0x08 != 0) == (b & 0x08 != 0),
            (a & 0x10 != 0) == (b & 0x10 != 0),
            (a & 0x20 != 0) == (b & 0x20 != 0),
    ;
}

/// A mask names a subset of the methods of another exactly where all its
/// method bits are set in the other.
proof fn lemma_subset(a: u32, b: u32)
    requires
        b & !ALL_METHODS == 0,
    ensures
        (a & b == b) <==> methods_of(b).subset_of(methods_of(a)),
{
    if methods_of(b).subset_of(methods_of(a)) {
        lemma_members(a);
        lemma_members(b);
        assert(a & b == b) by (bit_vector)
            requires
                b & !0x3fu32 == 0,
                (b & 0x01 != 0) ==> (a & 0x01 != 0),
                (b & 0x02 != 0) ==> (a & 0x02 != 0),
                (b & 0x04 != 0) ==> (a & 0x04 != 0),
                (b & 0x08 != 0) ==> (a & 0x08 != 0),
                (b & 0x10 != 0) ==> (a & 0x10 != 0),
                (b & 0x20 != 0) ==> (a & 0x20 != 0),
        ;
    }
    if a & b == b {
        assert forall|m: AuthMethod| methods_of(b).contains(m) implies methods_of(a).contains(
            m,
        ) by {
            let k = m.spec_bit();
            assert(a & k != 0) by (bit_vector)
                requires
                    a & b == b,
                    b & k != 0,
            ;
        }
    }
}

impl AuthMethods {
    #[verifier::type_invariant]
    spec fn valid(&self) -> bool {
        self.bits & !ALL_METHODS == 0
    }

    /// The set of no method.
    pub fn empty() -> (s: AuthMethods)
        ensures
            s@ == Set::<AuthMethod>::empty(),
    {
        assert(0u32 & !0x3fu32 == 0) by (bit_vector);
        let s = AuthMethods { bits: 0 };
        assert forall|m: AuthMethod| !methods_of(0).contains(m) by {
            let k = m.spec_bit();
            assert(0u32 & k == 0) by (bit_vector);
        }
        assert(s@ =~= Set::<AuthMethod>::empty());
        s
    }

    /// The set of all six methods.
    pub fn all() -> (s: AuthMethods)
        ensures
            s@ == Set::<AuthMethod>::full(),
    {
        assert(0x3fu32 & !0x3fu32 == 0) by (bit_vector);
        let s = AuthMethods { bits: ALL_METHODS };
        assert forall|m: AuthMethod| methods_of(ALL_METHODS).contains(m) by {
            let k = m.spec_bit();
            assert(0x3fu32 & k != 0) by (bit_vector)
                requires
                    k == 0x01 || k == 0x02 || k == 0x04 || k == 0x08 || k == 0x10 || k == 0x20,
            ;
        }
        assert(s@ =~= Set::<AuthMethod>::full());
        s
    }

    /// The set of one method.
    pub fn only(method: AuthMethod) -> (s: AuthMethods)
        ensures
            s@ == set![method],
    {
        let bits = method.bit();
        assert(bits & !0x3fu32 == 0) by (bit_vector)
            requires
                bits == 0x01 || bits == 0x02 || bits == 0x04 || bits == 0x08 || bits == 0x10
                    || bits == 0x20,
        ;
        let s = AuthMethods { bits };
        assert forall|m: AuthMethod| methods_of(bits).contains(m) == (m == method) by {
            let k = m.spec_bit();
            assert((bits & k != 0) == (bits == k)) by (bit_vector)
                requires
                    bits == 0x01 || bits == 0x02 || bits == 0x04 || bits == 0x08 || bits == 0x10
                        || bits == 0x20,
                    k == 0x01 || k == 0x02 || k == 0x04 || k == 0x08 || k == 0x10 || k == 0x20,
            ;
        }
        assert(s@ =~= set![method]);
        s
    }

    /// The set that the engine's mask names. Bits that stand for none of
    /// the six methods are dropped.
    pub fn from_bits_truncate(bits: u32) -> (s: AuthMethods)
        ensures
            s@ == methods_of(bits),
    {
        let kept = bits & ALL_METHODS;
        assert(kept & !0x3fu32 == 0) by (bit_vector)
            requires
                kept == bits & 0x3fu32,
        ;
        let s = AuthMethods { bits: kept };
        assert forall|m: AuthMethod| methods_of(kept).contains(m) == methods_of(bits).contains(
            m,
        ) by {
            let k = m.spec_bit();
            assert((kept & k != 0) == (bits & k != 0)) by (bit_vector)
                requires
                    kept == bits & 0x3fu32,
                    k == 0x01 || k == 0x02 || k == 0x04 || k == 0x08 || k == 0x10 || k == 0x20,
            ;
        }
        assert(s@ =~= methods_of(bits));
        s
    }

    /// The set that a mask names, if every bit of it stands for a method.
    pub fn from_bits(bits: u32) -> (s: Option<AuthMethods>)
        ensures
            match s {
                Some(s) => bits & !ALL_METHODS == 0 && s@ == methods_of(bits) && s.spec_bits()
                    == bits,
                None => bits & !ALL_METHODS != 0,
            },
    {
        if bits & !ALL_METHODS == 0 {
            Some(AuthMethods { bits })
        } else {
            None
        }
    }

    /// The mask of the set: the bits of its methods and no others.
    pub closed spec fn spec_bits(&self) -> u32 {
        self.bits
    }

    /// The mask of the set.
    #[verifier::when_used_as_spec(spec_bits)]
    pub fn bits(&self) -> (bits: u32)
        ensures
            bits == self.spec_bits(),
            bits & !ALL_METHODS == 0,
            methods_of(bits) == self@,
    {
        proof {
            use_type_invariant(self);
        }
        self.bits
    }

    /// Whether the set holds no method.
    pub fn is_empty(&self) -> (b: bool)
        ensures
            b == (self@ == Set::<AuthMethod>::empty()),
    {
        proof {
            use_type_invariant(self);
            assert(0u32 & !0x3fu32 == 0) by (bit_vector);
            assert forall|m: AuthMethod| !methods_of(0).contains(m) by {
                let k = m.spec_bit();
                assert(0u32 & k == 0) by (bit_vector);
            }
            assert(methods_of(0) =~= Set::<AuthMethod>::empty());
            if self@ == Set::<AuthMethod>::empty() {
                lemma_same_methods(self.bits, 0);
            }
        }
        self.bits == 0
    }

    /// Whether the method is in the set.
    pub fn has(&self, method: AuthMethod) -> (b: bool)
        ensures
            b == self@.contains(method),
    {
        self.bits & method.bit() != 0
    }

    /// Whether every method of `other` is in the set.
    pub fn contains(&self, other: AuthMethods) -> (b: bool)
        ensures
            b == other@.subset_of(self@),
    {
        proof {
            use_type_invariant(other);
            lemma_subset(self.bits, other.bits);
        }
        self.bits & other.bits == other.bits
    }

    /// Whether the two sets share a method.
    pub fn intersects(&self, other: AuthMethods) -> (b: bool)
        ensures
            b == !self@.disjoint(other@),
    {
        let a = self.bits;
        let o = other.bits;
        proof {
            use_type_invariant(self);
            use_type_invariant(other);
            if a & o != 0 {
                assert((a & o) & 0x01 != 0 || (a & o) & 0x02 != 0 || (a & o) & 0x04 != 0 || (a & o)
                    & 0x08 != 0 || (a & o) & 0x10 != 0 || (a & o) & 0x20 != 0) by (bit_vector)
                    requires
                        a & o != 0,
                        a & !0x3fu32 == 0,
                ;
                let m = if (a & o) & 0x01 != 0 {
                    AuthMethod::NoAuth
                } else if (a & o) & 0x02 != 0 {
                    AuthMethod::Password
                } else if (a & o) & 0x04 != 0 {
                    AuthMethod::PublicKey
                } else if (a & o) & 0x08 != 0 {
                    AuthMethod::HostBased
                } else if (a & o) & 0x10 != 0 {
                    AuthMethod::Interactive
                } else {
                    AuthMethod::GssapiMic
                };
                let k = m.spec_bit();
                assert(a & k != 0 && o & k != 0) by (bit_vector)
                    requires
                        (a & o) & k != 0,
                ;
                assert(self@.contains(m) && other@.contains(m));
            } else {
                assert forall|m: AuthMethod| !(self@.contains(m) && other@.contains(m)) by {
                    let k = m.spec_bit();
                    assert(!(a & k != 0 && o & k != 0)) by (bit_vector)
                        requires
                            a & o == 0,
                            k == 0x01 || k == 0x02 || k == 0x04 || k == 0x08 || k == 0x10 || k
                                == 0x20,
                    ;
                }
            }
        }
        a & o != 0
    }

    /// The methods of either set.
    pub fn union(&self, other: AuthMethods) -> (s: AuthMethods)
        ensures
            s@ == self@.union(other@),
    {
        let a = self.bits;
        let o = other.bits;
        proof {
            use_type_invariant(self);
            use_type_invariant(other);
            assert((a | o) & !0x3fu32 == 0) by (bit_vector)
                requires
                    a & !0x3fu32 == 0,
                    o & !0x3fu32 == 0,
            ;
        }
        let s = AuthMethods { bits: a | o };
        assert forall|m: AuthMethod| methods_of(a | o).contains(m) == (methods_of(a).contains(m)
            || methods_of(o).contains(m)) by {
            let k = m.spec_bit();
            assert(((a | o) & k != 0) == (a & k != 0 || o & k != 0)) by (bit_vector);
        }
        assert(s@ =~= self@.union(other@));
        s
    }

    /// The methods of both sets.
    pub fn intersection(&self, other: AuthMethods) -> (s: AuthMethods)
        ensures
            s@ == self@.intersect(other@),
    {
        let a = self.bits;
        let o = other.bits;
        proof {
            use_type_invariant(self);
            assert((a & o) & !0x3fu32 == 0) by (bit_vector)
                requires
                    a & !0x3fu32 == 0,
            ;
        }
        let s = AuthMethods { bits: a & o };
        assert forall|m: AuthMethod| methods_of(a & o).contains(m) == (methods_of(a).contains(m)
            && methods_of(o).contains(m)) by {
            let k = m.spec_bit();
            assert(((a & o) & k != 0) == (a & k != 0 && o & k != 0)) by (bit_vector)
                requires
                    k == 0x01 || k == 0x02 || k == 0x04 || k == 0x08 || k == 0x10 || k == 0x20,
            ;
        }
        assert(s@ =~= self@.intersect(other@));
        s
    }

    /// The methods of this set that are not in `other`.
    pub fn difference(&self, other: AuthMethods) -> (s: AuthMethods)
        ensures
            s@ == self@.difference(other@),
    {
        let a = self.bits;
        let o = other.bits;
        proof {
            use_type_invariant(self);
            assert((a & !o) & !0x3fu32 == 0) by (bit_vector)
                requires
                    a & !0x3fu32 == 0,
            ;
        }
        let s = AuthMethods { bits: a & !o };
        assert forall|m: AuthMethod| methods_of(a & !o).contains(m) == (methods_of(a).contains(m)
            && !methods_of(o).contains(m)) by {
            let k = m.spec_bit();
            assert(((a & !o) & k != 0) == (a & k != 0 && !(o & k != 0))) by (bit_vector)
                requires
                    k == 0x01 || k == 0x02 || k == 0x04 || k == 0x08 || k == 0x10 || k == 0x20,
            ;
        }
        assert(s@ =~= self@.difference(other@));
        s
    }

    /// Puts the methods of `other` into the set.
    pub fn insert(&mut self, other: AuthMethods)
        ensures
            final(self)@ == old(self)@.union(other@),
    {
        *self = self.union(other);
    }

    /// Takes the methods of `other` out of the set.
    pub fn remove(&mut self, other: AuthMethods)
        ensures
            final(self)@ == old(self)@.difference(other@),
    {
        *self = self.difference(other);
    }
}

} // verus!
