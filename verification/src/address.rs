//! IPv6 addresses as sixteen octets in network order.

use vstd::prelude::*;

verus! {

/// An IPv6 address: its sixteen octets, most significant first.
#[derive(Clone, Copy, Debug, PartialEq, Eq)]
pub struct Ipv6Address {
    pub octets: [u8; 16],
}

impl View for Ipv6Address {
    type V = Seq<u8>;

    open spec fn view(&self) -> Seq<u8> {
        self.octets@
    }
}

impl DeepView for Ipv6Address {
    type V = Seq<u8>;

    open spec fn deep_view(&self) -> Seq<u8> {
        self.octets@
    }
}

/// Strict lexical order of two octet strings.
pub open spec fn octets_less(a: Seq<u8>, b: Seq<u8>) -> bool
    decreases a.len(),
{
    if b.len() == 0 {
        false
    } else if a.len() == 0 {
        true
    } else if a[0] != b[0] {
        a[0] < b[0]
    } else {
        octets_less(a.drop_first(), b.drop_first())
    }
}

/// No octet string comes before itself.
pub proof fn lemma_octets_less_irreflexive(a: Seq<u8>)
    ensures
        !octets_less(a, a),
    decreases a.len(),
{
    if a.len() > 0 {
        lemma_octets_less_irreflexive(a.drop_first());
    }
}

/// Of two different octet strings of one length, one comes before the other.
pub proof fn lemma_octets_less_total(a: Seq<u8>, b: Seq<u8>)
    requires
        a.len() == b.len(),
    ensures
        octets_less(a, b) || octets_less(b, a) || a == b,
    decreases a.len(),
{
    if a.len() == 0 {
        assert(a =~= b);
    } else if a[0] == b[0] {
        lemma_octets_less_total(a.drop_first(), b.drop_first());
        if a.drop_first() == b.drop_first() {
            assert(a =~= seq![a[0]] + a.drop_first());
            assert(b =~= seq![b[0]] + b.drop_first());
        }
    }
}

/// The lexical order of octet strings is transitive.
pub proof fn lemma_octets_less_transitive(a: Seq<u8>, b: Seq<u8>, c: Seq<u8>)
    requires
        octets_less(a, b),
        octets_less(b, c),
    ensures
        octets_less(a, c),
    decreases a.len(),
{
    if a.len() > 0 && a[0] == b[0] && b[0] == c[0] {
        lemma_octets_less_transitive(a.drop_first(), b.drop_first(), c.drop_first());
    }
}

/// Two addresses with the same octets are the same address.
pub proof fn lemma_address_by_octets(a: Ipv6Address, b: Ipv6Address)
    ensures
        (a@ == b@) <==> (a == b),
{
    if a@ == b@ {
        assert(a.octets =~= b.octets);
    }
}

impl Ipv6Address {
    /// The address of the given octets.
    pub fn new(octets: [u8; 16]) -> (r: Self)
        ensures
            r.octets == octets,
    {
        Ipv6Address { octets }
    }

    /// Whether `self` and `other` are the same address.
    pub fn same(&self, other: &Ipv6Address) -> (r: bool)
        ensures
            r == (self@ == other@),
            r == (*self == *other),
    {
        proof {
            lemma_address_by_octets(*self, *other);
        }
        let mut i: usize = 0;
        while i < 16
            invariant
                i <= 16,
                self@.take(i as int) == other@.take(i as int),
            decreases 16 - i,
        {
            if self.octets[i] != other.octets[i] {
                assert(self@[i as int] != other@[i as int]);
                return false;
            }
            i += 1;
            assert(self@.take(i as int) == self@.take(i - 1).push(self@[i - 1]));
            assert(other@.take(i as int) == other@.take(i - 1).push(other@[i - 1]));
        }
        assert(self@.take(16) == self@);
        assert(other@.take(16) == other@);
        true
    }

    /// Whether `self` comes strictly before `other` in the lexical order of
    /// their octets.
    pub fn precedes(&self, other: &Ipv6Address) -> (r: bool)
        ensures
            r == octets_less(self@, other@),
    {
        let mut i: usize = 0;
        assert(self@.skip(0) == self@);
        assert(other@.skip(0) == other@);
        while i < 16
            invariant
                i <= 16,
                octets_less(self@, other@) == octets_less(self@.skip(i as int), other@.skip(i as int)),
            decreases 16 - i,
        {
            proof {
                let p = self@.skip(i as int);
                let q = other@.skip(i as int);
                assert(p[0] == self@[i as int]);
                assert(q[0] == other@[i as int]);
                assert(p.drop_first() == self@.skip(i + 1));
                assert(q.drop_first() == other@.skip(i + 1));
            }
            if self.octets[i] != other.octets[i] {
                return self.octets[i] < other.octets[i];
            }
            i += 1;
        }
        false
    }
}

} // verus!
