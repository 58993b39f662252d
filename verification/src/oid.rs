use vstd::prelude::*;

use crate::error::Error;
use crate::error::ErrorKind;

verus! {

/// The fixed capacity, in components, of the array the native resolver
/// exchanges object identifiers through.
pub const MAX_OID_LEN: usize = 128;

/// An SNMP object identifier: an ordered sequence of components, each
/// representable in the native resolver's numeric width.  Immutable once
/// constructed; equality is sequence equality.
#[derive(Debug, Clone)]
pub struct Oid {
    components: Vec<u64>,
}

impl View for Oid {
    type V = Seq<u64>;

    closed spec fn view(&self) -> Seq<u64> {
        self.components@
    }
}

impl Oid {
    /// An identifier made of the given components, in order.
    pub fn new(components: Vec<u64>) -> (r: Self)
        ensures
            r@ == components@,
    {
        Self { components }
    }

    /// The components of this identifier, in order.
    pub fn components(&self) -> (r: &Vec<u64>)
        ensures
            r@ == self@,
    {
        &self.components
    }

    /// How many components this identifier has.
    pub fn len(&self) -> (n: usize)
        ensures
            n == self@.len(),
    {
        self.components.len()
    }
}

impl PartialEq for Oid {
    fn eq(&self, other: &Self) -> (r: bool) {
        if self.components.len() != other.components.len() {
            return false;
        }
        let n = self.components.len();
        let mut i: usize = 0;
        while i < n
            invariant
                n == self@.len(),
                n == other@.len(),
                i <= n,
                forall|j: int| 0 <= j < i ==> self@[j] == other@[j],
            decreases n - i,
        {
            if self.components[i] != other.components[i] {
                return false;
            }
            i += 1;
        }
        proof {
            assert(self@ =~= other@);
        }
        true
    }
}

impl vstd::std_specs::cmp::PartialEqSpecImpl for Oid {
    open spec fn obeys_eq_spec() -> bool {
        true
    }

    open spec fn eq_spec(&self, other: &Self) -> bool {
        self@ == other@
    }
}

/// The native form of an identifier: its components followed by zero filling
/// up to the fixed capacity.  The filling is never read by consumers.
pub open spec fn oid_encoding(components: Seq<u64>) -> Seq<u64> {
    Seq::new(
        MAX_OID_LEN as nat,
        |i: int| if i < components.len() { components[i] } else { 0u64 },
    )
}

/// Marshals an identifier into the fixed-capacity array the native resolver
/// takes, together with the count of valid leading entries.  An identifier
/// with more components than the capacity cannot be represented and is
/// rejected.
pub fn encode_oid(snmp_oid: &Oid) -> (r: Result<(Vec<u64>, usize), Error>)
    ensures
        match r {
            Ok(p) => {
                &&& snmp_oid@.len() <= MAX_OID_LEN
                &&& p.0@ == oid_encoding(snmp_oid@)
                &&& p.1 == snmp_oid@.len()
            },
            Err(e) => {
                &&& snmp_oid@.len() > MAX_OID_LEN
                &&& e.spec_kind() == ErrorKind::InvalidData
                &&& e.spec_message() == "SNMP OID too long"@
            },
        },
{
    let n = snmp_oid.components.len();
    if n > MAX_OID_LEN {
        return Err(Error::invalid_data("SNMP OID too long"));
    }
    let mut n_oid: Vec<u64> = Vec::new();
    let mut i: usize = 0;
    while i < MAX_OID_LEN
        invariant
            n == snmp_oid@.len() <= MAX_OID_LEN,
            i <= MAX_OID_LEN,
            n_oid@.len() == i,
            forall|j: int| 0 <= j < i ==> n_oid@[j] == oid_encoding(snmp_oid@)[j],
        decreases MAX_OID_LEN - i,
    {
        if i < n {
            n_oid.push(snmp_oid.components[i]);
        } else {
            n_oid.push(0);
        }
        i += 1;
    }
    proof {
        assert(n_oid@ =~= oid_encoding(snmp_oid@));
    }
    Ok((n_oid, n))
}

/// Rebuilds an identifier from the first `len` entries of a native array.
/// A reported length that exceeds the array's true size is never trusted:
/// it is reported as a failure instead of being read past the end.
pub fn decode_oid(n_oid: &Vec<u64>, len: usize) -> (r: Result<Oid, Error>)
    ensures
        match r {
            Ok(o) => {
                &&& len <= n_oid@.len()
                &&& o@ == n_oid@.take(len as int)
            },
            Err(e) => {
                &&& len > n_oid@.len()
                &&& e.spec_kind() == ErrorKind::Failed
                &&& e.spec_message() == "Unable to create SNMP OID"@
            },
        },
{
    if len > n_oid.len() {
        return Err(Error::failed("Unable to create SNMP OID"));
    }
    let mut components: Vec<u64> = Vec::new();
    let mut i: usize = 0;
    while i < len
        invariant
            len <= n_oid@.len(),
            i <= len,
            components@ == n_oid@.take(i as int),
        decreases len - i,
    {
        components.push(n_oid[i]);
        proof {
            assert(components@ =~= n_oid@.take(i + 1));
        }
        i += 1;
    }
    Ok(Oid::new(components))
}

/// Interprets what the native name-to-identifier lookup reported: its status
/// (zero means the name was not found) and, on success, the in/out length it
/// left behind, which is checked against the array's true size before the
/// identifier is rebuilt.
pub fn oid_from_node_result(res: i32, n_oid: &Vec<u64>, len: usize) -> (r: Result<Oid, Error>)
    ensures
        match r {
            Ok(o) => {
                &&& res != 0
                &&& len <= n_oid@.len()
                &&& o@ == n_oid@.take(len as int)
            },
            Err(e) => {
                &&& e.spec_kind() == ErrorKind::Failed
                &&& res == 0 ==> e.spec_message() == "Unable to get SNMP OID"@
                &&& res != 0 ==> len > n_oid@.len() && e.spec_message()
                    == "Unable to create SNMP OID"@
            },
        },
{
    if res == 0 {
        Err(Error::failed("Unable to get SNMP OID"))
    } else {
        decode_oid(n_oid, len)
    }
}

/// Law: an identifier that fits the native capacity survives the round trip
/// through the native form — encoding it and decoding the filled prefix
/// yields the identifier's components unchanged.
pub proof fn lemma_oid_round_trip(components: Seq<u64>)
    requires
        components.len() <= MAX_OID_LEN,
    ensures
        oid_encoding(components).take(components.len() as int) == components,
{
    assert(oid_encoding(components).take(components.len() as int) =~= components);
}

} // verus!
