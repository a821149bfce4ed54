use vstd::prelude::*;

verus! {

/// A named curve of the JOSE curve registry.
#[derive(Clone, Copy, Debug, PartialEq, Eq, Structural)]
pub enum Curve {
    /// NIST P-256 (prime256v1).
    P256,
    /// NIST P-384 (secp384r1).
    P384,
    /// NIST P-521 (secp521r1).
    P521,
}

/// OpenSSL's numeric identifier of prime256v1.
pub const NID_P256: i32 = 415;
/// OpenSSL's numeric identifier of secp384r1.
pub const NID_P384: i32 = 715;
/// OpenSSL's numeric identifier of secp521r1.
pub const NID_P521: i32 = 716;

/// What the cryptographic backend needs to construct and check points of a curve.
#[derive(Clone, Copy, Debug, PartialEq, Eq, Structural)]
pub struct GroupParameters {
    /// The backend's numeric identifier of the group.
    pub nid: i32,
    /// The byte width of a field element (and of a scalar) on the wire.
    pub field_bytes: usize,
}

impl Curve {
    /// The IANA JOSE name of the curve.
    pub open spec fn spec_name(self) -> Seq<char> {
        match self {
            Curve::P256 => "P-256"@,
            Curve::P384 => "P-384"@,
            Curve::P521 => "P-521"@,
        }
    }

    /// The backend identifier of the curve's group.
    pub open spec fn spec_nid(self) -> i32 {
        match self {
            Curve::P256 => NID_P256,
            Curve::P384 => NID_P384,
            Curve::P521 => NID_P521,
        }
    }

    /// The byte width of the curve's field elements.
    pub open spec fn spec_width(self) -> usize {
        match self {
            Curve::P256 => 32,
            Curve::P384 => 48,
            Curve::P521 => 66,
        }
    }

    pub open spec fn spec_group(self) -> GroupParameters {
        GroupParameters { nid: self.spec_nid(), field_bytes: self.spec_width() }
    }

    /// The group parameters of the curve; total over the registry.
    pub fn resolve(&self) -> (r: GroupParameters)
        ensures
            r == self.spec_group(),
    {
        match self {
            Curve::P256 => GroupParameters { nid: NID_P256, field_bytes: 32 },
            Curve::P384 => GroupParameters { nid: NID_P384, field_bytes: 48 },
            Curve::P521 => GroupParameters { nid: NID_P521, field_bytes: 66 },
        }
    }

    /// The byte width of the curve's field elements.
    pub fn field_width(&self) -> (r: usize)
        ensures
            r == self.spec_width(),
    {
        self.resolve().field_bytes
    }

    /// The backend identifier of the curve's group.
    pub fn nid(&self) -> (r: i32)
        ensures
            r == self.spec_nid(),
    {
        self.resolve().nid
    }

    /// The IANA JOSE name of the curve.
    pub fn name(&self) -> (r: &'static str)
        ensures
            r@ == self.spec_name(),
    {
        match self {
            Curve::P256 => "P-256",
            Curve::P384 => "P-384",
            Curve::P521 => "P-521",
        }
    }

    /// Looks a wire name up in the registry.
    pub fn from_name(name: &str) -> (r: Option<Curve>)
        ensures
            r == curve_named(name@),
    {
        let given = name.to_owned();
        if given == String::from_str("P-256") {
            Some(Curve::P256)
        } else if given == String::from_str("P-384") {
            Some(Curve::P384)
        } else if given == String::from_str("P-521") {
            Some(Curve::P521)
        } else {
            None
        }
    }

    /// Looks a backend group identifier up in the registry.
    pub fn from_nid(nid: i32) -> (r: Option<Curve>)
        ensures
            r == curve_with_nid(nid),
    {
        if nid == NID_P256 {
            Some(Curve::P256)
        } else if nid == NID_P384 {
            Some(Curve::P384)
        } else if nid == NID_P521 {
            Some(Curve::P521)
        } else {
            None
        }
    }
}

/// The registered curve whose JOSE name is `name`, if any.
pub open spec fn curve_named(name: Seq<char>) -> Option<Curve> {
    if name == Curve::P256.spec_name() {
        Some(Curve::P256)
    } else if name == Curve::P384.spec_name() {
        Some(Curve::P384)
    } else if name == Curve::P521.spec_name() {
        Some(Curve::P521)
    } else {
        None
    }
}

/// The registered curve whose backend identifier is `nid`, if any.
pub open spec fn curve_with_nid(nid: i32) -> Option<Curve> {
    if nid == NID_P256 {
        Some(Curve::P256)
    } else if nid == NID_P384 {
        Some(Curve::P384)
    } else if nid == NID_P521 {
        Some(Curve::P521)
    } else {
        None
    }
}

/// Each curve's name leads back to the curve, and so does its group identifier.
pub proof fn lemma_registry_inverse(c: Curve)
    ensures
        curve_named(c.spec_name()) == Some(c),
        curve_with_nid(c.spec_nid()) == Some(c),
{
    reveal_strlit("P-256");
    reveal_strlit("P-384");
    reveal_strlit("P-521");
    assert("P-256"@[2] != "P-384"@[2]);
    assert("P-256"@[2] != "P-521"@[2]);
    assert("P-384"@[2] != "P-521"@[2]);
}

} // verus!
