use crate::backend::{
    lemma_utf8_length_bound, PEM_MAX_CHARS,
    key_pair_matches, multiply_generator, pair_matches, pem_contents, pem_scalar,
    pkcs8_scalar, random_scalar, read_pem, scalar_of_pem, scalar_of_pkcs8, seal_key_pair,
    generator_multiple, sealed, PemContents,
};
use crate::curve::{curve_with_nid, Curve};
use crate::encoding::{base64url_bytes, base64url_text, decode_base64url, encode_base64url};
use crate::error::KeyError;
use crate::public::{
    checked_point, public_from_wire, public_result_view, public_to_wire, valid_public,
    PublicKeyDto, PublicKeyDtoView, PublicKeyParameters, PublicKeyView,
};
use vstd::prelude::*;

verus! {

/// An EC key pair: its public key, and the private key serialized canonically
/// as PKCS8 PEM text and as PKCS8 DER bytes.
#[derive(Clone, PartialEq, Eq)]
pub struct PrivateKeyParameters {
    public_key: PublicKeyParameters,
    pem: String,
    pkcs8: Vec<u8>,
}

/// The content of a key pair.
pub struct PrivateKeyView {
    pub public_key: PublicKeyView,
    pub pem: Seq<char>,
    pub pkcs8: Seq<u8>,
}

/// The JWK wire form of an EC private key: the public fields and the scalar.
#[derive(Clone, PartialEq, Eq)]
pub struct PrivateKeyDto {
    /// The private scalar, base64url without padding.
    pub d: String,
    /// The public fields.
    pub public_key: PublicKeyDto,
}

/// The private JWK wire form, as character sequences.
pub struct PrivateKeyDtoView {
    pub d: Seq<char>,
    pub public_key: PublicKeyDtoView,
}

impl View for PrivateKeyParameters {
    type V = PrivateKeyView;

    closed spec fn view(&self) -> PrivateKeyView {
        PrivateKeyView { public_key: self.public_key@, pem: self.pem@, pkcs8: self.pkcs8@ }
    }
}

impl View for PrivateKeyDto {
    type V = PrivateKeyDtoView;

    open spec fn view(&self) -> PrivateKeyDtoView {
        PrivateKeyDtoView { d: self.d@, public_key: self.public_key@ }
    }
}

/// The key pair made of the public key `p` and the scalar `d`: the pair must
/// match, and the canonical serializations must both read back as `d`; the
/// PEM text must also be short enough for the PEM reader to take.
pub open spec fn sealed_key(p: PublicKeyView, d: Seq<u8>) -> Result<PrivateKeyView, KeyError> {
    let nid = p.curve.spec_nid();
    let width = p.curve.spec_width();
    if !pair_matches(nid, d, p.x, p.y) {
        Err(KeyError::InvalidKeyMaterial)
    } else {
        match sealed(nid, d, p.x, p.y) {
            None => Err(KeyError::CryptoBackendFailure),
            Some((pem, der)) => if pem.len() <= PEM_MAX_CHARS && pem_scalar(pem, width) == Some(d)
                && pkcs8_scalar(der, width) == Some(d) {
                Ok(PrivateKeyView { public_key: p, pem, pkcs8: der })
            } else {
                Err(KeyError::CryptoBackendFailure)
            },
        }
    }
}

/// A key pair is valid when its public key is, and when the scalar stored in
/// its PEM text, with the public key, seals to exactly this key pair.
pub open spec fn valid_private(k: PrivateKeyView) -> bool {
    &&& valid_public(k.public_key)
    &&& match pem_scalar(k.pem, k.public_key.curve.spec_width()) {
        Some(d) => d.len() == k.public_key.curve.spec_width() && sealed_key(k.public_key, d) == Ok::<PrivateKeyView, KeyError>(k),
        None => false,
    }
}

/// The private scalar of a valid key pair.
pub open spec fn scalar_of(k: PrivateKeyView) -> Seq<u8> {
    pem_scalar(k.pem, k.public_key.curve.spec_width())->0
}

/// What decoding a private JWK gives: the public fields first, then the
/// scalar, which must have the curve's field width, then the pair itself.
pub open spec fn private_from_wire(w: PrivateKeyDtoView) -> Result<PrivateKeyView, KeyError> {
    match public_from_wire(w.public_key) {
        Err(e) => Err(e),
        Ok(p) => match base64url_bytes(w.d) {
            None => Err(KeyError::MalformedEncoding),
            Some(d) => if d.len() != p.curve.spec_width() {
                Err(KeyError::InvalidCoordinateLength)
            } else {
                sealed_key(p, d)
            },
        },
    }
}

/// The wire form of a valid key pair.
pub open spec fn private_to_wire(k: PrivateKeyView) -> PrivateKeyDtoView {
    PrivateKeyDtoView { d: base64url_text(scalar_of(k)), public_key: public_to_wire(k.public_key) }
}

/// The key pair that the scalar `d` yields on curve `c`, its public key
/// derived from `d`; every failure before the serialization is `fault`.
pub open spec fn key_from_scalar(c: Curve, d: Seq<u8>, fault: KeyError) -> Result<PrivateKeyView, KeyError> {
    match generator_multiple(c.spec_nid(), d, c.spec_width()) {
        None => Err(fault),
        Some((x, y)) => match checked_point(c, x, y) {
            Err(_) => Err(fault),
            Ok(p) => match sealed_key(p, d) {
                Err(KeyError::InvalidKeyMaterial) => Err(fault),
                r => r,
            },
        },
    }
}

/// What reading a PEM text gives.
pub open spec fn private_from_pem(text: Seq<char>) -> Result<PrivateKeyView, KeyError> {
    if text.len() > PEM_MAX_CHARS {
        Err(KeyError::InvalidPem)
    } else {
        pem_from_reader(text)
    }
}

/// What the PEM reader makes of a text it can take.
pub open spec fn pem_from_reader(text: Seq<char>) -> Result<PrivateKeyView, KeyError> {
    match pem_contents(text) {
        PemContents::Unreadable => Err(KeyError::InvalidPem),
        PemContents::NotEc => Err(KeyError::UnsupportedKeyType),
        PemContents::Ec(nid) => match nid {
            None => Err(KeyError::UnsupportedKeyType),
            Some(nid) => match curve_with_nid(nid) {
                None => Err(KeyError::UnsupportedKeyType),
                Some(c) => match pem_scalar(text, c.spec_width()) {
                    None => Err(KeyError::InvalidPem),
                    Some(d) => key_from_scalar(c, d, KeyError::InvalidPem),
                },
            },
        },
    }
}

/// A key pair, if any, as its view.
pub open spec fn private_result_view(r: Result<PrivateKeyParameters, KeyError>) -> Result<PrivateKeyView, KeyError> {
    match r {
        Ok(k) => Ok(k@),
        Err(e) => Err(e),
    }
}

/// The textual rendering of a key pair whose public key is `p`: its wire
/// fields and a fixed marker in place of everything private.
pub open spec fn redacted_rendering(p: PublicKeyView) -> Seq<char> {
    let w = public_to_wire(p);
    "PrivateKeyParameters { public_key: { crv: "@ + w.crv + ", x: "@ + w.x + ", y: "@ + w.y
        + " }, private_key: <redacted> }"@
}

impl PrivateKeyParameters {
    /// The key pair's invariant.
    pub open spec fn wf(&self) -> bool {
        valid_private(self@)
    }

    /// Seals a valid public key and a scalar of the curve's width into a key
    /// pair, after checking that they belong together.
    fn seal(public_key: PublicKeyParameters, d: &[u8]) -> (r: Result<PrivateKeyParameters, KeyError>)
        requires
            public_key.wf(),
            d@.len() == public_key@.curve.spec_width(),
        ensures
            private_result_view(r) == sealed_key(public_key@, d@),
            r matches Ok(k) ==> k.wf(),
    {
        let curve = public_key.curve();
        let nid = curve.nid();
        let width = curve.field_width();
        let x = public_key.x();
        let y = public_key.y();
        if !key_pair_matches(nid, d, x, y) {
            return Err(KeyError::InvalidKeyMaterial);
        }
        let (pem, pkcs8) = match seal_key_pair(nid, d, x, y) {
            Some(sealed) => sealed,
            None => return Err(KeyError::CryptoBackendFailure),
        };
        if pem.as_str().unicode_len() > PEM_MAX_CHARS {
            return Err(KeyError::CryptoBackendFailure);
        }
        proof {
            lemma_utf8_length_bound(pem@);
        }
        let from_pem = scalar_of_pem(pem.as_str(), width);
        let from_der = scalar_of_pkcs8(pkcs8.as_slice(), width);
        let consistent = match (from_pem, from_der) {
            (Some(a), Some(b)) => bytes_equal(a.as_slice(), d) && bytes_equal(b.as_slice(), d),
            _ => false,
        };
        if !consistent {
            return Err(KeyError::CryptoBackendFailure);
        }
        let k = PrivateKeyParameters { public_key, pem, pkcs8 };
        proof {
            assert(pem_scalar(k@.pem, width) == Some(d@));
        }
        Ok(k)
    }

    /// The key pair whose scalar is `d` on `curve`, its public key derived
    /// from `d`. Failures before serialization are reported as `fault`.
    pub fn from_scalar(curve: Curve, d: &[u8], fault: KeyError) -> (r: Result<PrivateKeyParameters, KeyError>)
        requires
            d@.len() == curve.spec_width(),
        ensures
            private_result_view(r) == key_from_scalar(curve, d@, fault),
            r matches Ok(k) ==> k.wf(),
    {
        let (x, y) = match multiply_generator(curve.nid(), d, curve.field_width()) {
            Some(point) => point,
            None => return Err(fault),
        };
        let public_key = match PublicKeyParameters::from_coordinates(curve, x, y) {
            Ok(p) => p,
            Err(_) => return Err(fault),
        };
        match PrivateKeyParameters::seal(public_key, d) {
            Err(KeyError::InvalidKeyMaterial) => Err(fault),
            r => r,
        }
    }

    /// Generates a fresh key pair on `curve`. Fails only with
    /// `CryptoBackendFailure`.
    pub fn generate(curve: Curve) -> (r: Result<PrivateKeyParameters, KeyError>)
        ensures
            match r {
                Ok(k) => k.wf() && k@.public_key.curve == curve,
                Err(e) => e == KeyError::CryptoBackendFailure,
            },
    {
        let d = match random_scalar(curve.nid(), curve.field_width()) {
            Some(d) => d,
            None => return Err(KeyError::CryptoBackendFailure),
        };
        PrivateKeyParameters::from_scalar(curve, d.as_slice(), KeyError::CryptoBackendFailure)
    }

    /// Reads an EC private key from PEM text, in any container the backend
    /// accepts, and re-serializes it canonically. Only the curve and the
    /// scalar are taken from the text: the public key is derived from the
    /// scalar, so inputs that differ only in their container, or in a public
    /// point stored beside the scalar, converge. Fails with `InvalidPem` when
    /// no valid private key can be read, and with `UnsupportedKeyType` when
    /// the key is not an EC key on a registered curve.
    pub fn from_pem(pem: &str) -> (r: Result<PrivateKeyParameters, KeyError>)
        ensures
            private_result_view(r) == private_from_pem(pem@),
            r matches Ok(k) ==> k.wf(),
    {
        if pem.unicode_len() > PEM_MAX_CHARS {
            return Err(KeyError::InvalidPem);
        }
        proof {
            lemma_utf8_length_bound(pem@);
        }
        let nid = match read_pem(pem) {
            PemContents::Unreadable => return Err(KeyError::InvalidPem),
            PemContents::NotEc => return Err(KeyError::UnsupportedKeyType),
            PemContents::Ec(None) => return Err(KeyError::UnsupportedKeyType),
            PemContents::Ec(Some(nid)) => nid,
        };
        let curve = match Curve::from_nid(nid) {
            Some(c) => c,
            None => return Err(KeyError::UnsupportedKeyType),
        };
        let d = match scalar_of_pem(pem, curve.field_width()) {
            Some(d) => d,
            None => return Err(KeyError::InvalidPem),
        };
        PrivateKeyParameters::from_scalar(curve, d.as_slice(), KeyError::InvalidPem)
    }

    /// Decodes the private JWK wire form: the public fields as
    /// `PublicKeyParameters::from_dto` does, then the scalar, which must be
    /// valid base64url of the curve's field width, then the check that the
    /// scalar yields the public point (`InvalidKeyMaterial` otherwise).
    pub fn from_dto(dto: &PrivateKeyDto) -> (r: Result<PrivateKeyParameters, KeyError>)
        ensures
            private_result_view(r) == private_from_wire(dto@),
            r matches Ok(k) ==> k.wf(),
    {
        let public_key = match PublicKeyParameters::from_dto(&dto.public_key) {
            Ok(p) => p,
            Err(e) => return Err(e),
        };
        let d = match decode_base64url(dto.d.as_str()) {
            Some(d) => d,
            None => return Err(KeyError::MalformedEncoding),
        };
        if d.len() != public_key.curve().field_width() {
            return Err(KeyError::InvalidCoordinateLength);
        }
        PrivateKeyParameters::seal(public_key, d.as_slice())
    }

    /// Encodes the key pair in its JWK wire form. Decoding the result gives
    /// this key pair back, its PEM and DER bytes included.
    pub fn to_dto(&self) -> (r: PrivateKeyDto)
        requires
            self.wf(),
        ensures
            r@ == private_to_wire(self@),
            private_from_wire(r@) == Ok::<PrivateKeyView, KeyError>(self@),
    {
        let width = self.public_key.curve().field_width();
        proof {
            lemma_utf8_length_bound(self@.pem);
        }
        let d = match scalar_of_pem(self.pem.as_str(), width) {
            Some(d) => d,
            None => {
                proof {
                    assert(false);
                }
                Vec::new()
            },
        };
        let public_key = self.public_key.to_dto();
        PrivateKeyDto { d: encode_base64url(d.as_slice()), public_key }
    }

    /// A rendering for logs and debugging. It shows the public key and a
    /// redaction marker, and depends on nothing else.
    pub fn debug_string(&self) -> (r: String)
        requires
            self.wf(),
        ensures
            r@ == redacted_rendering(self@.public_key),
    {
        let public_key = self.public_key.to_dto();
        let mut out = String::from_str("PrivateKeyParameters { public_key: { crv: ");
        out.append(public_key.crv.as_str());
        out.append(", x: ");
        out.append(public_key.x.as_str());
        out.append(", y: ");
        out.append(public_key.y.as_str());
        out.append(" }, private_key: <redacted> }");
        out
    }

    /// The public key of the pair.
    pub fn public_key(&self) -> (r: &PublicKeyParameters)
        ensures
            r@ == self@.public_key,
    {
        &self.public_key
    }

    /// The canonical PKCS8 PEM text.
    pub fn pem(&self) -> (r: &str)
        ensures
            r@ == self@.pem,
    {
        self.pem.as_str()
    }

    /// The canonical PKCS8 DER bytes.
    pub fn pkcs8(&self) -> (r: &[u8])
        ensures
            r@ == self@.pkcs8,
    {
        self.pkcs8.as_slice()
    }
}

/// Whether two byte strings are equal.
fn bytes_equal(a: &[u8], b: &[u8]) -> (r: bool)
    ensures
        r == (a@ == b@),
{
    if a.len() != b.len() {
        return false;
    }
    let mut i: usize = 0;
    while i < a.len()
        invariant
            a@.len() == b@.len(),
            0 <= i <= a@.len(),
            a@.subrange(0, i as int) == b@.subrange(0, i as int),
        decreases a@.len() - i,
    {
        if a[i] != b[i] {
            return false;
        }
        proof {
            assert(a@.subrange(0, i + 1) == a@.subrange(0, i as int).push(a@[i as int]));
            assert(b@.subrange(0, i + 1) == b@.subrange(0, i as int).push(b@[i as int]));
        }
        i = i + 1;
    }
    proof {
        assert(a@ == a@.subrange(0, i as int));
        assert(b@ == b@.subrange(0, i as int));
    }
    true
}

} // verus!
