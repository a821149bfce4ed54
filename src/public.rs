use crate::backend::{on_curve, point_on_curve};
use crate::curve::{curve_named, lemma_registry_inverse, Curve};
use crate::encoding::{base64url_bytes, base64url_text, decode_base64url, encode_base64url};
use crate::error::KeyError;
use vstd::prelude::*;

verus! {

/// An EC public key: a curve and the affine coordinates of a point on it,
/// each coordinate held as big-endian bytes of the curve's field width.
#[derive(Clone, Debug, PartialEq, Eq)]
pub struct PublicKeyParameters {
    curve: Curve,
    x: Vec<u8>,
    y: Vec<u8>,
}

/// The mathematical content of a public key.
pub struct PublicKeyView {
    pub curve: Curve,
    pub x: Seq<u8>,
    pub y: Seq<u8>,
}

/// The JWK wire form of an EC public key.
#[derive(Clone, Debug, PartialEq, Eq)]
pub struct PublicKeyDto {
    /// The curve's JOSE name.
    pub crv: String,
    /// The x coordinate, base64url without padding.
    pub x: String,
    /// The y coordinate, base64url without padding.
    pub y: String,
}

/// The JWK wire form, as character sequences.
pub struct PublicKeyDtoView {
    pub crv: Seq<char>,
    pub x: Seq<char>,
    pub y: Seq<char>,
}

impl View for PublicKeyParameters {
    type V = PublicKeyView;

    closed spec fn view(&self) -> PublicKeyView {
        PublicKeyView { curve: self.curve, x: self.x@, y: self.y@ }
    }
}

impl View for PublicKeyDto {
    type V = PublicKeyDtoView;

    open spec fn view(&self) -> PublicKeyDtoView {
        PublicKeyDtoView { crv: self.crv@, x: self.x@, y: self.y@ }
    }
}

/// Both coordinates have the curve's field width and name a point of the
/// curve other than the identity.
pub open spec fn valid_public(p: PublicKeyView) -> bool {
    &&& p.x.len() == p.curve.spec_width()
    &&& p.y.len() == p.curve.spec_width()
    &&& on_curve(p.curve.spec_nid(), p.x, p.y)
}

/// The checks that coordinates undergo once decoded, in order.
pub open spec fn checked_point(c: Curve, x: Seq<u8>, y: Seq<u8>) -> Result<PublicKeyView, KeyError> {
    if x.len() != c.spec_width() || y.len() != c.spec_width() {
        Err(KeyError::InvalidCoordinateLength)
    } else if !on_curve(c.spec_nid(), x, y) {
        Err(KeyError::PointNotOnCurve)
    } else {
        Ok(PublicKeyView { curve: c, x, y })
    }
}

/// What decoding a public JWK gives: curve lookup, then base64url, then the
/// width and curve-membership checks.
pub open spec fn public_from_wire(w: PublicKeyDtoView) -> Result<PublicKeyView, KeyError> {
    match curve_named(w.crv) {
        None => Err(KeyError::UnknownCurve),
        Some(c) => match (base64url_bytes(w.x), base64url_bytes(w.y)) {
            (Some(x), Some(y)) => checked_point(c, x, y),
            _ => Err(KeyError::MalformedEncoding),
        },
    }
}

/// The wire form of a public key.
pub open spec fn public_to_wire(p: PublicKeyView) -> PublicKeyDtoView {
    PublicKeyDtoView { crv: p.curve.spec_name(), x: base64url_text(p.x), y: base64url_text(p.y) }
}

/// A decoded public key, if any, as its view.
pub open spec fn public_result_view(r: Result<PublicKeyParameters, KeyError>) -> Result<PublicKeyView, KeyError> {
    match r {
        Ok(p) => Ok(p@),
        Err(e) => Err(e),
    }
}

impl PublicKeyParameters {
    /// The key's invariant.
    pub open spec fn wf(&self) -> bool {
        valid_public(self@)
    }

    /// Builds a public key from fixed-width coordinates, checking the width
    /// and that the point lies on the curve.
    pub fn from_coordinates(curve: Curve, x: Vec<u8>, y: Vec<u8>) -> (r: Result<PublicKeyParameters, KeyError>)
        ensures
            public_result_view(r) == checked_point(curve, x@, y@),
            r matches Ok(p) ==> p.wf(),
    {
        let width = curve.field_width();
        if x.len() != width || y.len() != width {
            return Err(KeyError::InvalidCoordinateLength);
        }
        if !point_on_curve(curve.nid(), x.as_slice(), y.as_slice()) {
            return Err(KeyError::PointNotOnCurve);
        }
        Ok(PublicKeyParameters { curve, x, y })
    }

    /// Decodes the JWK wire form. Fails with `UnknownCurve`, `MalformedEncoding`,
    /// `InvalidCoordinateLength` or `PointNotOnCurve`, checked in that order.
    pub fn from_dto(dto: &PublicKeyDto) -> (r: Result<PublicKeyParameters, KeyError>)
        ensures
            public_result_view(r) == public_from_wire(dto@),
            r matches Ok(p) ==> p.wf(),
    {
        let curve = match Curve::from_name(dto.crv.as_str()) {
            Some(c) => c,
            None => return Err(KeyError::UnknownCurve),
        };
        let x = decode_base64url(dto.x.as_str());
        let y = decode_base64url(dto.y.as_str());
        match (x, y) {
            (Some(x), Some(y)) => PublicKeyParameters::from_coordinates(curve, x, y),
            _ => Err(KeyError::MalformedEncoding),
        }
    }

    /// Encodes the key in its JWK wire form. Decoding the result gives this
    /// key back.
    pub fn to_dto(&self) -> (r: PublicKeyDto)
        requires
            self.wf(),
        ensures
            r@ == public_to_wire(self@),
            public_from_wire(r@) == Ok::<PublicKeyView, KeyError>(self@),
    {
        let crv = String::from_str(self.curve.name());
        let x = encode_base64url(self.x.as_slice());
        let y = encode_base64url(self.y.as_slice());
        proof {
            lemma_registry_inverse(self.curve);
        }
        PublicKeyDto { crv, x, y }
    }

    /// The key's curve.
    pub fn curve(&self) -> (r: Curve)
        ensures
            r == self@.curve,
    {
        self.curve
    }

    /// The x coordinate, big-endian, of the curve's field width.
    pub fn x(&self) -> (r: &[u8])
        ensures
            r@ == self@.x,
    {
        self.x.as_slice()
    }

    /// The y coordinate, big-endian, of the curve's field width.
    pub fn y(&self) -> (r: &[u8])
        ensures
            r@ == self@.y,
    {
        self.y.as_slice()
    }
}

} // verus!
