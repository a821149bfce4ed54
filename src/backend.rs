//! The calls into OpenSSL, each over plain byte strings and the group's
//! numeric identifier.
use openssl::bn::{BigNum, BigNumContext};
use openssl::ec::{EcGroup, EcKey, EcPoint};
use openssl::nid::Nid;
use openssl::pkey::PKey;
use vstd::prelude::*;
use vstd::utf8::{encode_scalar, encode_utf8};

verus! {

/// What a PEM text turned out to hold.
#[derive(Clone, Copy, Debug, PartialEq, Eq, Structural)]
pub enum PemContents {
    /// No private key could be read from the text.
    Unreadable,
    /// A private key that is not an EC key.
    NotEc,
    /// An EC private key; the backend identifier of its named curve, if it has one.
    Ec(Option<i32>),
}

/// Whether `(x, y)`, read as big-endian integers, is a point of the group
/// `nid` other than the identity.
pub uninterp spec fn on_curve(nid: i32, x: Seq<u8>, y: Seq<u8>) -> bool;

/// Whether the scalar `d` and the point `(x, y)` form a key pair of the group
/// `nid`: the scalar lies between 1 and the group order minus 1, and the
/// point is `d` times the generator.
pub uninterp spec fn pair_matches(nid: i32, d: Seq<u8>, x: Seq<u8>, y: Seq<u8>) -> bool;

/// The PKCS8 PEM text and the PKCS8 DER bytes of the key pair `(d, (x, y))`
/// of the group `nid`.
pub uninterp spec fn sealed(nid: i32, d: Seq<u8>, x: Seq<u8>, y: Seq<u8>) -> Option<(Seq<char>, Seq<u8>)>;

/// The affine coordinates, `width` bytes each, of `d` times the generator of
/// the group `nid`.
pub uninterp spec fn generator_multiple(nid: i32, d: Seq<u8>, width: usize) -> Option<(Seq<u8>, Seq<u8>)>;

/// What the PEM text `text` holds, read with the empty passphrase.
pub uninterp spec fn pem_contents(text: Seq<char>) -> PemContents;

/// The private scalar, `width` bytes wide, of the EC key in the PEM text
/// `text`, read with the empty passphrase.
pub uninterp spec fn pem_scalar(text: Seq<char>, width: usize) -> Option<Seq<u8>>;

/// The private scalar, `width` bytes wide, of the EC key in the PKCS8 DER bytes `der`.
pub uninterp spec fn pkcs8_scalar(der: Seq<u8>, width: usize) -> Option<Seq<u8>>;

/// The longest text, in characters, that the PEM readers are handed: at four
/// bytes a character at most, its UTF-8 form fits a `c_int`.
pub const PEM_MAX_CHARS: usize = 536870911;

/// A character takes at most four bytes in UTF-8.
pub proof fn lemma_utf8_length_bound(s: Seq<char>)
    ensures
        encode_utf8(s).len() <= 4 * s.len(),
    decreases s.len(),
{
    if s.len() > 0 {
        lemma_utf8_length_bound(s.drop_first());
        assert(encode_scalar(s[0] as u32).len() <= 4);
    }
}

/// Relies on `EcKey::from_public_key_affine_coordinates`, which sets the point
/// and checks it with `EC_KEY_check_key`: on the curve, not the identity.
#[verifier::external_body]
pub(crate) fn point_on_curve(nid: i32, x: &[u8], y: &[u8]) -> (r: bool)
    requires
        x@.len() <= i32::MAX,
        y@.len() <= i32::MAX,
    ensures
        r == on_curve(nid, x@, y@),
{
    let Ok(group) = EcGroup::from_curve_name(Nid::from_raw(nid)) else { return false };
    let (Ok(x), Ok(y)) = (BigNum::from_slice(x), BigNum::from_slice(y)) else { return false };
    EcKey::from_public_key_affine_coordinates(&group, &x, &y).is_ok()
}

/// Relies on `EcKey::check_key` (`EC_KEY_check_key`) on a key built with
/// `EcKey::from_private_components`: it holds when the public point is the
/// scalar times the generator.
#[verifier::external_body]
pub(crate) fn key_pair_matches(nid: i32, d: &[u8], x: &[u8], y: &[u8]) -> (r: bool)
    requires
        d@.len() <= i32::MAX,
        x@.len() <= i32::MAX,
        y@.len() <= i32::MAX,
    ensures
        r == pair_matches(nid, d@, x@, y@),
{
    let Ok(group) = EcGroup::from_curve_name(Nid::from_raw(nid)) else { return false };
    let (Ok(x), Ok(y), Ok(d)) = (BigNum::from_slice(x), BigNum::from_slice(y), BigNum::from_slice(d)) else { return false };
    let Ok(public) = EcKey::from_public_key_affine_coordinates(&group, &x, &y) else { return false };
    let Ok(key) = EcKey::from_private_components(&group, &d, public.public_key()) else { return false };
    key.check_key().is_ok()
}

/// Relies on `PKey::private_key_to_pem_pkcs8` and `PKey::private_key_to_pkcs8`
/// for a key built with `EcKey::from_private_components`.
#[verifier::external_body]
pub(crate) fn seal_key_pair(nid: i32, d: &[u8], x: &[u8], y: &[u8]) -> (r: Option<(String, Vec<u8>)>)
    requires
        d@.len() <= i32::MAX,
        x@.len() <= i32::MAX,
        y@.len() <= i32::MAX,
    ensures
        match r {
            Some((pem, der)) => sealed(nid, d@, x@, y@) == Some((pem@, der@)),
            None => sealed(nid, d@, x@, y@) is None,
        },
{
    let group = EcGroup::from_curve_name(Nid::from_raw(nid)).ok()?;
    let (x, y, d) = (BigNum::from_slice(x).ok()?, BigNum::from_slice(y).ok()?, BigNum::from_slice(d).ok()?);
    let public = EcKey::from_public_key_affine_coordinates(&group, &x, &y).ok()?;
    let key = PKey::from_ec_key(EcKey::from_private_components(&group, &d, public.public_key()).ok()?).ok()?;
    let pem = String::from_utf8(key.private_key_to_pem_pkcs8().ok()?).ok()?;
    Some((pem, key.private_key_to_pkcs8().ok()?))
}

/// Relies on `EcPointRef::mul_generator2` and `EcPointRef::affine_coordinates`,
/// with `BigNumRef::to_vec_padded`, which gives exactly `width` bytes or fails.
#[verifier::external_body]
pub(crate) fn multiply_generator(nid: i32, d: &[u8], width: usize) -> (r: Option<(Vec<u8>, Vec<u8>)>)
    requires
        d@.len() <= i32::MAX,
        width <= i32::MAX,
    ensures
        match r {
            Some((x, y)) => generator_multiple(nid, d@, width) == Some((x@, y@)) && x@.len() == width && y@.len() == width,
            None => generator_multiple(nid, d@, width) is None,
        },
{
    let group = EcGroup::from_curve_name(Nid::from_raw(nid)).ok()?;
    let (mut ctx, n) = (BigNumContext::new().ok()?, BigNum::from_slice(d).ok()?);
    let mut point = EcPoint::new(&group).ok()?;
    point.mul_generator2(&group, &n, &mut ctx).ok()?;
    let (mut x, mut y) = (BigNum::new().ok()?, BigNum::new().ok()?);
    point.affine_coordinates(&group, &mut x, &mut y, &mut ctx).ok()?;
    Some((x.to_vec_padded(width as i32).ok()?, y.to_vec_padded(width as i32).ok()?))
}

/// Relies on `EcKey::generate` and `BigNumRef::to_vec_padded`: a fresh secret
/// scalar, exactly `width` bytes, when the backend succeeds.
#[verifier::external_body]
pub(crate) fn random_scalar(nid: i32, width: usize) -> (r: Option<Vec<u8>>)
    requires
        width <= i32::MAX,
    ensures
        r matches Some(d) ==> d@.len() == width,
{
    let group = EcGroup::from_curve_name(Nid::from_raw(nid)).ok()?;
    EcKey::generate(&group).ok()?.private_key().to_vec_padded(width as i32).ok()
}

/// Relies on `PKey::private_key_from_pem_passphrase`, `PKeyRef::ec_key` and
/// `EcGroupRef::curve_name`. The empty passphrase is given so that OpenSSL
/// never asks for one on the terminal: an encrypted PEM reads as unreadable
/// unless it was encrypted with the empty passphrase. The reader asserts that
/// the text is at most `c_int::MAX` bytes long.
#[verifier::external_body]
pub(crate) fn read_pem(text: &str) -> (r: PemContents)
    requires
        encode_utf8(text@).len() <= i32::MAX,
    ensures
        r == pem_contents(text@),
{
    let Ok(key) = PKey::private_key_from_pem_passphrase(text.as_bytes(), b"") else { return PemContents::Unreadable };
    let Ok(ec) = key.ec_key() else { return PemContents::NotEc };
    PemContents::Ec(ec.group().curve_name().map(|n| n.as_raw()))
}

/// Relies on `PKey::private_key_from_pem_passphrase`, `EcKeyRef::private_key`
/// and `BigNumRef::to_vec_padded`, which gives exactly `width` bytes or fails.
/// The empty passphrase is given so that OpenSSL never asks for one on the
/// terminal. The reader asserts that the text is at most `c_int::MAX` bytes.
#[verifier::external_body]
pub(crate) fn scalar_of_pem(text: &str, width: usize) -> (r: Option<Vec<u8>>)
    requires
        encode_utf8(text@).len() <= i32::MAX,
        width <= i32::MAX,
    ensures
        match r {
            Some(d) => pem_scalar(text@, width) == Some(d@) && d@.len() == width,
            None => pem_scalar(text@, width) is None,
        },
{
    let key = PKey::private_key_from_pem_passphrase(text.as_bytes(), b"").ok()?.ec_key().ok()?;
    key.private_key().to_vec_padded(width as i32).ok()
}

/// Relies on `PKey::private_key_from_pkcs8`, `EcKeyRef::private_key` and
/// `BigNumRef::to_vec_padded`, which gives exactly `width` bytes or fails.
#[verifier::external_body]
pub(crate) fn scalar_of_pkcs8(der: &[u8], width: usize) -> (r: Option<Vec<u8>>)
    requires
        width <= i32::MAX,
    ensures
        match r {
            Some(d) => pkcs8_scalar(der@, width) == Some(d@) && d@.len() == width,
            None => pkcs8_scalar(der@, width) is None,
        },
{
    let key = PKey::private_key_from_pkcs8(der).ok()?.ec_key().ok()?;
    key.private_key().to_vec_padded(width as i32).ok()
}

} // verus!
