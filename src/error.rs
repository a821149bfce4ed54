use vstd::prelude::*;

verus! {

/// Why a key could not be decoded, reconstructed or produced.
#[derive(Clone, Copy, Debug, PartialEq, Eq, Structural)]
pub enum KeyError {
    /// The wire curve name is not one of the registered curves.
    UnknownCurve,
    /// A base64url field holds characters outside the alphabet, or padding.
    MalformedEncoding,
    /// A coordinate or scalar does not have exactly the curve's field width.
    InvalidCoordinateLength,
    /// The affine point is not on the curve, or is the identity.
    PointNotOnCurve,
    /// The private scalar does not belong to the declared public point.
    InvalidKeyMaterial,
    /// The PEM text could not be parsed as a private key.
    InvalidPem,
    /// The PEM text holds a private key that is not an EC key on a registered curve.
    UnsupportedKeyType,
    /// The cryptographic backend failed to produce or serialize a key.
    CryptoBackendFailure,
}

} // verus!
