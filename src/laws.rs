//! Laws of the codecs, stated over the same spec functions as the codecs'
//! own contracts.
use crate::backend::{pair_matches, pem_contents, PemContents, PEM_MAX_CHARS};
use crate::curve::{curve_named, Curve};
use crate::encoding::base64url_bytes;
use crate::error::KeyError;
use crate::private::{
    private_from_pem, private_from_wire, redacted_rendering, PrivateKeyDtoView, PrivateKeyView,
};
use crate::public::{public_from_wire, PublicKeyDtoView, PublicKeyView};
use vstd::prelude::*;

verus! {

/// A public JWK on a registered curve whose coordinates are valid base64url,
/// but one of which does not have the curve's field width, is rejected with
/// `InvalidCoordinateLength`: it is neither padded nor truncated.
pub proof fn lemma_wrong_width_rejected(w: PublicKeyDtoView, c: Curve, x: Seq<u8>, y: Seq<u8>)
    requires
        curve_named(w.crv) == Some(c),
        base64url_bytes(w.x) == Some(x),
        base64url_bytes(w.y) == Some(y),
        x.len() != c.spec_width() || y.len() != c.spec_width(),
    ensures
        public_from_wire(w) == Err::<PublicKeyView, KeyError>(KeyError::InvalidCoordinateLength),
{
}

/// A public JWK whose curve name is not registered is rejected with
/// `UnknownCurve`, whatever its coordinates.
pub proof fn lemma_unknown_curve_rejected(w: PublicKeyDtoView)
    requires
        curve_named(w.crv) is None,
    ensures
        public_from_wire(w) == Err::<PublicKeyView, KeyError>(KeyError::UnknownCurve),
{
}

/// A private JWK whose public fields decode, and whose scalar has the right
/// width but does not yield the declared public point, is rejected with
/// `InvalidKeyMaterial`; it never decodes to a key pair.
pub proof fn lemma_mismatched_scalar_rejected(w: PrivateKeyDtoView, p: PublicKeyView, d: Seq<u8>)
    requires
        public_from_wire(w.public_key) == Ok::<PublicKeyView, KeyError>(p),
        base64url_bytes(w.d) == Some(d),
        d.len() == p.curve.spec_width(),
        !pair_matches(p.curve.spec_nid(), d, p.x, p.y),
    ensures
        private_from_wire(w) == Err::<PrivateKeyView, KeyError>(KeyError::InvalidKeyMaterial),
{
}

/// PEM text that holds a private key of another type than EC (an RSA key,
/// say) is rejected with `UnsupportedKeyType`, unless it is too long for the
/// PEM reader, which rejects it with `InvalidPem` before reading.
pub proof fn lemma_non_ec_pem_rejected(text: Seq<char>)
    requires
        text.len() <= PEM_MAX_CHARS,
        pem_contents(text) == PemContents::NotEc,
    ensures
        private_from_pem(text) == Err::<PrivateKeyView, KeyError>(KeyError::UnsupportedKeyType),
{
}

/// Two key pairs with the same public key render identically, however their
/// scalars, PEM texts and DER bytes differ: the rendering holds none of them.
pub proof fn lemma_rendering_hides_private_parts(a: PrivateKeyView, b: PrivateKeyView)
    requires
        a.public_key == b.public_key,
    ensures
        redacted_rendering(a.public_key) == redacted_rendering(b.public_key),
{
}

} // verus!
