//! Elliptic-curve key material for JOSE: curves, public and private key
//! parameters, their JWK wire forms, and the predicates that decide whether
//! a bearer token accompanies an outgoing request.
pub mod backend;
pub mod curve;
pub mod encoding;
pub mod error;
pub mod laws;
pub mod predicate;
pub mod private;
pub mod public;

pub use curve::{Curve, GroupParameters};
pub use error::KeyError;
pub use predicate::{
    attaches_token, bearer_authorization, AccessTokenPredicate, AndPredicate, ExactHostMatch,
    HttpsOnly, OrPredicate, PredicateResult, RequestTarget,
};
pub use private::{PrivateKeyDto, PrivateKeyParameters};
pub use public::{PublicKeyDto, PublicKeyParameters};
