//! Predicates that decide whether an access token accompanies an outgoing
//! request, judged on the scheme and host of the request's URL.
use vstd::prelude::*;

verus! {

/// The parts of an outgoing request's URL that predicates look at.
#[derive(Clone, Debug, PartialEq, Eq)]
pub struct RequestTarget {
    scheme: String,
    host: Option<String>,
}

/// The scheme and host of a request target, as character sequences.
pub struct RequestTargetView {
    pub scheme: Seq<char>,
    pub host: Option<Seq<char>>,
}

impl View for RequestTarget {
    type V = RequestTargetView;

    closed spec fn view(&self) -> RequestTargetView {
        RequestTargetView {
            scheme: self.scheme@,
            host: match self.host {
                Some(h) => Some(h@),
                None => None,
            },
        }
    }
}

impl RequestTarget {
    /// A target with the given URL scheme and host.
    pub fn new(scheme: &str, host: Option<&str>) -> (r: RequestTarget)
        ensures
            r@.scheme == scheme@,
            r@.host == match host {
                Some(h) => Some(h@),
                None => None::<Seq<char>>,
            },
    {
        let host = match host {
            Some(h) => Some(h.to_owned()),
            None => None,
        };
        RequestTarget { scheme: scheme.to_owned(), host }
    }
}

/// The result of evaluating a predicate.
#[derive(Clone, Copy, Debug, PartialEq, Eq, Structural)]
#[must_use]
pub enum PredicateResult {
    /// Ignore the request.
    Ignore,
    /// Attach an access token to the request.
    Attach,
}

/// A predicate that decides whether or not an access token should be
/// attached to a request.
pub trait AccessTokenPredicate: Sized {
    /// The decision on a target.
    spec fn decides(&self, target: RequestTargetView) -> PredicateResult;

    /// Evaluates the predicate.
    fn evaluate(&self, target: &RequestTarget) -> (r: PredicateResult)
        ensures
            r == self.decides(target@),
    ;

    /// Composes two predicates with a logical and; the second is consulted
    /// only when the first attaches.
    fn and<P>(self, other: P) -> (r: AndPredicate<Self, P>)
        ensures
            r.first == self,
            r.second == other,
    {
        AndPredicate { first: self, second: other }
    }

    /// Composes two predicates with a logical or; the second is consulted
    /// only when the first ignores.
    fn or<P>(self, other: P) -> (r: OrPredicate<Self, P>)
        ensures
            r.first == self,
            r.second == other,
    {
        OrPredicate { first: self, second: other }
    }
}

/// Only attach an access token if the request is sent over HTTPS.
#[derive(Clone, Copy, Debug)]
pub struct HttpsOnly;

impl AccessTokenPredicate for HttpsOnly {
    open spec fn decides(&self, target: RequestTargetView) -> PredicateResult {
        if target.scheme == "https"@ {
            PredicateResult::Attach
        } else {
            PredicateResult::Ignore
        }
    }

    fn evaluate(&self, target: &RequestTarget) -> (r: PredicateResult) {
        if target.scheme == String::from_str("https") {
            PredicateResult::Attach
        } else {
            PredicateResult::Ignore
        }
    }
}

/// Only attach an access token if the request is sent to exactly this host.
#[derive(Clone, Debug)]
pub struct ExactHostMatch {
    host: String,
}

impl View for ExactHostMatch {
    type V = Seq<char>;

    closed spec fn view(&self) -> Seq<char> {
        self.host@
    }
}

impl ExactHostMatch {
    /// A predicate that matches the host `host`.
    pub fn new(host: &str) -> (r: ExactHostMatch)
        ensures
            r@ == host@,
    {
        ExactHostMatch { host: host.to_owned() }
    }
}

impl AccessTokenPredicate for ExactHostMatch {
    open spec fn decides(&self, target: RequestTargetView) -> PredicateResult {
        if target.host == Some(self@) {
            PredicateResult::Attach
        } else {
            PredicateResult::Ignore
        }
    }

    fn evaluate(&self, target: &RequestTarget) -> (r: PredicateResult) {
        match &target.host {
            Some(h) => if *h == self.host {
                PredicateResult::Attach
            } else {
                PredicateResult::Ignore
            },
            None => PredicateResult::Ignore,
        }
    }
}

/// Logical and of two predicates.
#[derive(Clone, Copy, Debug)]
pub struct AndPredicate<P1, P2> {
    pub first: P1,
    pub second: P2,
}

impl<P1: AccessTokenPredicate, P2: AccessTokenPredicate> AccessTokenPredicate for AndPredicate<P1, P2> {
    open spec fn decides(&self, target: RequestTargetView) -> PredicateResult {
        if self.first.decides(target) == PredicateResult::Attach {
            self.second.decides(target)
        } else {
            PredicateResult::Ignore
        }
    }

    fn evaluate(&self, target: &RequestTarget) -> (r: PredicateResult) {
        if self.first.evaluate(target) == PredicateResult::Attach {
            self.second.evaluate(target)
        } else {
            PredicateResult::Ignore
        }
    }
}

/// Logical or of two predicates.
#[derive(Clone, Copy, Debug)]
pub struct OrPredicate<P1, P2> {
    pub first: P1,
    pub second: P2,
}

impl<P1: AccessTokenPredicate, P2: AccessTokenPredicate> AccessTokenPredicate for OrPredicate<P1, P2> {
    open spec fn decides(&self, target: RequestTargetView) -> PredicateResult {
        if self.first.decides(target) == PredicateResult::Ignore {
            self.second.decides(target)
        } else {
            PredicateResult::Attach
        }
    }

    fn evaluate(&self, target: &RequestTarget) -> (r: PredicateResult) {
        if self.first.evaluate(target) == PredicateResult::Ignore {
            self.second.evaluate(target)
        } else {
            PredicateResult::Attach
        }
    }
}

/// Whether a token is to be attached: the predicate attaches and the request
/// carries no authorization of its own, which always takes precedence.
pub fn attaches_token(decision: PredicateResult, has_authorization: bool) -> (r: bool)
    ensures
        r == (decision == PredicateResult::Attach && !has_authorization),
{
    decision == PredicateResult::Attach && !has_authorization
}

/// The authorization header value that carries `token`.
pub fn bearer_authorization(token: &str) -> (r: String)
    ensures
        r@ == "bearer "@ + token@,
{
    let mut value = String::from_str("bearer ");
    value.append(token);
    value
}

} // verus!
