//! Callers of a request, and the policies that decide which of them may
//! perform a privileged operation.
use vstd::prelude::*;

verus! {

/// Identity of an ordinary signed caller.
pub type AccountId = u64;

/// The caller of the current request.
#[derive(Clone, Copy, Debug, PartialEq, Eq, Structural)]
pub enum Origin {
    /// The unconditionally trusted caller.
    Root,
    /// An ordinary end-user who signed the request.
    Signed(AccountId),
    /// An unsigned request coming from outside the chain.
    Unsigned,
    /// A collective instance acting after a vote: `approvals` of its
    /// `members` voted in favour.
    Members { instance: u32, approvals: u32, members: u32 },
    /// A single member of a collective instance, acting as such.
    Member { instance: u32, who: AccountId },
    /// Any other origin kind that the host runtime defines.
    Other(u32),
}

/// The rule that decides which non-root callers are trusted.
#[derive(Clone, Copy, Debug, PartialEq, Eq, Structural)]
pub enum Policy {
    /// Besides root, accept only a vote of collective `instance` whose
    /// approvals are at least `numerator / denominator` of its members.
    Proportion { instance: u32, numerator: u32, denominator: u32 },
    /// Besides root, accept every origin that is not a signed end-user, on
    /// the assumption that any such origin was vetted by the collective.
    NotSigned,
}

/// The authorization failure.
#[derive(Clone, Copy, Debug, PartialEq, Eq, Structural)]
pub enum AuthError {
    InsufficientAuthority,
}

/// A well-formed vote (no more approvals than members) of at least
/// `denominator` deciding members, whose approvals reach
/// `numerator / denominator` of them, compared without division:
/// `approvals * denominator >= numerator * members`. A vote with fewer
/// members than the denominator, such as one of no members at all, never
/// meets the proportion.
pub open spec fn proportion_met(approvals: u32, members: u32, numerator: u32, denominator: u32) -> bool {
    &&& approvals <= members
    &&& members >= denominator
    &&& approvals as int * denominator as int >= numerator as int * members as int
}

/// Whether `policy` lets `origin` perform a privileged operation.
pub open spec fn authorized(origin: Origin, policy: Policy) -> bool {
    match origin {
        Origin::Root => true,
        Origin::Signed(_) => false,
        _ => match policy {
            Policy::NotSigned => true,
            Policy::Proportion { instance, numerator, denominator } => match origin {
                Origin::Members { instance: i, approvals, members } =>
                    i == instance && proportion_met(approvals, members, numerator, denominator),
                _ => false,
            },
        },
    }
}

/// Checks that a vote is well formed, has at least `denominator` members,
/// and reaches the proportion, comparing in 64-bit arithmetic where neither
/// product can overflow.
pub fn meets_proportion(approvals: u32, members: u32, numerator: u32, denominator: u32) -> (r: bool)
    ensures
        r == proportion_met(approvals, members, numerator, denominator),
{
    proof {
        assert(approvals as int * denominator as int <= u32::MAX as int * u32::MAX as int) by (nonlinear_arith);
        assert(numerator as int * members as int <= u32::MAX as int * u32::MAX as int) by (nonlinear_arith);
    }
    let lhs: u64 = approvals as u64 * denominator as u64;
    let rhs: u64 = numerator as u64 * members as u64;
    approvals <= members && members >= denominator && lhs >= rhs
}

impl Origin {
    pub fn is_root(&self) -> (r: bool)
        ensures
            r == (*self == Origin::Root),
    {
        matches!(self, Origin::Root)
    }

    pub fn is_signed(&self) -> (r: bool)
        ensures
            r == (*self is Signed),
    {
        matches!(self, Origin::Signed(_))
    }
}

/// Decides whether `origin` may perform a privileged operation under
/// `policy`. Every origin kind is classified: root is accepted, a signed
/// end-user is rejected, and the policy decides the rest.
pub fn evaluate(origin: &Origin, policy: &Policy) -> (r: Result<(), AuthError>)
    ensures
        r is Ok <==> authorized(*origin, *policy),
        r is Err ==> r == Err::<(), AuthError>(AuthError::InsufficientAuthority),
{
    match origin {
        Origin::Root => Ok(()),
        Origin::Signed(_) => Err(AuthError::InsufficientAuthority),
        _ => match policy {
            Policy::NotSigned => Ok(()),
            Policy::Proportion { instance, numerator, denominator } => match origin {
                Origin::Members { instance: i, approvals, members } => {
                    if *i == *instance && meets_proportion(*approvals, *members, *numerator, *denominator) {
                        Ok(())
                    } else {
                        Err(AuthError::InsufficientAuthority)
                    }
                },
                _ => Err(AuthError::InsufficientAuthority),
            },
        },
    }
}

/// Root is accepted under every policy, whatever the state of any vote.
pub proof fn lemma_root_authorized(policy: Policy)
    ensures
        authorized(Origin::Root, policy),
{
}

/// A signed end-user is rejected under every policy.
pub proof fn lemma_signed_rejected(who: AccountId, policy: Policy)
    ensures
        !authorized(Origin::Signed(who), policy),
{
}

/// Under a proportion policy a collective vote is accepted exactly when it
/// comes from the configured instance, is well formed, has at least as many
/// members as the denominator, and its approvals reach the configured
/// proportion of its members; below it, with fewer members, malformed, or
/// from another instance, it is rejected.
pub proof fn lemma_vote_meets_proportion(
    instance: u32,
    approvals: u32,
    members: u32,
    required_instance: u32,
    numerator: u32,
    denominator: u32,
)
    ensures
        authorized(
            Origin::Members { instance, approvals, members },
            Policy::Proportion { instance: required_instance, numerator, denominator },
        ) <==> (instance == required_instance && approvals <= members && members >= denominator
            && approvals as int * denominator as int >= numerator as int * members as int),
{
}

/// Under a proportion policy with a positive denominator, a vote of no
/// members at all is rejected, whatever its instance and approvals.
pub proof fn lemma_empty_vote_rejected(instance: u32, approvals: u32, required_instance: u32, numerator: u32, denominator: u32)
    requires
        denominator > 0,
    ensures
        !authorized(
            Origin::Members { instance, approvals, members: 0 },
            Policy::Proportion { instance: required_instance, numerator, denominator },
        ),
{
}

/// Under a proportion policy every origin that is neither root nor a
/// collective vote is rejected.
pub proof fn lemma_proportion_rejects_non_vote(origin: Origin, instance: u32, numerator: u32, denominator: u32)
    requires
        !(origin is Root),
        !(origin is Members),
    ensures
        !authorized(origin, Policy::Proportion { instance, numerator, denominator }),
{
}

/// Under the not-signed policy every origin other than a signed end-user is
/// accepted: an unsigned request, a collective vote of any instance and
/// size, a single collective member, and any other origin kind.
pub proof fn lemma_not_signed_accepts(origin: Origin)
    requires
        !(origin is Signed),
    ensures
        authorized(origin, Policy::NotSigned),
{
}

} // verus!
