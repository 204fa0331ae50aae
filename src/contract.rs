//! The counter program: a record holding a count and the identity that may
//! advance it.
use vstd::prelude::*;

use crate::error::ErrorCode;

verus! {

/// The number of bytes in an identity token.
pub const IDENTITY_LEN: usize = 32;

/// A fixed-width public identity token.
#[derive(Clone, Copy, Debug, PartialEq, Eq)]
pub struct Identity {
    pub bytes: [u8; 32],
}

impl Identity {
    pub fn new(bytes: [u8; 32]) -> (r: Identity)
        ensures
            r.bytes == bytes,
    {
        Identity { bytes }
    }

    /// Strict equality of two tokens, byte for byte.
    pub fn same_as(&self, other: &Identity) -> (r: bool)
        ensures
            r == (*self == *other),
    {
        let mut i: usize = 0;
        while i < IDENTITY_LEN
            invariant
                0 <= i <= IDENTITY_LEN,
                forall|j: int| 0 <= j < i ==> self.bytes[j] == other.bytes[j],
            decreases IDENTITY_LEN - i,
        {
            if self.bytes[i] != other.bytes[i] {
                return false;
            }
            i = i + 1;
        }
        assert(self.bytes =~= other.bytes);
        true
    }
}

/// The persisted record: a count and the identity bound to it at creation.
#[derive(Clone, Copy, Debug, PartialEq, Eq)]
pub struct Counter {
    pub count: u64,
    pub authority: Identity,
}

/// What a creation request brings: the storage slot for the new record
/// (`None` while it is free), the requesting identity, and whether the
/// environment authenticated that identity.
#[derive(Clone, Copy, Debug, PartialEq, Eq)]
pub struct Initialize {
    pub counter: Option<Counter>,
    pub authority: Identity,
    pub authority_is_signer: bool,
}

/// What an increment request brings: the slot of the record (`None` if it
/// was never initialized), the requesting identity, and whether the
/// environment authenticated that identity.
#[derive(Clone, Copy, Debug, PartialEq, Eq)]
pub struct Increment {
    pub counter: Option<Counter>,
    pub authority: Identity,
    pub authority_is_signer: bool,
}

/// The result of a creation request.
pub open spec fn initialize_outcome(ctx: Initialize) -> Result<Counter, ErrorCode> {
    if !ctx.authority_is_signer {
        Err(ErrorCode::AuthenticationError)
    } else if ctx.counter is Some {
        Err(ErrorCode::AllocationError)
    } else {
        Ok(Counter { count: 0, authority: ctx.authority })
    }
}

/// The state after a creation request: the new record fills the slot on
/// success, and nothing changes on failure.
pub open spec fn after_initialize(ctx: Initialize) -> Initialize {
    match initialize_outcome(ctx) {
        Ok(c) => Initialize { counter: Some(c), ..ctx },
        Err(_) => ctx,
    }
}

/// The result of an increment request: the new count, or the first check
/// that fails.
pub open spec fn increment_outcome(ctx: Increment) -> Result<u64, ErrorCode> {
    match ctx.counter {
        None => Err(ErrorCode::NotFoundError),
        Some(c) => if !ctx.authority_is_signer {
            Err(ErrorCode::AuthenticationError)
        } else if c.authority != ctx.authority {
            Err(ErrorCode::AuthorizationError)
        } else if c.count == u64::MAX {
            Err(ErrorCode::OverflowError)
        } else {
            Ok((c.count + 1) as u64)
        },
    }
}

/// The state after an increment request: on success the count becomes the
/// new count and the authority stays; on failure nothing changes.
pub open spec fn after_increment(ctx: Increment) -> Increment {
    match increment_outcome(ctx) {
        Ok(n) => Increment {
            counter: Some(Counter { count: n, authority: ctx.counter->0.authority }),
            ..ctx
        },
        Err(_) => ctx,
    }
}

/// Creates the record in the request's slot, bound to the requesting
/// identity, and returns it. An unauthenticated identity is refused first,
/// then an occupied slot; a refused request changes nothing.
pub fn initialize(ctx: &mut Initialize) -> (r: Result<Counter, ErrorCode>)
    ensures
        r == initialize_outcome(*old(ctx)),
        *final(ctx) == after_initialize(*old(ctx)),
        old(ctx).authority_is_signer && old(ctx).counter is None ==> (r matches Ok(c)
            && c.count == 0 && c.authority == old(ctx).authority),
        old(ctx).authority_is_signer && old(ctx).counter is Some ==> (r matches Err(e)
            && e == ErrorCode::AllocationError) && final(ctx).counter == old(ctx).counter,
{
    if !ctx.authority_is_signer {
        return Err(ErrorCode::AuthenticationError);
    }
    if ctx.counter.is_some() {
        return Err(ErrorCode::AllocationError);
    }
    let counter = Counter { count: 0, authority: ctx.authority };
    ctx.counter = Some(counter);
    Ok(counter)
}

/// Advances the record's count by one for its bound authority, and returns
/// the new count. The checks run in order: the record exists, the caller is
/// authenticated, the caller is the bound authority, the count is below its
/// maximum. A refused request changes nothing, so the count never wraps.
pub fn increment(ctx: &mut Increment) -> (r: Result<u64, ErrorCode>)
    ensures
        r == increment_outcome(*old(ctx)),
        *final(ctx) == after_increment(*old(ctx)),
        old(ctx).counter matches Some(c) && c.count == u64::MAX ==> r is Err
            && final(ctx).counter == old(ctx).counter,
        old(ctx).counter matches Some(c) && old(ctx).authority_is_signer
            && c.authority == old(ctx).authority && c.count == u64::MAX ==> (r matches Err(e)
            && e == ErrorCode::OverflowError),
{
    match ctx.counter {
        None => Err(ErrorCode::NotFoundError),
        Some(c) => {
            if !ctx.authority_is_signer {
                return Err(ErrorCode::AuthenticationError);
            }
            if !c.authority.same_as(&ctx.authority) {
                return Err(ErrorCode::AuthorizationError);
            }
            if c.count == u64::MAX {
                return Err(ErrorCode::OverflowError);
            }
            let count = c.count + 1;
            ctx.counter = Some(Counter { count, authority: c.authority });
            Ok(count)
        },
    }
}

/// The bound authority, once authenticated, may always advance a record
/// whose count is below the maximum, and gets the old count plus one.
pub proof fn lemma_authority_may_increment(rec: Counter, a: Identity)
    requires
        rec.authority == a,
        rec.count < u64::MAX,
    ensures
        ({
            let ctx = Increment { counter: Some(rec), authority: a, authority_is_signer: true };
            &&& increment_outcome(ctx) == Ok::<u64, ErrorCode>((rec.count + 1) as u64)
            &&& after_increment(ctx).counter == Some(
                Counter { count: (rec.count + 1) as u64, authority: a },
            )
        }),
{
}

/// Any identity other than the bound authority is refused with an
/// authorization error, and the record is left as it was.
pub proof fn lemma_other_identity_refused(rec: Counter, b: Identity, signed: bool)
    requires
        b != rec.authority,
    ensures
        ({
            let ctx = Increment { counter: Some(rec), authority: b, authority_is_signer: signed };
            &&& signed ==> increment_outcome(ctx) == Err::<u64, ErrorCode>(
                ErrorCode::AuthorizationError,
            )
            &&& increment_outcome(ctx) is Err
            &&& after_increment(ctx).counter == Some(rec)
        }),
{
}

/// Two successful increments leave the count two above where it started,
/// so never where a single increment leaves it.
pub proof fn lemma_increment_twice(ctx: Increment)
    requires
        increment_outcome(ctx) is Ok,
        increment_outcome(after_increment(ctx)) is Ok,
    ensures
        after_increment(ctx).counter->0.count == ctx.counter->0.count + 1,
        after_increment(after_increment(ctx)).counter->0.count == ctx.counter->0.count + 2,
        after_increment(after_increment(ctx)).counter->0.count != after_increment(
            ctx,
        ).counter->0.count,
{
}

} // verus!
