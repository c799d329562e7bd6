//! The numbering of comments by the counter of their profile.

use crate::error::SpotSurfError;
use crate::state::{CommentCounter, CommentCounterView};
use vstd::prelude::*;

verus! {

/// The last identity that a comment can have.
pub const LAST_IDENTITY: u8 = 254;

/// The counter after one more comment.
pub open spec fn advanced(counter: CommentCounterView) -> CommentCounterView {
    CommentCounterView {
        discriminator: counter.discriminator,
        is_init: counter.is_init,
        counter: (counter.counter + 1) as u8,
    }
}

/// Gives the identity of the next comment, which is the present count, and
/// the counter to persist once the comment has been written.
///
/// The count never wraps: a counter that has reached 255 gives no further
/// identity.
pub fn next_identity(counter: &CommentCounter) -> (next: Result<
    (u8, CommentCounter),
    SpotSurfError,
>)
    ensures
        match next {
            Ok((identity, updated)) => {
                &&& identity <= LAST_IDENTITY
                &&& identity == counter@.counter
                &&& updated@ == advanced(counter@)
                &&& updated@.counter == identity + 1
            },
            Err(e) => e == SpotSurfError::CounterOverflow && counter@.counter == 255,
        },
{
    if counter.counter > LAST_IDENTITY {
        return Err(SpotSurfError::CounterOverflow);
    }
    let updated = CommentCounter {
        discriminator: counter.discriminator.clone(),
        is_init: counter.is_init,
        counter: counter.counter + 1,
    };
    Ok((counter.counter, updated))
}

} // verus!
