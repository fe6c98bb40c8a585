//! Server-side copy and the move protocol. A move is one copy followed
//! by one delete of the source, with no compensating action: when the
//! copy succeeds and the delete fails, both copies remain.

use vstd::prelude::*;
use vstd::string::*;

verus! {

/// The source locator of a server-side copy: `bucket/key`.
pub fn copy_source_locator(bucket: &str, key: &str) -> (r: String)
    ensures
        r@ == bucket@ + "/"@ + key@,
{
    let mut s = String::from_str(bucket);
    s.append("/");
    s.append(key);
    s
}

/// A bucket's contents, modelled as a map from (bucket, key) to bytes.
pub type StoreModel = Map<(Seq<char>, Seq<char>), Seq<u8>>;

/// What a successful server-side copy does to the store: the source's
/// bytes appear under the destination locator, the source stays.
pub open spec fn copy_applied(
    store: StoreModel,
    src: (Seq<char>, Seq<char>),
    dst: (Seq<char>, Seq<char>),
) -> StoreModel
    recommends
        store.contains_key(src),
{
    store.insert(dst, store[src])
}

/// What a successful delete does to the store.
pub open spec fn delete_applied(store: StoreModel, loc: (Seq<char>, Seq<char>)) -> StoreModel {
    store.remove(loc)
}

/// Move is copy-then-delete, not atomic: after the copy has succeeded,
/// and before (or instead of) the delete, the store holds the object
/// under both locators. A delete failure leaves exactly this state.
pub proof fn lemma_move_not_atomic(
    store: StoreModel,
    src: (Seq<char>, Seq<char>),
    dst: (Seq<char>, Seq<char>),
)
    requires
        store.contains_key(src),
        src != dst,
    ensures
        copy_applied(store, src, dst).contains_key(src),
        copy_applied(store, src, dst).contains_key(dst),
        copy_applied(store, src, dst)[src] == store[src],
        copy_applied(store, src, dst)[dst] == store[src],
{
}

/// A completed move: after the copy and the delete both succeed, the
/// object stands under the destination locator only.
pub proof fn lemma_move_complete(
    store: StoreModel,
    src: (Seq<char>, Seq<char>),
    dst: (Seq<char>, Seq<char>),
)
    requires
        store.contains_key(src),
        src != dst,
    ensures
        !delete_applied(copy_applied(store, src, dst), src).contains_key(src),
        delete_applied(copy_applied(store, src, dst), src).contains_key(dst),
        delete_applied(copy_applied(store, src, dst), src)[dst] == store[src],
{
}

/// The stages of one move.
#[derive(Debug, Clone, PartialEq)]
pub enum MoveState {
    /// The copy has not been issued yet.
    CopyPending,
    /// The copy succeeded; the delete of the source has not been issued.
    DeletePending,
    /// Copy and delete both succeeded.
    Done,
    /// A step failed; the move stops with this message.
    Failed(String),
}

/// Advance a move by the outcome of its pending step: a successful copy
/// asks for the delete, a successful delete completes the move, and any
/// failure stops the move with the step's own message — no compensating
/// action follows a failed delete.
pub fn move_advance(state: MoveState, outcome: Result<(), String>) -> (next: MoveState)
    requires
        state is CopyPending || state is DeletePending,
    ensures
        (state is CopyPending && outcome is Ok) ==> next is DeletePending,
        (state is DeletePending && outcome is Ok) ==> next is Done,
        outcome matches Err(e) ==> next == MoveState::Failed(e),
{
    match outcome {
        Ok(_) => match state {
            MoveState::CopyPending => MoveState::DeletePending,
            _ => MoveState::Done,
        },
        Err(e) => MoveState::Failed(e),
    }
}

} // verus!
