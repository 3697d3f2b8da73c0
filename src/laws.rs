use vstd::prelude::*;

use crate::guard::{held_of, pending_of, requested, run, unset, IO_RETURN_SUCCESS};
use crate::options::{Mode, Options};

verus! {

/// With no mode asked for, construction issues no request and succeeds with
/// every slot unset, so teardown releases nothing.
pub proof fn lemma_nothing_requested(o: Options, replies: Seq<(i32, u32)>)
    requires
        !o.display,
        !o.idle,
        !o.sleep,
    ensures
        requested(o) == Seq::<Mode>::empty(),
        pending_of(o, 0) is None,
        run(o, 0, unset(), replies) == (Seq::<Mode>::empty(), None::<i32>, unset()),
        held_of(unset()) == Seq::<u32>::empty(),
{
    reveal_with_fuel(run, 2);
    assert(requested(o) =~= Seq::<Mode>::empty());
    assert(held_of(unset()) =~= Seq::<u32>::empty());
}

/// The tokens that the first `n` replies carry.
pub open spec fn tokens(replies: Seq<(i32, u32)>, n: int) -> Seq<u32> {
    Seq::new(n as nat, |k: int| replies[k].1)
}

/// When every request is granted with a live token, construction issues
/// exactly one request per mode asked for, in order, and ends holding
/// exactly those tokens, one per requested mode, each listed once for
/// release.
pub proof fn lemma_all_granted(o: Options, replies: Seq<(i32, u32)>)
    requires
        replies.len() >= requested(o).len(),
        forall|k: int|
            0 <= k < requested(o).len() ==> replies[k].0 == IO_RETURN_SUCCESS && replies[k].1
                != 0,
    ensures
        run(o, 0, unset(), replies).0 == requested(o),
        run(o, 0, unset(), replies).1 is None,
        held_of(run(o, 0, unset(), replies).2) == tokens(replies, requested(o).len() as int),
{
    reveal_with_fuel(run, 4);
    let r = run(o, 0, unset(), replies);
    assert(r.0 =~= requested(o));
    assert(held_of(r.2) =~= tokens(replies, requested(o).len() as int));
}

/// When the first request is refused, construction fails with that status
/// after that single request, holding nothing.
pub proof fn lemma_first_refused(o: Options, replies: Seq<(i32, u32)>)
    requires
        requested(o).len() > 0,
        replies.len() > 0,
        replies[0].0 != IO_RETURN_SUCCESS,
    ensures
        run(o, 0, unset(), replies) == (seq![requested(o)[0]], Some(replies[0].0), unset()),
        held_of(unset()) == Seq::<u32>::empty(),
{
    reveal_with_fuel(run, 2);
    assert(held_of(unset()) =~= Seq::<u32>::empty());
}

/// When request `j` is refused after the earlier ones were granted, the
/// failure carries the status of request `j` alone, no later mode is
/// requested, and the tokens granted before it are the ones to release.
pub proof fn lemma_later_refused(o: Options, replies: Seq<(i32, u32)>, j: int)
    requires
        0 < j < requested(o).len(),
        j < replies.len(),
        forall|k: int| 0 <= k < j ==> replies[k].0 == IO_RETURN_SUCCESS && replies[k].1 != 0,
        replies[j].0 != IO_RETURN_SUCCESS,
    ensures
        run(o, 0, unset(), replies).0 == requested(o).take(j + 1),
        run(o, 0, unset(), replies).1 == Some(replies[j].0),
        held_of(run(o, 0, unset(), replies).2) == tokens(replies, j),
{
    reveal_with_fuel(run, 4);
    let r = run(o, 0, unset(), replies);
    assert(r.0 =~= requested(o).take(j + 1));
    assert(held_of(r.2) =~= tokens(replies, j));
}

/// A construction starts from unset slots, so every token that it ends up
/// holding was granted by one of its own requests: none is carried over
/// from an earlier guard.
pub proof fn lemma_fresh_tokens(o: Options, replies: Seq<(i32, u32)>, t: u32)
    requires
        held_of(run(o, 0, unset(), replies).2).contains(t),
    ensures
        exists|k: int|
            0 <= k < run(o, 0, unset(), replies).0.len() && k < replies.len() && replies[k].1
                == t,
{
    reveal_with_fuel(run, 4);
}

} // verus!
