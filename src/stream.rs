use vstd::prelude::*;

verus! {

/// What consuming a whole result stream yields: every batch in order, or the
/// first failure. Batches yielded before a failure stay valid but the stream
/// as a whole fails.
pub open spec fn collected<B, E>(items: Seq<Result<B, E>>) -> Result<Seq<B>, E>
    decreases items.len(),
{
    if items.len() == 0 {
        Ok(Seq::empty())
    } else {
        match collected(items.drop_last()) {
            Err(e) => Err(e),
            Ok(bs) => match items.last() {
                Ok(b) => Ok(bs.push(b)),
                Err(e) => Err(e),
            },
        }
    }
}

/// What draining a result stream without keeping batches yields: success, or
/// the first failure.
pub open spec fn drained<B, E>(items: Seq<Result<B, E>>) -> Result<(), E>
    decreases items.len(),
{
    if items.len() == 0 {
        Ok(())
    } else {
        match drained(items.drop_last()) {
            Err(e) => Err(e),
            Ok(_) => match items.last() {
                Ok(_) => Ok(()),
                Err(e) => Err(e),
            },
        }
    }
}

/// Handles one element pulled from a result stream whose batches are kept:
/// a batch is appended, a failure is handed back and nothing is appended.
pub fn collect_step<B, E>(acc: &mut Vec<B>, item: Result<B, E>) -> (r: Result<(), E>)
    ensures
        item is Ok ==> r is Ok && final(acc)@ == old(acc)@.push(item->Ok_0),
        item is Err ==> r == Err::<(), E>(item->Err_0) && final(acc)@ == old(acc)@,
{
    match item {
        Ok(b) => {
            acc.push(b);
            Ok(())
        },
        Err(e) => Err(e),
    }
}

/// Handles one element pulled from a result stream whose batches are
/// discarded: the batch is dropped, a failure is handed back. Every element
/// must pass through here, since a failure may follow valid batches.
pub fn discard_step<B, E>(item: Result<B, E>) -> (r: Result<(), E>)
    ensures
        item is Ok ==> r is Ok,
        item is Err ==> r == Err::<(), E>(item->Err_0),
{
    match item {
        Ok(_) => Ok(()),
        Err(e) => Err(e),
    }
}

/// Consuming a stream element by element with `collect_step` builds exactly
/// `collected`: a batch extends the kept prefix, a failure ends the stream.
pub proof fn lemma_collect_extends<B, E>(items: Seq<Result<B, E>>, item: Result<B, E>)
    requires
        collected(items) is Ok,
    ensures
        item is Ok ==> collected(items.push(item)) == Ok::<Seq<B>, E>(
            collected(items)->Ok_0.push(item->Ok_0),
        ),
        item is Err ==> collected(items.push(item)) == Err::<Seq<B>, E>(item->Err_0),
{
    assert(items.push(item).drop_last() =~= items);
}

/// Draining a stream element by element with `discard_step` builds exactly
/// `drained`.
pub proof fn lemma_drain_extends<B, E>(items: Seq<Result<B, E>>, item: Result<B, E>)
    requires
        drained(items) is Ok,
    ensures
        item is Ok ==> drained(items.push(item)) is Ok,
        item is Err ==> drained(items.push(item)) == Err::<(), E>(item->Err_0),
{
    assert(items.push(item).drop_last() =~= items);
}

/// Discarding results changes only what is kept: a stream succeeds when drained
/// exactly when it succeeds when collected, with the same first failure, and a
/// successful collection keeps one batch per element, in order.
pub proof fn lemma_discard_agrees_with_collect<B, E>(items: Seq<Result<B, E>>)
    ensures
        (collected(items) is Ok) <==> (drained(items) is Ok),
        collected(items) is Err ==> drained(items) == Err::<(), E>(collected(items)->Err_0),
        collected(items) is Ok ==> {
            &&& collected(items)->Ok_0.len() == items.len()
            &&& forall|i: int|
                0 <= i < items.len() ==> items[i] == Ok::<B, E>(
                    #[trigger] collected(items)->Ok_0[i],
                )
        },
    decreases items.len(),
{
    if items.len() > 0 {
        let prefix = items.drop_last();
        lemma_discard_agrees_with_collect(prefix);
        if collected(items) is Ok {
            let bs = collected(items)->Ok_0;
            assert forall|i: int| 0 <= i < items.len() implies items[i] == Ok::<B, E>(bs[i]) by {
                if i < items.len() - 1 {
                    assert(items[i] == prefix[i]);
                }
            }
        }
    }
}

} // verus!
