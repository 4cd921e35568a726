use vstd::prelude::*;

verus! {

/// The positions of the `true` entries of `matched`, in increasing order.
pub open spec fn matching_indices(matched: Seq<bool>) -> Seq<usize>
    decreases matched.len(),
{
    if matched.len() == 0 {
        Seq::empty()
    } else {
        let earlier = matching_indices(matched.drop_last());
        if matched.last() {
            earlier.push((matched.len() - 1) as usize)
        } else {
            earlier
        }
    }
}

/// The positions of the matching events of a batch, in batch order.
pub fn matching_positions(matched: &Vec<bool>) -> (r: Vec<usize>)
    ensures
        r@ == matching_indices(matched@),
{
    let mut r: Vec<usize> = Vec::new();
    let mut i: usize = 0;
    while i < matched.len()
        invariant
            i <= matched.len(),
            r@ == matching_indices(matched@.take(i as int)),
        decreases matched.len() - i,
    {
        if matched[i] {
            r.push(i);
        }
        proof {
            assert(matched@.take(i + 1).drop_last() =~= matched@.take(i as int));
        }
        i = i + 1;
    }
    proof {
        assert(matched@.take(matched.len() as int) =~= matched@);
    }
    r
}

/// The outbound messages for one batch, and whether the session must end.
pub struct Delivery {
    /// One message per delivered event, in batch order.
    pub messages: Vec<String>,
    /// An event could not be encoded: the session is to be closed.
    pub fatal: bool,
}

/// Turns the encodings of a batch's matching events (`None` where encoding
/// failed) into outbound messages: the events before the first failure are
/// sent in order, and a failure ends the session instead of being skipped.
pub fn frame_batch(encoded: Vec<Option<String>>) -> (r: Delivery)
    ensures
        r.messages@.len() <= encoded@.len(),
        forall|i: int| 0 <= i < r.messages@.len() ==> encoded@[i] == Some(r.messages@[i]),
        r.fatal <==> r.messages@.len() < encoded@.len(),
        r.fatal ==> encoded@[r.messages@.len() as int] is None,
{
    let ghost all = encoded@;
    let mut messages: Vec<String> = Vec::new();
    let mut fatal = false;
    for item in it: encoded.into_iter()
        invariant
            it.seq() == all,
            messages@.len() <= it.index(),
            forall|i: int| 0 <= i < messages@.len() ==> all[i] == Some(messages@[i]),
            !fatal ==> messages@.len() == it.index(),
            fatal ==> messages@.len() < it.index() && all[messages@.len() as int] is None,
    {
        if !fatal {
            match item {
                Some(m) => messages.push(m),
                None => fatal = true,
            }
        }
    }
    Delivery { messages, fatal }
}

} // verus!
