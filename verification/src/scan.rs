use vstd::prelude::*;

verus! {

/// One immediate child of the target directory, as the scan reads it: its
/// file name and its last-modified instant, in nanoseconds since the epoch.
pub struct Entry {
    pub name: String,
    pub modified_nanos: u128,
}

/// An entry is old exactly when its modified time lies strictly before the
/// cutoff; a modified time equal to the cutoff, or after it, is not old.
pub open spec fn spec_is_old(modified_nanos: u128, threshold_nanos: u128) -> bool {
    modified_nanos < threshold_nanos
}

/// The classification of a scan: each entry in listing order, paired with
/// whether it is old relative to the cutoff.
pub open spec fn spec_classify(entries: Seq<Entry>, threshold_nanos: u128) -> Seq<(Entry, bool)> {
    Seq::new(
        entries.len(),
        |i: int| (entries[i], spec_is_old(entries[i].modified_nanos, threshold_nanos)),
    )
}

/// The old entries of a classification, in order.
pub open spec fn spec_select_old(classified: Seq<(Entry, bool)>) -> Seq<Entry>
    decreases classified.len(),
{
    if classified.len() == 0 {
        Seq::empty()
    } else {
        let rest = spec_select_old(classified.drop_last());
        if classified.last().1 {
            rest.push(classified.last().0)
        } else {
            rest
        }
    }
}

/// Decides whether a modified time is old relative to the cutoff.
pub fn is_old(modified_nanos: u128, threshold_nanos: u128) -> (r: bool)
    ensures
        r == spec_is_old(modified_nanos, threshold_nanos),
{
    modified_nanos < threshold_nanos
}

/// Classifies every entry of a scan against the cutoff, keeping the listing
/// order. Classification is computed once, for the whole listing, before any
/// deletion is attempted.
pub fn classify_entries(entries: Vec<Entry>, threshold_nanos: u128) -> (r: Vec<(Entry, bool)>)
    ensures
        r@ == spec_classify(entries@, threshold_nanos),
{
    let ghost orig = entries@;
    let mut rest = entries;
    let mut out: Vec<(Entry, bool)> = Vec::new();
    while rest.len() > 0
        invariant
            out@.len() + rest@.len() == orig.len(),
            rest@ == orig.skip(out@.len() as int),
            forall|j: int|
                0 <= j < out@.len() ==> out@[j] == (
                    orig[j],
                    spec_is_old(orig[j].modified_nanos, threshold_nanos),
                ),
        decreases rest@.len(),
    {
        let ghost k = out@.len() as int;
        let e = rest.remove(0);
        proof {
            assert(e == orig[k]);
            assert(rest@ =~= orig.skip(k + 1));
        }
        let old_flag = is_old(e.modified_nanos, threshold_nanos);
        out.push((e, old_flag));
    }
    proof {
        assert(out@ =~= spec_classify(orig, threshold_nanos));
    }
    out
}

/// Keeps, in order, exactly the entries a classification marked old. Only
/// these are handed on to deletion.
pub fn select_old(classified: Vec<(Entry, bool)>) -> (r: Vec<Entry>)
    ensures
        r@ == spec_select_old(classified@),
{
    let ghost orig = classified@;
    let ghost mut k: int = 0;
    let mut rest = classified;
    let mut out: Vec<Entry> = Vec::new();
    while rest.len() > 0
        invariant
            k == orig.len() - rest@.len(),
            0 <= k <= orig.len(),
            rest@ == orig.skip(k),
            out@ == spec_select_old(orig.take(k)),
        decreases rest@.len(),
    {
        let pair = rest.remove(0);
        proof {
            assert(pair == orig[k]);
            assert(rest@ =~= orig.skip(k + 1));
            assert(orig.take(k + 1).drop_last() =~= orig.take(k));
            assert(orig.take(k + 1).last() == orig[k]);
        }
        if pair.1 {
            out.push(pair.0);
        }
        proof {
            k = k + 1;
        }
    }
    proof {
        assert(orig.take(orig.len() as int) =~= orig);
    }
    out
}

/// Everything the selection keeps was classified old.
proof fn lemma_selected_flag(classified: Seq<(Entry, bool)>, e: Entry)
    requires
        spec_select_old(classified).contains(e),
    ensures
        exists|i: int| 0 <= i < classified.len() && classified[i] == (e, true),
    decreases classified.len(),
{
    let rest = spec_select_old(classified.drop_last());
    if classified.last().1 && e == classified.last().0 {
        assert(classified[classified.len() - 1] == (e, true));
    } else {
        assert(rest.contains(e)) by {
            if classified.last().1 {
                let idx = choose|idx: int|
                    0 <= idx < rest.push(classified.last().0).len() && rest.push(
                        classified.last().0,
                    )[idx] == e;
                assert(rest[idx] == e);
            }
        }
        lemma_selected_flag(classified.drop_last(), e);
        let i = choose|i: int|
            0 <= i < classified.drop_last().len() && classified.drop_last()[i] == (e, true);
        assert(classified[i] == (e, true));
    }
}

/// An entry that is not old is never among the old entries handed to the
/// deletion step: selecting after classifying keeps only entries whose
/// modified time lies strictly before the cutoff.
pub proof fn lemma_not_old_never_selected(entries: Seq<Entry>, threshold_nanos: u128, e: Entry)
    requires
        !spec_is_old(e.modified_nanos, threshold_nanos),
    ensures
        !spec_select_old(spec_classify(entries, threshold_nanos)).contains(e),
{
    let classified = spec_classify(entries, threshold_nanos);
    if spec_select_old(classified).contains(e) {
        lemma_selected_flag(classified, e);
        let i = choose|i: int| 0 <= i < classified.len() && classified[i] == (e, true);
        assert(classified[i] == (entries[i], spec_is_old(entries[i].modified_nanos, threshold_nanos)));
        assert(spec_is_old(e.modified_nanos, threshold_nanos));
    }
}

} // verus!
