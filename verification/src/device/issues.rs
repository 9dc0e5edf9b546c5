//! One failure text out of the issues of a combined change.
//!
//! A combined change makes several independent attempts. Each attempt that
//! failed leaves an issue; the caller gets one text that lists them all,
//! joined by `" and "` and closed by a period, or success where there is none.

use vstd::prelude::*;

verus! {

/// What stands between two issues.
pub open spec fn separator() -> Seq<char> {
    " and "@
}

/// What closes the text.
pub open spec fn terminator() -> Seq<char> {
    "."@
}

/// The plain value of an issue slot.
pub open spec fn slot_view(slot: Option<String>) -> Option<Seq<char>> {
    match slot {
        Some(text) => Some(text@),
        None => None,
    }
}

/// The plain values of a row of issue slots.
pub open spec fn slots_view(slots: Seq<Option<String>>) -> Seq<Option<Seq<char>>> {
    slots.map_values(|slot: Option<String>| slot_view(slot))
}

/// The plain value of an outcome.
pub open spec fn outcome_view(outcome: Result<(), String>) -> Result<(), Seq<char>> {
    match outcome {
        Ok(()) => Ok(()),
        Err(text) => Err(text@),
    }
}

/// The issues that are present, in order, each but the first led in by the
/// separator. A slot adds its text bare as long as nothing stands before it.
pub open spec fn joined(issues: Seq<Option<Seq<char>>>) -> Seq<char>
    decreases issues.len(),
{
    if issues.len() == 0 {
        Seq::empty()
    } else {
        let before = joined(issues.drop_last());
        match issues.last() {
            None => before,
            Some(text) => if before.len() == 0 {
                text
            } else {
                before + separator() + text
            },
        }
    }
}

/// Success where nothing was joined, else the joined text and a period.
pub open spec fn verdict(issues: Seq<Option<Seq<char>>>) -> Result<(), Seq<char>> {
    let text = joined(issues);
    if text.len() == 0 {
        Ok(())
    } else {
        Err(text + terminator())
    }
}

/// The outcome of a change made of two attempts, said directly: success where
/// neither left an issue, the one issue and a period where one did, both with
/// the separator between them where both did.
pub open spec fn verdict_of_two(first: Option<Seq<char>>, second: Option<Seq<char>>) -> Result<
    (),
    Seq<char>,
> {
    match (first, second) {
        (None, None) => Ok(()),
        (Some(a), None) => Err(a + terminator()),
        (None, Some(b)) => Err(b + terminator()),
        (Some(a), Some(b)) => Err(a + separator() + b + terminator()),
    }
}

/// For two issues with some text in them, the general rule gives what
/// `verdict_of_two` says.
pub proof fn lemma_verdict_of_two(first: Option<Seq<char>>, second: Option<Seq<char>>)
    requires
        first matches Some(a) ==> a.len() > 0,
        second matches Some(b) ==> b.len() > 0,
    ensures
        verdict(seq![first, second]) == verdict_of_two(first, second),
{
    let both = seq![first, second];
    let head = both.drop_last();
    assert(head =~= seq![first]);
    assert(head.drop_last() =~= Seq::<Option<Seq<char>>>::empty());
    assert(joined(head.drop_last()) =~= Seq::<char>::empty());
    assert(head.last() == first);
    assert(both.last() == second);
    assert(joined(head) =~= match first {
        Some(a) => a,
        None => Seq::<char>::empty(),
    });
}

/// Joins the issues that are present into one failure, or reports success
/// where there is none.
pub fn summarize(issues: &Vec<Option<String>>) -> (outcome: Result<(), String>)
    ensures
        outcome_view(outcome) == verdict(slots_view(issues@)),
{
    let mut issue = String::new();
    let mut at: usize = 0;
    while at < issues.len()
        invariant
            at <= issues.len(),
            issue@ == joined(slots_view(issues@).take(at as int)),
        decreases issues.len() - at,
    {
        proof {
            let seen = slots_view(issues@).take(at as int + 1);
            assert(seen.drop_last() =~= slots_view(issues@).take(at as int));
            assert(seen.last() == slot_view(issues@[at as int]));
        }
        if let Some(issue_info) = &issues[at] {
            if !issue.as_str().is_empty() {
                issue.append(" and ");
            }
            issue.append(issue_info.as_str());
        }
        at = at + 1;
    }
    proof {
        assert(slots_view(issues@).take(at as int) =~= slots_view(issues@));
    }
    if !issue.as_str().is_empty() {
        issue.append(".");
        return Err(issue);
    }
    Ok(())
}

} // verus!
