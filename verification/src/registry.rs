//! The set of trusted issuers with their resolved keys.

use vstd::prelude::*;
use crate::error::FetchError;
use crate::issuer::{ResolvedIssuer, ResolvedModel};
use crate::text::same_text;

verus! {

/// The trusted issuers of a service, each with its resolved keys. Built once
/// and not changed afterwards.
#[derive(Clone, Debug)]
pub struct TrustRegistry {
    pub entries: Vec<ResolvedIssuer>,
}

impl View for TrustRegistry {
    type V = Seq<ResolvedModel>;

    open spec fn view(&self) -> Seq<ResolvedModel> {
        Seq::new(self.entries@.len(), |i: int| self.entries@[i]@)
    }
}

/// The first entry among `entries[from..]` whose identifier is `iss`.
pub open spec fn resolve_from(entries: Seq<ResolvedModel>, from: int, iss: Seq<char>) -> Option<
    ResolvedModel,
>
    decreases entries.len() - from,
{
    if from < 0 || from >= entries.len() {
        None
    } else if entries[from].identifier == iss {
        Some(entries[from])
    } else {
        resolve_from(entries, from + 1, iss)
    }
}

/// The entry of the registry for the issuer `iss`, if it is a trusted one.
pub open spec fn resolved(entries: Seq<ResolvedModel>, iss: Seq<char>) -> Option<ResolvedModel> {
    resolve_from(entries, 0, iss)
}

/// The first failure among `outcomes[from..]`, if one failed.
pub open spec fn first_failure(
    outcomes: Seq<Result<ResolvedIssuer, FetchError>>,
    from: int,
) -> Option<FetchError>
    decreases outcomes.len() - from,
{
    if from < 0 || from >= outcomes.len() {
        None
    } else {
        match outcomes[from] {
            Err(e) => Some(e),
            Ok(_) => first_failure(outcomes, from + 1),
        }
    }
}

/// The view of an optional entry.
pub open spec fn entry_view(e: Option<&ResolvedIssuer>) -> Option<ResolvedModel> {
    match e {
        Some(x) => Some(x@),
        None => None,
    }
}

impl TrustRegistry {
    /// Builds the registry from the outcome of every configured issuer's
    /// resolution. It fails, with the first failure in the order of the
    /// configuration, where any resolution failed.
    pub fn build(outcomes: Vec<Result<ResolvedIssuer, FetchError>>) -> (r: Result<
        TrustRegistry,
        FetchError,
    >)
        ensures
            match r {
                Ok(registry) => first_failure(outcomes@, 0) is None && registry@.len()
                    == outcomes@.len() && (forall|i: int|
                    0 <= i < outcomes@.len() ==> (#[trigger] outcomes@[i]) is Ok) && (forall|i: int|
                    0 <= i < outcomes@.len() ==> #[trigger] registry@[i] == outcomes@[i]->Ok_0@),
                Err(e) => first_failure(outcomes@, 0) == Some(e),
            },
    {
        let ghost all = outcomes@;
        let mut queue = outcomes;
        let mut entries: Vec<ResolvedIssuer> = Vec::new();
        let mut rest: Vec<Result<ResolvedIssuer, FetchError>> = Vec::new();
        // Take the outcomes from the back, so that each is moved out once.
        while queue.len() > 0
            invariant
                queue@.len() + rest@.len() == all.len(),
                forall|j: int| 0 <= j < queue@.len() ==> queue@[j] == all[j],
                forall|j: int|
                    0 <= j < rest@.len() ==> rest@[j] == all[all.len() - 1 - j],
            decreases queue@.len(),
        {
            let last = queue.pop();
            match last {
                Some(x) => rest.push(x),
                None => {},
            }
        }
        let mut i: usize = 0;
        let ghost total = all.len();
        let n: usize = rest.len();
        assert(total == n);
        while rest.len() > 0
            invariant
                all == outcomes@,
                total == all.len(),
                total <= usize::MAX,
                i + rest@.len() == total,
                entries@.len() == i,
                forall|j: int| 0 <= j < rest@.len() ==> rest@[j] == all[total - 1 - j],
                forall|j: int| 0 <= j < i ==> (#[trigger] all[j]) is Ok,
                forall|j: int| 0 <= j < i ==> (#[trigger] entries@[j])@ == all[j]->Ok_0@,
                first_failure(all, 0) == first_failure(all, i as int),
            decreases rest@.len(),
        {
            let ghost k = rest@.len() - 1;
            assert(rest@[k] == all[i as int]);
            let head = rest.pop();
            assert(head == Some(all[i as int]));
            match head {
                Some(Ok(resolved)) => {
                    entries.push(resolved);
                    assert(first_failure(all, i as int) == first_failure(all, i + 1));
                },
                Some(Err(e)) => {
                    assert(first_failure(all, i as int) == Some(e));
                    return Err(e);
                },
                None => {},
            }
            i += 1;
        }
        assert(first_failure(all, i as int) is None);
        let registry = TrustRegistry { entries };
        assert(registry@.len() == all.len());
        assert forall|j: int| 0 <= j < all.len() implies #[trigger] registry@[j]
            == all[j]->Ok_0@ by {
            assert(registry.entries@[j]@ == all[j]->Ok_0@);
        }
        return Ok(registry);
    }

    /// The number of trusted issuers.
    pub fn len(&self) -> (n: usize)
        ensures
            n == self@.len(),
    {
        self.entries.len()
    }

    /// Looks up the trusted issuer that tokens name as `iss`.
    pub fn resolve(&self, iss: &str) -> (r: Option<&ResolvedIssuer>)
        ensures
            entry_view(r) == resolved(self@, iss@),
    {
        let mut i: usize = 0;
        while i < self.entries.len()
            invariant
                i <= self.entries.len(),
                resolved(self@, iss@) == resolve_from(self@, i as int, iss@),
            decreases self.entries.len() - i,
        {
            let entry = &self.entries[i];
            assert(self@[i as int] == entry@);
            if same_text(entry.identifier.as_str(), iss) {
                return Some(entry);
            }
            i += 1;
        }
        None
    }
}

/// An issuer is resolved exactly when some entry carries its identifier, and
/// then to an entry that does.
pub proof fn lemma_resolved_iff_listed(entries: Seq<ResolvedModel>, from: int, iss: Seq<char>)
    requires
        0 <= from,
    ensures
        resolve_from(entries, from, iss) is Some <==> exists|i: int|
            from <= i < entries.len() && (#[trigger] entries[i]).identifier == iss,
        resolve_from(entries, from, iss) is Some ==> resolve_from(
            entries,
            from,
            iss,
        )->Some_0.identifier == iss && entries.contains(resolve_from(entries, from, iss)->Some_0),
    decreases entries.len() - from,
{
    if from < entries.len() {
        if entries[from].identifier == iss {
            assert(entries[from].identifier == iss);
        } else {
            lemma_resolved_iff_listed(entries, from + 1, iss);
            if resolve_from(entries, from + 1, iss) is Some {
                let i = choose|i: int|
                    from + 1 <= i < entries.len() && (#[trigger] entries[i]).identifier == iss;
                assert(from <= i < entries.len() && entries[i].identifier == iss);
            }
        }
    }
}

} // verus!
