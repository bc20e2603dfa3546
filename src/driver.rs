//! Walking an id range in order, one target and one outcome per id.
use vstd::prelude::*;

use crate::outcome::{error_text, Outcome, ScrapError, ScrappedProfessor};
use crate::page::{markup_outcome_holds, SelectorSet};
use crate::text::{decimal, decimal_string};

verus! {

/// One page to attempt: its id and its address.
pub struct Target {
    pub id: u32,
    pub url: String,
}

/// The address of page `id` under `base`: `<base>?id=<id>`.
pub open spec fn url_of(base: Seq<char>, id: nat) -> Seq<char> {
    base + "?id="@ + decimal(id)
}

/// Builds the address of page `id` under `base`.
pub fn page_url(base: &str, id: u32) -> (r: String)
    ensures
        r@ == url_of(base@, id as nat),
{
    let mut r = String::from_str(base);
    r.append("?id=");
    let digits = decimal_string(id);
    r.append(digits.as_str());
    r
}

/// The line that reports page `id`.
pub open spec fn report_text(id: u32, outcome: Outcome) -> Seq<char> {
    "Page("@ + decimal(id as nat) + "): "@ + match outcome {
        Ok(p) => match p.picture {
            Some(pic) => "Professor has name: '"@ + p.name@ + "' and photo: '"@ + pic@ + "'"@,
            None => "Professor has name: '"@ + p.name@ + "' and no photo"@,
        },
        Err(e) => error_text(e),
    }
}

/// Writes the line that reports page `id`: the name and photo, the name with
/// no photo, or what went wrong.
pub fn report_line(id: u32, outcome: &Outcome) -> (r: String)
    ensures
        r@ == report_text(id, *outcome),
{
    let mut r = String::from_str("Page(");
    let digits = decimal_string(id);
    r.append(digits.as_str());
    r.append("): ");
    match outcome {
        Ok(p) => {
            r.append("Professor has name: '");
            r.append(p.name.as_str());
            match &p.picture {
                Some(pic) => {
                    r.append("' and photo: '");
                    r.append(pic.as_str());
                    r.append("'");
                },
                None => {
                    r.append("' and no photo");
                },
            }
        },
        Err(e) => {
            let d = e.describe();
            r.append(d.as_str());
        },
    }
    r
}

/// The outcome of a page from what its retrieval gave: a failed retrieval is
/// the outcome as it is, and a delivered body is parsed and extracted.
pub fn page_outcome(fetched: Result<String, ScrapError>, selectors: &SelectorSet) -> (r: Outcome)
    ensures
        fetched matches Err(e) ==> r == Err::<ScrappedProfessor, ScrapError>(e),
        fetched matches Ok(body) ==> markup_outcome_holds(body@, r),
{
    match fetched {
        Ok(body) => ScrappedProfessor::from_markup(body.as_str(), selectors),
        Err(e) => Err(e),
    }
}

/// How many ids `first..=last` holds.
pub open spec fn id_count(first: u32, last: u32) -> nat {
    if first <= last {
        (last - first + 1) as nat
    } else {
        0
    }
}

/// A run over the ids `first..=last`: the outcomes so far, in id order.
pub struct Driver {
    pub base: String,
    pub first: u32,
    pub last: u32,
    pub outcomes: Vec<(u32, Outcome)>,
}

impl Driver {
    /// One outcome for each id from `first` on, in order, and none past `last`.
    pub open spec fn wf(&self) -> bool {
        &&& self.outcomes@.len() <= id_count(self.first, self.last)
        &&& forall|i: int|
            0 <= i < self.outcomes@.len() ==> #[trigger] self.outcomes@[i].0 == self.first + i
    }

    /// Every id of the range has its outcome.
    pub open spec fn done(&self) -> bool {
        self.outcomes@.len() >= id_count(self.first, self.last)
    }

    /// The id whose outcome comes next.
    pub open spec fn next_id(&self) -> int {
        self.first + self.outcomes@.len()
    }

    /// A run over `first..=last` under `base`, with no outcome yet.
    pub fn new(base: String, first: u32, last: u32) -> (r: Driver)
        ensures
            r.base == base,
            r.first == first,
            r.last == last,
            r.outcomes@.len() == 0,
            r.wf(),
    {
        Driver { base, first, last, outcomes: Vec::new() }
    }

    /// Whether every id of the range has its outcome.
    pub fn is_done(&self) -> (r: bool)
        requires
            self.wf(),
        ensures
            r == self.done(),
    {
        self.first > self.last || self.outcomes.len() as u64 >= (self.last - self.first) as u64
            + 1
    }

    /// The next page to attempt, or `None` once every id has its outcome.
    pub fn next_target(&self) -> (r: Option<Target>)
        requires
            self.wf(),
        ensures
            r is None <==> self.done(),
            r matches Some(t) ==> t.id == self.next_id() && t.url@ == url_of(
                self.base@,
                t.id as nat,
            ),
    {
        if self.is_done() {
            None
        } else {
            let id = self.first + self.outcomes.len() as u32;
            Some(Target { id, url: page_url(self.base.as_str(), id) })
        }
    }

    /// Records the outcome of the next id, whether it succeeded or failed, and
    /// moves on to the id after it.
    pub fn record(&mut self, outcome: Outcome)
        requires
            old(self).wf(),
            !old(self).done(),
        ensures
            final(self).outcomes@ == old(self).outcomes@.push(
                (old(self).next_id() as u32, outcome),
            ),
            final(self).base == old(self).base,
            final(self).first == old(self).first,
            final(self).last == old(self).last,
            final(self).wf(),
    {
        let id = self.first + self.outcomes.len() as u32;
        self.outcomes.push((id, outcome));
    }

    /// The report line of each outcome so far, in id order.
    pub fn report(&self) -> (r: Vec<String>)
        ensures
            r@.len() == self.outcomes@.len(),
            forall|i: int|
                0 <= i < r@.len() ==> #[trigger] r@[i]@ == report_text(
                    self.outcomes@[i].0,
                    self.outcomes@[i].1,
                ),
    {
        let mut r: Vec<String> = Vec::new();
        let mut i: usize = 0;
        while i < self.outcomes.len()
            invariant
                i <= self.outcomes@.len(),
                r@.len() == i,
                forall|j: int|
                    0 <= j < i ==> #[trigger] r@[j]@ == report_text(
                        self.outcomes@[j].0,
                        self.outcomes@[j].1,
                    ),
            decreases self.outcomes@.len() - i,
        {
            let line = report_line(self.outcomes[i].0, &self.outcomes[i].1);
            r.push(line);
            i = i + 1;
        }
        r
    }
}

/// A finished run holds exactly one outcome for each id of its range, in
/// ascending id order, failed ones included.
pub proof fn lemma_one_outcome_per_id(d: Driver)
    requires
        d.wf(),
        d.done(),
    ensures
        d.outcomes@.len() == id_count(d.first, d.last),
        forall|i: int| 0 <= i < d.outcomes@.len() ==> #[trigger] d.outcomes@[i].0 == d.first + i,
{
}

} // verus!
