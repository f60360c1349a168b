//! The application flows built on the client facade: the fetch-and-race get
//! flow and the provide flow's answering policy.

use vstd::prelude::*;

use crate::events::Event;

verus! {

/// Why a get flow failed.
#[derive(PartialEq, Eq, Structural, Clone, Copy, Debug)]
pub enum GetError {
    /// The lookup returned no provider for the name: fail fast, without
    /// issuing any file request.
    NoProviderFound,
    /// Every requested provider failed to return the file.
    NoProviderReturnedFile,
}

/// One outbound file request of a fetch fan-out.
#[derive(Debug)]
pub struct FetchRequest {
    pub peer: u64,
    pub file_name: String,
}

/// Plans the fan-out of a get flow over the providers a lookup returned: with
/// no provider the flow fails fast with `NoProviderFound` and requests
/// nothing; otherwise one file request is addressed to every provider.
pub fn plan_fetch(providers: &Vec<u64>, file_name: &String) -> (r: Result<
    Vec<FetchRequest>,
    GetError,
>)
    ensures
        providers@.len() == 0 ==> r == Err::<Vec<FetchRequest>, GetError>(
            GetError::NoProviderFound,
        ),
        providers@.len() > 0 ==> ({
            &&& r matches Ok(reqs)
            &&& reqs@.len() == providers@.len()
            &&& forall|i: int|
                0 <= i < providers@.len() ==> (#[trigger] reqs@[i]).peer == providers@[i]
                    && reqs@[i].file_name@ == file_name@
        }),
{
    if providers.len() == 0 {
        return Err(GetError::NoProviderFound);
    }
    let mut reqs: Vec<FetchRequest> = Vec::new();
    let mut i: usize = 0;
    while i < providers.len()
        invariant
            0 <= i <= providers@.len(),
            reqs@.len() == i,
            forall|j: int|
                0 <= j < i ==> (#[trigger] reqs@[j]).peer == providers@[j] && reqs@[j].file_name@
                    == file_name@,
        decreases providers@.len() - i,
    {
        reqs.push(FetchRequest { peer: providers[i], file_name: file_name.clone() });
        i = i + 1;
    }
    Ok(reqs)
}

/// The first successful outcome among the race's outcomes, in arrival order.
pub open spec fn first_success(outcomes: Seq<Result<String, String>>) -> Option<String>
    decreases outcomes.len(),
{
    if outcomes.len() == 0 {
        None
    } else {
        match outcomes[0] {
            Ok(c) => Some(c),
            Err(_) => first_success(outcomes.drop_first()),
        }
    }
}

proof fn lemma_first_success_skip(s: Seq<Result<String, String>>, i: int)
    requires
        0 <= i <= s.len(),
        forall|j: int| 0 <= j < i ==> s[j] is Err,
    ensures
        first_success(s) == first_success(s.skip(i)),
    decreases i,
{
    if i == 0 {
        assert(s.skip(0) =~= s);
    } else {
        assert(s.drop_first() =~= s.skip(1));
        lemma_first_success_skip(s.skip(1), i - 1);
        assert(s.skip(1).skip(i - 1) =~= s.skip(i));
    }
}

/// Settles the race over the outcomes that arrived, in arrival order: the
/// first success wins, whatever failures came before it; when every provider
/// failed, the race fails with the distinct `NoProviderReturnedFile` outcome.
pub fn race_result(outcomes: &Vec<Result<String, String>>) -> (r: Result<String, GetError>)
    ensures
        first_success(outcomes@) matches Some(c) ==> r == Ok::<String, GetError>(c),
        first_success(outcomes@) is None ==> r == Err::<String, GetError>(
            GetError::NoProviderReturnedFile,
        ),
{
    let mut i: usize = 0;
    while i < outcomes.len()
        invariant
            0 <= i <= outcomes@.len(),
            forall|j: int| 0 <= j < i ==> outcomes@[j] is Err,
        decreases outcomes@.len() - i,
    {
        match &outcomes[i] {
            Ok(c) => {
                proof {
                    lemma_first_success_skip(outcomes@, i as int);
                    assert(outcomes@.skip(i as int)[0] == outcomes@[i as int]);
                }
                return Ok(c.clone());
            },
            Err(_) => {},
        }
        i = i + 1;
    }
    proof {
        lemma_first_success_skip(outcomes@, outcomes@.len() as int);
    }
    Err(GetError::NoProviderReturnedFile)
}

/// The race over outcomes with exactly one success returns that success's
/// content, regardless of where among the failures it arrived.
pub proof fn lemma_race_single_success(outcomes: Seq<Result<String, String>>, i: int)
    requires
        0 <= i < outcomes.len(),
        outcomes[i] is Ok,
        forall|j: int| 0 <= j < outcomes.len() && j != i ==> outcomes[j] is Err,
    ensures
        first_success(outcomes) == Some(outcomes[i]->Ok_0),
{
    lemma_first_success_skip(outcomes, i);
    assert(outcomes.skip(i)[0] == outcomes[i]);
}

/// The race over outcomes that all failed has no winner: it ends in the
/// distinct all-providers-failed outcome.
pub proof fn lemma_race_all_fail(outcomes: Seq<Result<String, String>>)
    requires
        forall|j: int| 0 <= j < outcomes.len() ==> outcomes[j] is Err,
    ensures
        first_success(outcomes) is None,
{
    lemma_first_success_skip(outcomes, outcomes.len() as int);
}

/// The provide flow's answering policy: an inbound request is answered, through
/// its channel, exactly when it asks for the advertised name; requests for
/// other names are deliberately ignored, not failed.
pub fn provide_decision(advertised_name: &String, event: &Event) -> (r: Option<u64>)
    ensures
        *event matches Event::InboundRequest { request, channel } ==> r == (if request@
            == advertised_name@ {
            Some(channel)
        } else {
            None::<u64>
        }),
{
    match event {
        Event::InboundRequest { request, channel } => {
            if request.eq(advertised_name) {
                Some(*channel)
            } else {
                None
            }
        },
    }
}

} // verus!
