//! What is done with each message that the host sends, and which evaluations
//! are in flight.

use vstd::prelude::*;

use crate::evaluation::{EvaluateParams, Failure, FailureKind};
use crate::text::{quoted, quoted_text, same_text, views};

verus! {

/// The identifiers of the requests that are being evaluated.
#[derive(Debug)]
pub struct InFlight {
    ids: Vec<String>,
}

impl View for InFlight {
    type V = Set<Seq<char>>;

    closed spec fn view(&self) -> Set<Seq<char>> {
        views(self.ids@).to_set()
    }
}

/// The requests in flight after one takes flight.
pub open spec fn taken_off(in_flight: Set<Seq<char>>, id: Seq<char>) -> Set<Seq<char>> {
    in_flight.insert(id)
}

/// The requests in flight after one has been answered.
pub open spec fn landed(in_flight: Set<Seq<char>>, id: Seq<char>) -> Set<Seq<char>> {
    in_flight.remove(id)
}

/// A request that takes flight is in flight, one that has been answered is not,
/// and no other is touched by either.
pub proof fn law_take_off_and_landing(in_flight: Set<Seq<char>>, id: Seq<char>, other: Seq<char>)
    ensures
        taken_off(in_flight, id).contains(id),
        !landed(in_flight, id).contains(id),
        other != id ==> (taken_off(in_flight, id).contains(other) <==> in_flight.contains(other)),
        other != id ==> (landed(in_flight, id).contains(other) <==> in_flight.contains(other)),
{
}

impl InFlight {
    /// Whether no identifier is kept twice.
    pub closed spec fn well_formed(&self) -> bool {
        views(self.ids@).no_duplicates()
    }

    /// No request is in flight.
    pub fn new() -> (in_flight: InFlight)
        ensures
            in_flight.well_formed(),
            in_flight@ == Set::<Seq<char>>::empty(),
    {
        let in_flight = InFlight { ids: Vec::new() };
        assert(in_flight@ =~= Set::<Seq<char>>::empty());
        in_flight
    }

    /// The index of an identifier.
    fn position(&self, id: &str) -> (index: Option<usize>)
        ensures
            match index {
                Some(index) => index < self.ids@.len() && self.ids@[index as int]@ == id@,
                None => !self@.contains(id@),
            },
            index is Some ==> self@.contains(id@),
    {
        let mut i: usize = 0;
        while i < self.ids.len()
            invariant
                i <= self.ids@.len(),
                forall|j: int| 0 <= j < i ==> (#[trigger] self.ids@[j])@ != id@,
            decreases self.ids@.len() - i,
        {
            if same_text(self.ids[i].as_str(), id) {
                assert(views(self.ids@)[i as int] == id@);
                return Some(i);
            }
            i = i + 1;
        }
        assert forall|j: int| 0 <= j < views(self.ids@).len() implies views(self.ids@)[j] != id@ by {
            assert(views(self.ids@)[j] == self.ids@[j]@);
        }
        None
    }

    /// Whether a request is in flight.
    pub fn contains(&self, id: &str) -> (known: bool)
        ensures
            known == self@.contains(id@),
    {
        self.position(id).is_some()
    }

    /// A request takes flight.
    pub fn insert(&mut self, id: &str)
        requires
            old(self).well_formed(),
        ensures
            final(self).well_formed(),
            final(self)@ == taken_off(old(self)@, id@),
    {
        if !self.contains(id) {
            let ghost before = views(self.ids@);
            self.ids.push(id.to_owned());
            let ghost after = views(self.ids@);
            proof {
                assert(after =~= before.push(id@));
                assert forall|x: Seq<char>| after.contains(x) <==> before.contains(x) || x
                    == id@ by {
                    if before.contains(x) {
                        let i = choose|i: int| 0 <= i < before.len() && before[i] == x;
                        assert(after[i] == x);
                    }
                    if x == id@ {
                        assert(after[before.len() as int] == x);
                    }
                }
                assert(after.to_set() =~= before.to_set().insert(id@));
                assert(!before.contains(id@));
            }
        } else {
            assert(self@.insert(id@) =~= self@);
        }
    }

    /// A request has been answered.
    pub fn remove(&mut self, id: &str)
        requires
            old(self).well_formed(),
        ensures
            final(self).well_formed(),
            final(self)@ == landed(old(self)@, id@),
    {
        match self.position(id) {
            Some(index) => {
                let ghost before = views(self.ids@);
                self.ids.remove(index);
                let ghost after = views(self.ids@);
                proof {
                    assert(after =~= before.remove(index as int));
                    assert(before[index as int] == id@);
                    assert forall|x: Seq<char>| after.contains(x) <==> before.contains(x) && x
                        != id@ by {
                        if after.contains(x) {
                            let i = choose|i: int| 0 <= i < after.len() && after[i] == x;
                            let j = if i < index {
                                i
                            } else {
                                i + 1
                            };
                            assert(before[j] == x);
                        }
                        if before.contains(x) && x != id@ {
                            let j = choose|j: int| 0 <= j < before.len() && before[j] == x;
                            let i = if j < index {
                                j
                            } else {
                                j - 1
                            };
                            assert(after[i] == x);
                        }
                    }
                    assert(after.to_set() =~= before.to_set().remove(id@));
                    assert(after.no_duplicates()) by {
                        assert forall|i: int, j: int|
                            0 <= i < after.len() && 0 <= j < after.len() && i != j implies after[i]
                            != after[j] by {
                            let a = if i < index {
                                i
                            } else {
                                i + 1
                            };
                            let b = if j < index {
                                j
                            } else {
                                j + 1
                            };
                            assert(before[a] != before[b]);
                        }
                    }
                }
            },
            None => {
                assert(self@.remove(id@) =~= self@);
            },
        }
    }
}

/// What a message asks for. Parameters that could not be read stand as the
/// message of the failure.
#[derive(Debug)]
pub enum Request {
    Describe,
    Shutdown,
    Cancel { target: Result<String, String> },
    Evaluate { method: String, params: Result<EvaluateParams, String> },
    Unknown { method: String },
}

/// What is done with a message.
#[derive(Debug)]
pub enum Action {
    /// Nothing: there is no identifier to answer to.
    Nothing,
    /// The engine describes itself.
    Describe,
    /// The daemon ends, after an empty answer where one is due.
    Shutdown { answer: bool },
    /// Evaluations cannot be aborted: they complete.
    CancelIgnored { target: String, known: bool },
    CancelMalformed { message: String },
    /// An evaluation that nobody waits for is not run.
    NotificationIgnored { method: String },
    /// The evaluation runs.
    Evaluate { method: String, params: EvaluateParams },
    /// The request is refused.
    Refuse(Failure),
}

/// Whether an action is what is done with a message.
pub open spec fn acts(
    action: Action,
    id: Option<Seq<char>>,
    request: Request,
    in_flight: Set<Seq<char>>,
) -> bool {
    match request {
        Request::Describe => action == if id is Some {
            Action::Describe
        } else {
            Action::Nothing
        },
        Request::Shutdown => action == (Action::Shutdown { answer: id is Some }),
        Request::Cancel { target: Ok(target) } => action == (Action::CancelIgnored {
            target,
            known: in_flight.contains(target@),
        }),
        Request::Cancel { target: Err(message) } => action == (Action::CancelMalformed { message }),
        Request::Evaluate { method, params } => if id is None {
            action == (Action::NotificationIgnored { method })
        } else {
            match params {
                Ok(params) => action == (Action::Evaluate { method, params }),
                Err(message) => action == Action::Refuse(
                    Failure { kind: FailureKind::InvalidParams, message },
                ),
            }
        },
        Request::Unknown { method } => if id is None {
            action == Action::Nothing
        } else {
            action matches Action::Refuse(failure) && failure.kind == FailureKind::MethodNotFound
                && failure.message@ == "unknown method "@ + quoted_text(method@)
        },
    }
}

/// The requests in flight after a message: an evaluation that runs is among
/// them, and nothing else changes.
pub open spec fn in_flight_after(
    in_flight: Set<Seq<char>>,
    id: Option<Seq<char>>,
    request: Request,
) -> Set<Seq<char>> {
    match (id, request) {
        (Some(id), Request::Evaluate { params: Ok(_), .. }) => in_flight.insert(id),
        _ => in_flight,
    }
}

/// The text of an identifier, where there is one.
pub open spec fn id_text(id: Option<&str>) -> Option<Seq<char>> {
    match id {
        Some(id) => Some(id@),
        None => None,
    }
}

/// Decides what is done with a message: [`acts`] and [`in_flight_after`].
pub fn dispatch(in_flight: &mut InFlight, id: Option<&str>, request: Request) -> (action: Action)
    requires
        old(in_flight).well_formed(),
    ensures
        final(in_flight).well_formed(),
        acts(action, id_text(id), request, old(in_flight)@),
        final(in_flight)@ == in_flight_after(old(in_flight)@, id_text(id), request),
{
    match request {
        Request::Describe => match id {
            Some(_) => Action::Describe,
            None => Action::Nothing,
        },
        Request::Shutdown => Action::Shutdown { answer: id.is_some() },
        Request::Cancel { target } => match target {
            Ok(target) => {
                let known = in_flight.contains(target.as_str());
                Action::CancelIgnored { target, known }
            },
            Err(message) => Action::CancelMalformed { message },
        },
        Request::Evaluate { method, params } => match id {
            None => Action::NotificationIgnored { method },
            Some(id) => match params {
                Err(message) => Action::Refuse(
                    Failure { kind: FailureKind::InvalidParams, message },
                ),
                Ok(params) => {
                    in_flight.insert(id);
                    Action::Evaluate { method, params }
                },
            },
        },
        Request::Unknown { method } => match id {
            None => Action::Nothing,
            Some(_) => {
                let mut message = "unknown method ".to_owned();
                message.append(quoted(method.as_str()).as_str());
                Action::Refuse(Failure { kind: FailureKind::MethodNotFound, message })
            },
        },
    }
}

/// Whether an action answers the message.
pub open spec fn answers_message(action: Action) -> bool {
    match action {
        Action::Describe => true,
        Action::Shutdown { answer } => answer,
        Action::Evaluate { .. } => true,
        Action::Refuse(_) => true,
        _ => false,
    }
}

/// Every message with an identifier is answered, but for cancellations, and none
/// without.
pub proof fn law_messages_answered(
    action: Action,
    id: Option<Seq<char>>,
    request: Request,
    in_flight: Set<Seq<char>>,
)
    requires
        acts(action, id, request, in_flight),
    ensures
        answers_message(action) <==> id is Some && !(request is Cancel),
{
}

/// Cancelling changes nothing: what is in flight stays in flight.
pub proof fn law_cancel_changes_nothing(
    in_flight: Set<Seq<char>>,
    id: Option<Seq<char>>,
    target: Result<String, String>,
)
    ensures
        in_flight_after(in_flight, id, Request::Cancel { target }) == in_flight,
{
}

/// Exactly the evaluations that run take flight, and one that has been answered
/// leaves no trace.
pub proof fn law_flight(
    action: Action,
    in_flight: Set<Seq<char>>,
    id: Option<Seq<char>>,
    request: Request,
)
    requires
        acts(action, id, request, in_flight),
    ensures
        action is Evaluate ==> in_flight_after(in_flight, id, request).contains(id->Some_0),
        !(action is Evaluate) ==> in_flight_after(in_flight, id, request) == in_flight,
        action is Evaluate && !in_flight.contains(id->Some_0) ==> in_flight_after(
            in_flight,
            id,
            request,
        ).remove(id->Some_0) == in_flight,
{
    if action is Evaluate && !in_flight.contains(id->Some_0) {
        assert(in_flight.insert(id->Some_0).remove(id->Some_0) =~= in_flight);
    }
}

/// What each message comes to. A description is given to whoever can be
/// answered; a shutdown always happens, with an answer where one is due; a
/// cancellation is told whether its own target is in flight; an evaluation runs
/// with the parameters that it came with, is refused for those that could not be
/// read, and is ignored where nobody waits; any other method is refused by name.
pub proof fn law_each_message(
    action: Action,
    id: Option<Seq<char>>,
    request: Request,
    in_flight: Set<Seq<char>>,
)
    requires
        acts(action, id, request, in_flight),
    ensures
        request is Describe && id is Some ==> action is Describe,
        request is Describe && id is None ==> action is Nothing,
        request is Shutdown ==> (action matches Action::Shutdown { answer } && (answer <==> id
            is Some)),
        request matches Request::Cancel { target: Ok(target) } ==> (action
            matches Action::CancelIgnored { target: named, known } && named@ == target@ && (known
            <==> in_flight.contains(target@))),
        request matches Request::Cancel { target: Err(fault) } ==> (action
            matches Action::CancelMalformed { message } && message@ == fault@),
        request matches Request::Evaluate { method, .. } ==> (id is None ==> (action
            matches Action::NotificationIgnored { method: named } && named@ == method@)),
        request matches Request::Evaluate { method, params: Ok(params) } ==> (id is Some ==> (action
            matches Action::Evaluate { method: named, params: given } && named@ == method@ && given
            == params)),
        request matches Request::Evaluate { params: Err(fault), .. } ==> (id is Some ==> (action
            matches Action::Refuse(failure) && failure.kind == FailureKind::InvalidParams
            && failure.message@ == fault@)),
        request matches Request::Unknown { .. } ==> (id is None ==> action is Nothing),
        request matches Request::Unknown { method } ==> (id is Some ==> (action
            matches Action::Refuse(failure) && failure.kind == FailureKind::MethodNotFound
            && failure.message@ == "unknown method "@ + quoted_text(method@))),
{
}

/// The requests in flight change only by an evaluation that runs, which is added
/// under its own identifier; all others stay.
pub proof fn law_others_stay_in_flight(
    action: Action,
    in_flight: Set<Seq<char>>,
    id: Option<Seq<char>>,
    request: Request,
    other: Seq<char>,
)
    requires
        acts(action, id, request, in_flight),
    ensures
        in_flight_after(in_flight, id, request).contains(other) <==> in_flight.contains(other) || (
        action is Evaluate && id == Some(other)),
{
}

} // verus!
