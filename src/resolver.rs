use vstd::prelude::*;
use vstd::string::*;
use crate::decision::{redirect_outcome, Decision, Outcome};
use crate::lookup::{Event, Fetched, Signal};
use crate::policy::{decide, default_key};

verus! {

/// The short key named by a request path: the path without its leading
/// slash, so that `""` and `"/"` both name the empty key.
pub open spec fn short_key_of(path: Seq<char>) -> Seq<char> {
    if path.len() > 0 && path[0] == '/' {
        path.skip(1)
    } else {
        path
    }
}

/// Extracts the short key from a request path.
pub fn short_key(path: &str) -> (k: String)
    ensures
        k@ == short_key_of(path@),
{
    if !path.is_empty() && path.get_char(0) == '/' {
        path.substring_char(1, path.unicode_len()).to_owned()
    } else {
        path.to_owned()
    }
}

/// Where a resolution stands, abstractly.
pub enum Stage {
    /// Waiting for the fetch of the fallback entry.
    AwaitDefault,
    /// Waiting for the fetch of the key; holds the fallback's stored text.
    AwaitKeyed(Seq<char>),
    /// Answered.
    Done(Outcome),
}

/// What the host is asked to do next, abstractly.
pub enum Step {
    Fetch(Seq<char>),
    Respond(Outcome),
}

/// What the host is asked to do next: fetch a key from the store, or send
/// the answer.
#[derive(Debug, Clone, PartialEq, Eq)]
pub enum Action {
    Fetch(String),
    Respond(Decision),
}

impl View for Action {
    type V = Step;

    open spec fn view(&self) -> Step {
        match self {
            Action::Fetch(k) => Step::Fetch(k@),
            Action::Respond(d) => Step::Respond(d@),
        }
    }
}

#[derive(Debug, Clone, PartialEq, Eq)]
enum Phase {
    AwaitDefault,
    AwaitKeyed(String),
    Done(Decision),
}

/// One resolution of one request, driven by the host: it asks for store
/// fetches one at a time and ends with a single answer.
#[derive(Debug, Clone, PartialEq, Eq)]
pub struct Resolver {
    key: String,
    phase: Phase,
}

/// The stage and request that a resolution moves to on `signal`, in stage
/// `stage` for the short key `key`.
pub open spec fn transition(key: Seq<char>, stage: Stage, signal: Signal) -> (Stage, Step) {
    match stage {
        Stage::Done(o) => (Stage::Done(o), Step::Respond(o)),
        _ => match signal {
            Signal::StoreUnavailable(m) => finish(Outcome::Failure(m)),
            Signal::Fetched(f) => match stage {
                Stage::AwaitKeyed(d) => match f {
                    Fetched::Found(v) => finish(redirect_outcome(v)),
                    _ => finish(redirect_outcome(d)),
                },
                _ => match f {
                    Fetched::Failed(e) => finish(Outcome::Failure(e)),
                    Fetched::Absent => finish(Outcome::Failure(Seq::empty())),
                    Fetched::Found(d) => if key.len() == 0 {
                        finish(redirect_outcome(d))
                    } else {
                        (Stage::AwaitKeyed(d), Step::Fetch(key))
                    },
                },
            },
        },
    }
}

/// Ends a resolution with the answer `o`.
pub open spec fn finish(o: Outcome) -> (Stage, Step) {
    (Stage::Done(o), Step::Respond(o))
}

/// A resolution fed the store's results answers as the policy says: the
/// fallback fetch either ends it, or is followed by exactly one fetch of the
/// key, after which it ends; and an answered resolution stays answered.
pub proof fn lemma_run_follows_policy(key: Seq<char>, default: Fetched, keyed: Fetched)
    ensures
        ({
            let (stage, step) = transition(key, Stage::AwaitDefault, Signal::Fetched(default));
            match step {
                Step::Respond(o) => o == decide(key, default, keyed),
                Step::Fetch(k) => k == key && transition(key, stage, Signal::Fetched(keyed)).1
                    == Step::Respond(decide(key, default, keyed)) && transition(
                    key,
                    stage,
                    Signal::Fetched(keyed),
                ).0 is Done,
            }
        }),
        forall|o: Outcome, s: Signal| #[trigger]
            transition(key, Stage::Done(o), s) == finish(o),
{
}

impl Resolver {
    /// The short key being resolved.
    pub closed spec fn key(&self) -> Seq<char> {
        self.key@
    }

    /// Where the resolution stands.
    pub closed spec fn stage(&self) -> Stage {
        match self.phase {
            Phase::AwaitDefault => Stage::AwaitDefault,
            Phase::AwaitKeyed(d) => Stage::AwaitKeyed(d@),
            Phase::Done(d) => Stage::Done(d@),
        }
    }

    /// Begins the resolution of `key`; the first request is the fetch of
    /// the fallback entry.
    pub fn start(key: String) -> (r: (Resolver, Action))
        ensures
            r.0.key() == key@,
            r.0.stage() == Stage::AwaitDefault,
            r.1@ == Step::Fetch(default_key()),
    {
        let first = "default".to_owned();
        proof {
            reveal_strlit("default");
        }
        assert(first@ =~= default_key());
        (Resolver { key, phase: Phase::AwaitDefault }, Action::Fetch(first))
    }

    /// Takes the host's event and says what to do next. Once answered, the
    /// answer is repeated whatever comes.
    pub fn on_event(&mut self, event: Event) -> (a: Action)
        ensures
            final(self).key() == old(self).key(),
            (final(self).stage(), a@) == transition(old(self).key(), old(self).stage(), event@),
    {
        let next = match (&self.phase, event) {
            (Phase::Done(d), _) => Phase::Done(d.copied()),
            (_, Event::StoreUnavailable(m)) => Phase::Done(Decision::Failure(m)),
            (Phase::AwaitKeyed(d), Event::Fetched(f)) => match f {
                crate::lookup::Lookup::Found(v) => Phase::Done(Decision::redirect_to(&v)),
                _ => Phase::Done(Decision::redirect_to(d)),
            },
            (Phase::AwaitDefault, Event::Fetched(f)) => match f {
                crate::lookup::Lookup::Failed(e) => Phase::Done(Decision::Failure(e)),
                crate::lookup::Lookup::Absent => Phase::Done(Decision::Failure(String::new())),
                crate::lookup::Lookup::Found(d) => if self.key.as_str().is_empty() {
                    Phase::Done(Decision::redirect_to(&d))
                } else {
                    Phase::AwaitKeyed(d)
                },
            },
        };
        self.phase = next;
        match &self.phase {
            Phase::Done(d) => Action::Respond(d.copied()),
            _ => Action::Fetch(self.key.clone()),
        }
    }

    /// Whether the answer has been given.
    pub fn is_done(&self) -> (b: bool)
        ensures
            b == (self.stage() is Done),
    {
        match self.phase {
            Phase::Done(_) => true,
            _ => false,
        }
    }
}

} // verus!
