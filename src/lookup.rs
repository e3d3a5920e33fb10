use vstd::prelude::*;

verus! {

/// The abstract result of one store fetch.
pub enum Fetched {
    Found(Seq<char>),
    Absent,
    Failed(Seq<char>),
}

/// The result of one store fetch: the text stored under the key, no entry,
/// or a store error with its text.
#[derive(Debug, Clone, PartialEq, Eq)]
pub enum Lookup {
    Found(String),
    Absent,
    Failed(String),
}

impl View for Lookup {
    type V = Fetched;

    open spec fn view(&self) -> Fetched {
        match self {
            Lookup::Found(v) => Fetched::Found(v@),
            Lookup::Absent => Fetched::Absent,
            Lookup::Failed(e) => Fetched::Failed(e@),
        }
    }
}

impl Lookup {
    /// A copy of this result.
    pub fn copied(&self) -> (r: Lookup)
        ensures
            r == *self,
    {
        match self {
            Lookup::Found(v) => Lookup::Found(v.clone()),
            Lookup::Absent => Lookup::Absent,
            Lookup::Failed(e) => Lookup::Failed(e.clone()),
        }
    }
}

/// What reaches the resolver from the host.
#[derive(Debug, Clone, PartialEq, Eq)]
pub enum Event {
    /// The store binding could not be opened; the text says why.
    StoreUnavailable(String),
    /// The fetch that the resolver asked for has finished.
    Fetched(Lookup),
}

/// The abstract form of an event.
pub enum Signal {
    StoreUnavailable(Seq<char>),
    Fetched(Fetched),
}

impl View for Event {
    type V = Signal;

    open spec fn view(&self) -> Signal {
        match self {
            Event::StoreUnavailable(m) => Signal::StoreUnavailable(m@),
            Event::Fetched(l) => Signal::Fetched(l@),
        }
    }
}

} // verus!
