use vstd::prelude::*;

verus! {

/// Status of every redirect this service issues (permanent redirect).
pub const REDIRECT_STATUS: u16 = 301;

/// Status of every failure this service reports.
pub const FAILURE_STATUS: u16 = 500;

/// What `url::Url::parse` makes of a text: the serialised URL, or the text
/// of the parse error. It depends on the text alone.
pub uninterp spec fn url_parsed(s: Seq<char>) -> Result<Seq<char>, Seq<char>>;

/// Relies on `url::Url::parse` (re-exported by `worker`): a valid URL comes
/// back in its serialised form, an invalid one as the parse error's text.
#[verifier::external_body]
fn parse_url(s: &str) -> (r: Result<String, String>)
    ensures
        url_parsed(s@) == (match r {
            Ok(u) => Ok::<Seq<char>, Seq<char>>(u@),
            Err(e) => Err::<Seq<char>, Seq<char>>(e@),
        }),
{
    match worker::Url::parse(s) {
        Ok(u) => Ok(u.into()),
        Err(e) => Err(e.to_string()),
    }
}

/// The abstract answer to one request.
pub enum Outcome {
    /// Permanent redirect to this location.
    Redirect(Seq<char>),
    /// Server error with this message as body.
    Failure(Seq<char>),
}

/// The answer to one request: a redirect (status 301) with its location, or
/// a failure (status 500) with the body text.
#[derive(Debug, Clone, PartialEq, Eq)]
pub enum Decision {
    Redirect(String),
    Failure(String),
}

impl View for Decision {
    type V = Outcome;

    open spec fn view(&self) -> Outcome {
        match self {
            Decision::Redirect(u) => Outcome::Redirect(u@),
            Decision::Failure(m) => Outcome::Failure(m@),
        }
    }
}

/// The answer that redirects to the stored text `raw`: its parsed form when
/// it is a URL, else a failure that carries the parse error.
pub open spec fn redirect_outcome(raw: Seq<char>) -> Outcome {
    parsed_outcome(url_parsed(raw))
}

/// The answer for a parse result.
pub open spec fn parsed_outcome(parsed: Result<Seq<char>, Seq<char>>) -> Outcome {
    match parsed {
        Ok(u) => Outcome::Redirect(u),
        Err(e) => Outcome::Failure(e),
    }
}

impl Decision {
    /// Turns the result of parsing a stored destination into an answer.
    pub fn from_parsed(parsed: Result<String, String>) -> (d: Decision)
        ensures
            d@ == parsed_outcome(match parsed {
                Ok(u) => Ok::<Seq<char>, Seq<char>>(u@),
                Err(e) => Err::<Seq<char>, Seq<char>>(e@),
            }),
    {
        match parsed {
            Ok(u) => Decision::Redirect(u),
            Err(e) => Decision::Failure(e),
        }
    }

    /// Redirects to the stored text `raw`, parsed as a URL.
    pub fn redirect_to(raw: &str) -> (d: Decision)
        ensures
            d@ == redirect_outcome(raw@),
    {
        Decision::from_parsed(parse_url(raw))
    }

    /// A copy of this answer.
    pub fn copied(&self) -> (d: Decision)
        ensures
            d == *self,
    {
        match self {
            Decision::Redirect(u) => Decision::Redirect(u.clone()),
            Decision::Failure(m) => Decision::Failure(m.clone()),
        }
    }

    /// The HTTP status of the answer.
    pub fn status(&self) -> (s: u16)
        ensures
            s == (match self@ {
                Outcome::Redirect(_) => REDIRECT_STATUS,
                Outcome::Failure(_) => FAILURE_STATUS,
            }),
    {
        match self {
            Decision::Redirect(_) => REDIRECT_STATUS,
            Decision::Failure(_) => FAILURE_STATUS,
        }
    }
}

} // verus!
