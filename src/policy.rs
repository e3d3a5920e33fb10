use vstd::prelude::*;
use crate::decision::{redirect_outcome, url_parsed, Outcome};
use crate::resolver::short_key_of;
use crate::lookup::Fetched;

verus! {

/// The store key under which the fallback destination is kept.
pub open spec fn default_key() -> Seq<char> {
    seq!['d', 'e', 'f', 'a', 'u', 'l', 't']
}

/// The answer to a request for `key`, given what the store returned for
/// `"default"` and for `key` itself (the latter is not read for the empty
/// key). Without a fallback the answer is a failure; otherwise a missing
/// entry or a failed keyed fetch falls back to the default destination.
pub open spec fn decide(key: Seq<char>, default: Fetched, keyed: Fetched) -> Outcome {
    match default {
        Fetched::Failed(e) => Outcome::Failure(e),
        Fetched::Absent => Outcome::Failure(Seq::empty()),
        Fetched::Found(d) => if key.len() == 0 {
            redirect_outcome(d)
        } else {
            match keyed {
                Fetched::Found(v) => redirect_outcome(v),
                _ => redirect_outcome(d),
            }
        },
    }
}

/// A key with a stored destination is answered with a redirect to that
/// destination (as a parsed URL), provided a fallback exists; a destination
/// stored in its canonical URL form is redirected to exactly as stored.
pub proof fn lemma_stored_key_redirects(key: Seq<char>, default: Seq<char>, stored: Seq<char>)
    requires
        key.len() > 0,
    ensures
        decide(key, Fetched::Found(default), Fetched::Found(stored)) == redirect_outcome(stored),
        url_parsed(stored) == Ok::<Seq<char>, Seq<char>>(stored) ==> decide(
            key,
            Fetched::Found(default),
            Fetched::Found(stored),
        ) == Outcome::Redirect(stored),
{
}

/// A key with no entry is answered with a redirect to the fallback, never
/// with a failure while the fallback is a URL.
pub proof fn lemma_absent_key_falls_back(key: Seq<char>, default: Seq<char>)
    ensures
        decide(key, Fetched::Found(default), Fetched::Absent) == redirect_outcome(default),
        url_parsed(default) is Ok ==> decide(key, Fetched::Found(default), Fetched::Absent)
            is Redirect,
{
}

/// The paths `""` and `"/"` name the same, empty key, and are both answered
/// with a redirect to the fallback, whatever a keyed fetch would give.
pub proof fn lemma_root_paths_agree(default: Fetched, keyed: Fetched, other: Fetched)
    ensures
        short_key_of(Seq::empty()) == short_key_of(seq!['/']),
        short_key_of(seq!['/']).len() == 0,
        decide(short_key_of(Seq::empty()), default, keyed) == decide(
            short_key_of(seq!['/']),
            default,
            other,
        ),
        default is Found ==> decide(short_key_of(seq!['/']), default, keyed) == redirect_outcome(
            default->Found_0,
        ),
{
    assert(short_key_of(seq!['/']) =~= Seq::<char>::empty());
}

/// A failed keyed fetch degrades to the fallback redirect; its error text
/// never becomes the answer.
pub proof fn lemma_failed_fetch_falls_back(key: Seq<char>, default: Seq<char>, error: Seq<char>)
    ensures
        decide(key, Fetched::Found(default), Fetched::Failed(error)) == redirect_outcome(default),
        url_parsed(default) is Ok ==> decide(
            key,
            Fetched::Found(default),
            Fetched::Failed(error),
        ) == Outcome::Redirect(url_parsed(default)->Ok_0),
{
}

/// Without a fallback (its fetch failed, or it has no entry) every request
/// is answered with a failure; a missing fallback gives an empty body.
pub proof fn lemma_no_fallback_fails(key: Seq<char>, default: Fetched, keyed: Fetched)
    requires
        !(default is Found),
    ensures
        decide(key, default, keyed) is Failure,
        default is Absent ==> decide(key, default, keyed) == Outcome::Failure(Seq::empty()),
        default is Failed ==> decide(key, default, keyed) == Outcome::Failure(default->Failed_0),
{
}

} // verus!
