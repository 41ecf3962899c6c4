//! The signal channel between the login page and the host: a navigation to
//! an address that is never loaded, with the token as its query value.

use vstd::prelude::*;
use vstd::string::StringExecFns;
use vstd::string::StrSliceExecFns;
use crate::text::{chars_of, find, find_first, lemma_find_is_first, matches_at};
use crate::text::{occurs_at, starts_with};

verus! {

/// What the host does with a navigation attempt.
#[derive(Debug)]
pub enum Verdict {
    /// An ordinary navigation of the provider's page: it goes on.
    Proceed,
    /// A signal without a token: stopped, and nothing is reported.
    Discard,
    /// A signal with its token: stopped, and the token is reported.
    Capture(String),
}

/// A verdict with the token as plain text.
pub ghost enum VerdictModel {
    Proceed,
    Discard,
    Capture(Seq<char>),
}

impl View for Verdict {
    type V = VerdictModel;

    open spec fn view(&self) -> VerdictModel {
        match self {
            Verdict::Proceed => VerdictModel::Proceed,
            Verdict::Discard => VerdictModel::Discard,
            Verdict::Capture(t) => VerdictModel::Capture(t@),
        }
    }
}

impl Verdict {
    /// May the navigation go on?
    pub open spec fn allows(self) -> bool {
        self is Proceed
    }

    /// May the navigation go on? Only an ordinary one may.
    pub fn allows_navigation(&self) -> (r: bool)
        ensures
            r == self.allows(),
            r == (self@ is Proceed),
    {
        match self {
            Verdict::Proceed => true,
            _ => false,
        }
    }
}

/// The start of every signal address.
pub open spec fn sentinel_prefix() -> Seq<char> {
    "sentinel://login_success"@
}

/// What stands directly before the token in a signal address.
pub open spec fn token_marker() -> Seq<char> {
    "token="@
}

/// The verdict on a navigation to `url`: an address that does not start with
/// the sentinel prefix goes on; one that does is stopped, and carries as its
/// token all that follows the first token marker, where it has one.
pub open spec fn judge(url: Seq<char>) -> VerdictModel {
    if !starts_with(url, sentinel_prefix()) {
        VerdictModel::Proceed
    } else {
        match find(url, token_marker()) {
            Some(i) => VerdictModel::Capture(
                url.subrange(i + token_marker().len(), url.len() as int),
            ),
            None => VerdictModel::Discard,
        }
    }
}

/// The signal address that carries `token`.
pub open spec fn signal_of(token: Seq<char>) -> Seq<char> {
    sentinel_prefix() + "?token="@ + token
}

/// Judges one navigation attempt.
pub fn judge_navigation(url: &str) -> (v: Verdict)
    ensures
        v@ == judge(url@),
{
    let text: Vec<char> = chars_of(url);
    let prefix: Vec<char> = chars_of("sentinel://login_success");
    if !matches_at(&text, &prefix, 0) {
        return Verdict::Proceed;
    }
    let marker: Vec<char> = chars_of("token=");
    match find_first(&text, &marker) {
        Some(i) => {
            let end: usize = text.len();
            let width: usize = marker.len();
            proof {
                lemma_find_is_first(text@, marker@);
                assert(occurs_at(text@, marker@, i as int));
            }
            let token: &str = url.substring_char(i + width, end);
            Verdict::Capture(String::from_str(token))
        },
        None => Verdict::Discard,
    }
}

/// Builds the signal address for a token, as the page's observer does.
pub fn signal_url(token: &str) -> (u: String)
    ensures
        u@ == signal_of(token@),
{
    let mut u: String = String::from_str("sentinel://login_success");
    u.append("?token=");
    u.append(token);
    u
}

/// Whatever the token is, the address built for it is stopped by the host
/// and read back as exactly that token.
pub proof fn law_signal_round_trip(token: Seq<char>)
    ensures
        judge(signal_of(token)) == VerdictModel::Capture(token),
{
    reveal_strlit("sentinel://login_success");
    reveal_strlit("?token=");
    reveal_strlit("token=");
    let url = signal_of(token);
    let p = sentinel_prefix();
    let m = token_marker();
    assert(p.len() == 24);
    assert(m.len() == 6);
    assert(url.len() == 31 + token.len());
    assert(url.subrange(0, 24) =~= p);
    assert(url.subrange(25, 31) =~= m);
    assert(occurs_at(url, m, 25));
    assert forall|j: int| 0 <= j < 25 implies !occurs_at(url, m, j) by {
        if occurs_at(url, m, j) {
            let sub = url.subrange(j, j + 6);
            assert(sub[0] == url[j]);
            assert(sub[1] == url[j + 1]);
            assert(m[0] == 't');
            assert(m[1] == 'o');
            assert(url[j] == 't');
            assert(url[j + 1] == 'o');
            assert(j == 3);
            assert(url[4] == 'i');
        }
    }
    lemma_find_is_first(url, m);
    assert(find(url, m) == Some(25int));
    assert(url.subrange(31, url.len() as int) =~= token);
}

} // verus!
