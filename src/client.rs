//! The immutable settings of a client: where to send requests, with which
//! model, and how to retry.
use vstd::prelude::*;
use crate::retry::RetryPolicy;

verus! {

/// The address without its trailing slashes.
pub open spec fn without_trailing_slashes(s: Seq<char>) -> Seq<char>
    decreases s.len(),
{
    if s.len() > 0 && s.last() == '/' {
        without_trailing_slashes(s.drop_last())
    } else {
        s
    }
}

/// The address with every trailing `/` removed.
pub fn strip_trailing_slashes(url: &str) -> (r: String)
    ensures
        r@ == without_trailing_slashes(url@),
{
    let mut n = url.unicode_len();
    assert(url@.subrange(0, n as int) =~= url@);
    while n > 0 && url.get_char(n - 1) == '/'
        invariant
            n <= url@.len(),
            without_trailing_slashes(url@) == without_trailing_slashes(url@.subrange(0, n as int)),
        decreases n,
    {
        assert(url@.subrange(0, n as int).drop_last() =~= url@.subrange(0, n - 1));
        n = n - 1;
    }
    assert(url@.subrange(0, 0) =~= Seq::<char>::empty());
    String::from_str(url.substring_char(0, n))
}

/// The settings of a client.
#[derive(Clone, Debug)]
pub struct ClientSettings {
    pub base_url: String,
    pub model: String,
    pub policy: RetryPolicy,
}

impl ClientSettings {
    /// The chat completions endpoint.
    pub fn chat_url(&self) -> (r: String)
        ensures
            r@ == self.base_url@ + "/chat/completions"@,
    {
        let mut s = self.base_url.clone();
        s.append("/chat/completions");
        s
    }

    /// The models listing endpoint.
    pub fn models_url(&self) -> (r: String)
        ensures
            r@ == self.base_url@ + "/models"@,
    {
        let mut s = self.base_url.clone();
        s.append("/models");
        s
    }
}

} // verus!
