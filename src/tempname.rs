//! Names of the throwaway directories that hold a sandbox: random
//! alphanumeric names under a base directory, tried a bounded number of
//! times.
use vstd::prelude::*;
use crate::sandbox::join;
use rand::Rng;

verus! {

/// Length of a random directory name.
pub const NAME_LEN: usize = 10;

/// How many names are tried before giving up.
pub const MAX_ATTEMPTS: u32 = 10;

/// ASCII letters and digits.
pub open spec fn is_alphanumeric(c: u8) -> bool {
    (0x30u8 <= c && c <= 0x39u8) || (0x41u8 <= c && c <= 0x5au8) || (0x61u8 <= c && c <= 0x7au8)
}

/// Relies on rand's `Alphanumeric` distribution, sampled from the
/// thread-local generator: every character it yields is one of A-Z, a-z,
/// 0-9 (ASCII, so one byte each), and `take(len)` yields `len` of them.
#[verifier::external_body]
fn random_alphanumeric(len: usize) -> (r: Vec<u8>)
    ensures
        r@.len() == len,
        forall|i: int| 0 <= i < len ==> is_alphanumeric(#[trigger] r@[i]),
{
    let mut rng = rand::thread_rng();
    std::iter::repeat(()).map(|()| rng.sample(rand::distributions::Alphanumeric) as u8).take(len).collect()
}

/// Whether `p` is `base/<name>` for a fresh random name.
pub open spec fn is_candidate(base: Seq<u8>, p: Seq<u8>) -> bool {
    exists|name: Seq<u8>|
        {
            &&& name.len() == NAME_LEN
            &&& (forall|i: int| 0 <= i < NAME_LEN ==> is_alphanumeric(#[trigger] name[i]))
            &&& p == #[trigger] join(base, name)
        }
}

/// The search for an unused directory name under one base directory.
pub struct TempdirSearch {
    /// Names handed out so far.
    pub attempts: u32,
}

impl TempdirSearch {
    pub open spec fn well_formed(&self) -> bool {
        self.attempts <= MAX_ATTEMPTS
    }

    pub fn new() -> (r: TempdirSearch)
        ensures
            r.attempts == 0,
            r.well_formed(),
    {
        TempdirSearch { attempts: 0 }
    }

    /// The next path to try under `base`, or `None` once `MAX_ATTEMPTS`
    /// names have been handed out (every one of them was taken).
    pub fn next_candidate(&mut self, base: &Vec<u8>) -> (r: Option<Vec<u8>>)
        requires
            old(self).well_formed(),
        ensures
            final(self).well_formed(),
            old(self).attempts < MAX_ATTEMPTS <==> r.is_some(),
            r matches Some(p) ==> is_candidate(base@, p@) && final(self).attempts == old(self).attempts + 1,
            r.is_none() ==> *final(self) == *old(self),
    {
        if self.attempts >= MAX_ATTEMPTS {
            return None;
        }
        let name = random_alphanumeric(NAME_LEN);
        let mut p = base.clone();
        p.push(0x2fu8);
        let mut i: usize = 0;
        while i < name.len()
            invariant
                i <= name@.len() == NAME_LEN,
                p@ == base@ + seq![0x2fu8] + name@.subrange(0, i as int),
            decreases name@.len() - i,
        {
            p.push(name[i]);
            assert(p@ =~= base@ + seq![0x2fu8] + name@.subrange(0, i + 1));
            i = i + 1;
        }
        assert(name@.subrange(0, i as int) =~= name@);
        assert(p@ == join(base@, name@));
        self.attempts = self.attempts + 1;
        Some(p)
    }
}

} // verus!
