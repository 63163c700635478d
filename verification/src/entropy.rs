use vstd::prelude::*;
use rand_core::RngCore;

verus! {

/// Where key and nonce material comes from. It is handed to every operation
/// that needs randomness, so a caller can substitute a fixed reserve for the
/// operating system's generator.
pub enum EntropySource {
    /// The operating system's secure random number generator.
    System,
    /// A reserve of bytes that is used up from the front.
    Fixed(Vec<u8>),
}

/// Calls `rand_core::OsRng.try_fill_bytes` on a fresh buffer of `n` bytes.
/// The buffer comes back, still `n` bytes long, where the generator
/// succeeded; nothing is claimed of its contents.
#[verifier::external_body]
fn os_random(n: usize) -> (res: Option<Vec<u8>>)
    ensures
        res matches Some(v) ==> v@.len() == n,
{
    let mut buf = vec![0u8; n];
    match rand_core::OsRng.try_fill_bytes(&mut buf) {
        Ok(()) => Some(buf),
        Err(_) => None,
    }
}

impl EntropySource {
    /// The bytes that a fixed reserve would hand out next, where it holds at
    /// least `n`. Of the system's generator nothing is known in advance.
    pub open spec fn preview(&self, n: nat) -> Option<Seq<u8>> {
        match self {
            EntropySource::Fixed(reserve) if reserve@.len() >= n => Some(reserve@.take(n as int)),
            _ => None,
        }
    }

    /// The source after `n` bytes were drawn from it.
    pub open spec fn after_draw(&self, n: nat, then: &EntropySource) -> bool {
        match self {
            EntropySource::System => then is System,
            EntropySource::Fixed(reserve) => then matches EntropySource::Fixed(rest) && rest@ == (
            if reserve@.len() >= n {
                reserve@.skip(n as int)
            } else {
                reserve@
            }),
        }
    }

    /// Draws `n` bytes. A fixed reserve hands out its first `n` bytes and
    /// keeps the rest; holding fewer, it hands out nothing and stays as it
    /// is. The system's generator may fail.
    pub fn draw(&mut self, n: usize) -> (res: Option<Vec<u8>>)
        ensures
            res matches Some(v) ==> v@.len() == n,
            *old(self) is Fixed ==> (match res {
                Some(v) => old(self).preview(n as nat) == Some(v@),
                None => old(self).preview(n as nat) is None,
            }),
            old(self).after_draw(n as nat, final(self)),
    {
        let (head, tail): (Vec<u8>, Vec<u8>) = match &*self {
            EntropySource::System => {
                return os_random(n);
            },
            EntropySource::Fixed(reserve) => {
                if reserve.len() < n {
                    return None;
                }
                let mut head: Vec<u8> = Vec::new();
                let mut tail: Vec<u8> = Vec::new();
                let mut i: usize = 0;
                while i < reserve.len()
                    invariant
                        i <= reserve@.len(),
                        n <= reserve@.len(),
                        head@ == reserve@.take(if i < n { i as int } else { n as int }),
                        tail@ == reserve@.subrange(n as int, if i < n { n as int } else { i as int }),
                    decreases reserve@.len() - i,
                {
                    if i < n {
                        head.push(reserve[i]);
                        assert(head@ =~= reserve@.take(i + 1));
                    } else {
                        tail.push(reserve[i]);
                        assert(tail@ =~= reserve@.subrange(n as int, i + 1));
                    }
                    i += 1;
                }
                assert(tail@ =~= reserve@.skip(n as int));
                (head, tail)
            },
        };
        *self = EntropySource::Fixed(tail);
        Some(head)
    }
}

} // verus!
