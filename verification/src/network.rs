//! The counting side of the network display: the title under which an
//! interface is shown, and the bounded history of its samples.

use vstd::prelude::*;
use std::collections::VecDeque;

verus! {

/// How many samples a history keeps.
pub const HISTORY_LEN: usize = 60;

/// Whether the byte `b` may stand in a title: an ASCII letter or digit, a
/// space, or a round bracket.
pub open spec fn allowed_in_title(b: u8) -> bool {
    ||| 0x61 <= b <= 0x7a  // a to z
    ||| 0x41 <= b <= 0x5a  // A to Z
    ||| 0x30 <= b <= 0x39  // 0 to 9
    ||| b == 0x20  // space
    ||| b == 0x28  // (
    ||| b == 0x29  // )
}

/// Every byte of `s` may stand in a title.
pub open spec fn all_allowed(s: Seq<u8>) -> bool {
    forall|i: int| 0 <= i < s.len() ==> allowed_in_title(#[trigger] s[i])
}

/// Decides whether `b` may stand in a title.
pub fn is_allowed_in_title(b: u8) -> (r: bool)
    ensures
        r == allowed_in_title(b),
{
    (0x61 <= b && b <= 0x7a) || (0x41 <= b && b <= 0x5a) || (0x30 <= b && b <= 0x39) || b == 0x20
        || b == 0x28 || b == 0x29
}

/// The title under which an interface named `name` is shown: the longest
/// prefix of `name` in which every byte is allowed. The title ends before
/// the first byte that is not.
pub fn clean_title(name: &[u8]) -> (title: Vec<u8>)
    ensures
        title@.len() <= name@.len(),
        title@ == name@.take(title@.len() as int),
        all_allowed(title@),
        title@.len() < name@.len() ==> !allowed_in_title(name@[title@.len() as int]),
{
    let mut title: Vec<u8> = Vec::new();
    let mut i: usize = 0;
    while i < name.len() && is_allowed_in_title(name[i])
        invariant
            i <= name@.len(),
            title@.len() == i,
            title@ == name@.take(i as int),
            all_allowed(title@),
        decreases name@.len() - i,
    {
        title.push(name[i]);
        i += 1;
        assert(title@ =~= name@.take(i as int));
    }
    title
}

/// The most recent samples of one counter, newest first, `HISTORY_LEN` at
/// most.
pub struct History<T> {
    samples: VecDeque<T>,
}

impl<T> View for History<T> {
    type V = Seq<T>;

    closed spec fn view(&self) -> Seq<T> {
        self.samples@
    }
}

impl<T> History<T> {
    /// A history never holds more than `HISTORY_LEN` samples.
    pub open spec fn wf(&self) -> bool {
        self@.len() <= HISTORY_LEN
    }

    /// What a history holds after `sample` is recorded: the new sample in
    /// front, and of the earlier ones as many as still fit, the oldest
    /// leaving first.
    pub open spec fn recorded(before: Seq<T>, sample: T) -> Seq<T> {
        let all = seq![sample] + before;
        if all.len() > HISTORY_LEN {
            all.drop_last()
        } else {
            all
        }
    }

    /// The empty history.
    pub fn new() -> (h: Self)
        ensures
            h@ == Seq::<T>::empty(),
            h.wf(),
    {
        History { samples: VecDeque::new() }
    }

    /// The number of samples held.
    pub fn len(&self) -> (n: usize)
        ensures
            n == self@.len(),
    {
        self.samples.len()
    }

    /// The samples, newest first.
    pub fn samples(&self) -> (s: &VecDeque<T>)
        ensures
            s@ == self@,
    {
        &self.samples
    }

    /// Records `sample` as the newest. A full history drops its oldest
    /// sample to make room.
    pub fn record(&mut self, sample: T)
        ensures
            final(self)@ == Self::recorded(old(self)@, sample),
            old(self).wf() ==> final(self).wf() && final(self)@[0] == sample,
            old(self).wf() ==> final(self)@.len() == if old(self)@.len() < HISTORY_LEN {
                old(self)@.len() + 1
            } else {
                HISTORY_LEN as nat
            },
    {
        self.samples.push_front(sample);
        if self.samples.len() > HISTORY_LEN {
            let _ = self.samples.pop_back();
            assert(self.samples@ =~= (seq![sample] + old(self)@).drop_last());
        }
    }
}

} // verus!
