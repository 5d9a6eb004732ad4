//! The two random decisions of a request: whether to fail, and how long to wait.
use vstd::prelude::*;
use vstd::set_lib::{lemma_int_range, set_int_range};
use rand::Rng;
use crate::config::Component;

verus! {

/// Relies on `rand::thread_rng` and `Rng::gen_range`: a number drawn from
/// `lo` up to but not including `hi`; the call panics on an empty range.
#[verifier::external_body]
fn random_in(lo: usize, hi: usize) -> (r: usize)
    requires
        lo < hi,
    ensures
        lo <= r < hi,
{
    rand::thread_rng().gen_range(lo..hi)
}

/// Whether a roll of `roll` (from 1 to 100) fails a request under
/// `error_fraction` percent.
pub open spec fn fails_on(error_fraction: int, roll: int) -> bool {
    error_fraction != 0 && roll <= error_fraction
}

/// Decides whether the roll `roll`, drawn from 1 to 100, fails the request.
pub fn fails_on_roll(error_fraction: u32, roll: u32) -> (r: bool)
    ensures
        r == fails_on(error_fraction as int, roll as int),
{
    if error_fraction == 0 {
        return false;
    }
    roll <= error_fraction
}

/// Of the hundred equally likely rolls, exactly `error_fraction` fail a
/// request, so requests fail at that percentage.
pub proof fn lemma_failing_rolls(error_fraction: int)
    requires
        0 <= error_fraction <= 100,
    ensures
        Set::new(|roll: int| 1 <= roll <= 100 && fails_on(error_fraction, roll)).finite(),
        Set::new(|roll: int| 1 <= roll <= 100 && fails_on(error_fraction, roll)).len()
            == error_fraction,
{
    let failing = Set::new(|roll: int| 1 <= roll <= 100 && fails_on(error_fraction, roll));
    assert(failing =~= set_int_range(1, error_fraction + 1));
    lemma_int_range(1, error_fraction + 1);
}

/// The delay for the pick `index` among `buckets`: none when there are no
/// buckets, else the bucket at that index.
pub fn delay_at(buckets: &Vec<u32>, index: usize) -> (r: u32)
    requires
        buckets@.len() == 0 || index < buckets@.len(),
    ensures
        buckets@.len() == 0 ==> r == 0,
        buckets@.len() > 0 ==> r == buckets@[index as int],
{
    if buckets.len() == 0 {
        0
    } else {
        buckets[index]
    }
}

impl Component {
    /// Draws whether this request fails: never at 0 percent, always at 100.
    pub fn should_error(&self) -> (r: bool)
        ensures
            self.error_fraction == 0 ==> !r,
            self.error_fraction >= 100 ==> r,
            r ==> self.error_fraction > 0,
    {
        if self.error_fraction == 0 {
            return false;
        }
        let roll: u32 = random_in(1, 101) as u32;
        fails_on_roll(self.error_fraction, roll)
    }

    /// Draws the delay of this request in milliseconds: zero without buckets,
    /// else one of the buckets.
    pub fn choose_delay(&self) -> (r: u32)
        ensures
            self.delay_buckets@.len() == 0 ==> r == 0,
            self.delay_buckets@.len() > 0 ==> self.delay_buckets@.contains(r),
    {
        if self.delay_buckets.len() == 0 {
            return 0;
        }
        let index: usize = random_in(0, self.delay_buckets.len());
        delay_at(&self.delay_buckets, index)
    }
}

} // verus!
