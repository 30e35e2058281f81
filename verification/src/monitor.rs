//! State kept by the diagnostic log-monitor front end: the selected tab and
//! a rolling window of signal samples.

use vstd::prelude::*;

verus! {

/// Which of a fixed row of tab titles is selected.
#[derive(Debug)]
pub struct TabsState<'a> {
    /// The tab titles, in display order.
    pub titles: Vec<&'a str>,
    /// The index of the selected title.
    pub index: usize,
}

impl<'a> TabsState<'a> {
    /// Starts on the first tab.
    pub fn new(titles: Vec<&'a str>) -> (r: TabsState<'a>)
        ensures
            r.titles == titles,
            r.index == 0,
    {
        TabsState { titles, index: 0 }
    }

    /// Selects the next tab, wrapping from the last back to the first.
    pub fn next(&mut self)
        requires
            old(self).index < old(self).titles@.len(),
        ensures
            final(self).titles == old(self).titles,
            final(self).index == (old(self).index + 1) % (old(self).titles@.len() as int),
            final(self).index < final(self).titles@.len(),
    {
        let len = self.titles.len();
        self.index = (self.index + 1) % len;
    }

    /// Selects the previous tab, wrapping from the first to the last.
    pub fn previous(&mut self)
        requires
            old(self).index < old(self).titles@.len(),
        ensures
            final(self).titles == old(self).titles,
            old(self).index > 0 ==> final(self).index == old(self).index - 1,
            old(self).index == 0 ==> final(self).index == old(self).titles@.len() - 1,
            final(self).index < final(self).titles@.len(),
    {
        if self.index > 0 {
            self.index = self.index - 1;
        } else {
            self.index = self.titles.len() - 1;
        }
    }
}

/// A rolling window of signal samples, advanced a fixed number of samples
/// per tick.
#[derive(Debug)]
pub struct Signal {
    /// The samples currently in the window, oldest first.
    pub points: Vec<u64>,
    /// How many samples leave and enter the window per tick.
    pub tick_rate: usize,
}

impl Signal {
    /// Advances the window by one tick: the oldest `tick_rate` samples
    /// leave and the freshly sampled values are appended.  The sampler may
    /// deliver fewer than `tick_rate` values when it runs dry.
    pub fn on_tick(&mut self, fresh: &Vec<u64>)
        requires
            old(self).points@.len() >= old(self).tick_rate,
            fresh@.len() <= old(self).tick_rate,
        ensures
            final(self).tick_rate == old(self).tick_rate,
            final(self).points@ == old(self).points@.skip(old(self).tick_rate as int) + fresh@,
    {
        let n = self.tick_rate;
        let mut k: usize = 0;
        while k < n
            invariant
                k <= n,
                self.tick_rate == old(self).tick_rate,
                n == old(self).tick_rate,
                old(self).points@.len() >= n,
                self.points@ == old(self).points@.skip(k as int),
            decreases n - k,
        {
            self.points.remove(0);
            proof {
                assert(old(self).points@.skip(k as int).remove(0) =~= old(self).points@.skip(
                    k as int + 1,
                ));
            }
            k = k + 1;
        }
        let mut j: usize = 0;
        while j < fresh.len()
            invariant
                j <= fresh@.len(),
                self.tick_rate == old(self).tick_rate,
                self.points@ == old(self).points@.skip(old(self).tick_rate as int)
                    + fresh@.subrange(0, j as int),
            decreases fresh@.len() - j,
        {
            let value = fresh[j];
            self.points.push(value);
            proof {
                assert((old(self).points@.skip(old(self).tick_rate as int) + fresh@.subrange(
                    0,
                    j as int,
                )).push(fresh@[j as int]) =~= old(self).points@.skip(old(self).tick_rate as int)
                    + fresh@.subrange(0, j as int + 1));
            }
            j = j + 1;
        }
        proof {
            assert(fresh@.subrange(0, fresh@.len() as int) =~= fresh@);
        }
    }
}

} // verus!
