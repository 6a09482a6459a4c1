//! Progress bookkeeping for an enumeration that is announced in two
//! stages: first a total, then one ready signal per item.

use vstd::prelude::*;

verus! {

/// Counts ready items against an announced total; nothing is considered
/// complete before the total arrives.
pub struct GuildReadyCounter {
    pub init: bool,
    pub total_guilds: usize,
    pub ready_guilds: usize,
}

impl GuildReadyCounter {
    pub fn new() -> (r: Self)
        ensures
            !r.init,
            r.total_guilds == 0,
            r.ready_guilds == 0,
    {
        Self { init: false, total_guilds: 0, ready_guilds: 0 }
    }

    pub fn set_total(&mut self, total: usize)
        ensures
            final(self).init,
            final(self).total_guilds == total,
            final(self).ready_guilds == old(self).ready_guilds,
    {
        self.init = true;
        self.total_guilds = total;
    }

    pub fn add_ready(&mut self)
        requires
            old(self).ready_guilds < usize::MAX,
        ensures
            final(self).ready_guilds == old(self).ready_guilds + 1,
            final(self).init == old(self).init,
            final(self).total_guilds == old(self).total_guilds,
    {
        self.ready_guilds = self.ready_guilds + 1;
    }

    pub fn all_ready(&self) -> (r: bool)
        ensures
            r == (self.init && self.ready_guilds >= self.total_guilds),
    {
        self.init && self.ready_guilds >= self.total_guilds
    }
}

} // verus!
