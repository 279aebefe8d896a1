use vstd::prelude::*;
use crate::text_map::TextMap;

verus! {

/// One `wait-for` channel.
#[derive(Clone, Copy, Debug, PartialEq, Eq, Structural)]
pub struct WaitChannel {
    /// Held by `wait-for -L`.
    pub locked: bool,
    /// Signalled by `wait-for -S` and not yet consumed.
    pub woken: bool,
    /// Clients blocked in `wait-for` on this channel.
    pub waiters: usize,
}

/// The state of a channel nobody has touched.
pub open spec fn fresh_channel() -> WaitChannel {
    WaitChannel { locked: false, woken: false, waiters: 0 }
}

/// The channel `name` in `channels`, or a fresh one.
pub open spec fn channel_or_fresh(channels: Map<Seq<char>, WaitChannel>, name: Seq<char>) -> WaitChannel {
    if channels.contains_key(name) { channels[name] } else { fresh_channel() }
}

/// The channels of `wait-for`, by name. Each operation decides; blocking
/// until another client changes a channel is left to the caller, which
/// calls [`WaitRegistry::woken`] or retries [`WaitRegistry::lock`] after
/// every change.
pub struct WaitRegistry {
    channels: TextMap<WaitChannel>,
}

impl View for WaitRegistry {
    type V = Map<Seq<char>, WaitChannel>;

    closed spec fn view(&self) -> Map<Seq<char>, WaitChannel> {
        self.channels@
    }
}

impl WaitRegistry {
    pub closed spec fn wf(&self) -> bool {
        self.channels.wf()
    }

    pub fn new() -> (registry: Self)
        ensures
            registry.wf(),
            registry@ == Map::<Seq<char>, WaitChannel>::empty(),
    {
        WaitRegistry { channels: TextMap::new() }
    }

    fn channel(&self, name: &str) -> (channel: WaitChannel)
        requires
            self.wf(),
        ensures
            channel == channel_or_fresh(self@, name@),
    {
        match self.channels.get(name) {
            Some(c) => *c,
            None => WaitChannel { locked: false, woken: false, waiters: 0 },
        }
    }

    /// `wait-for -S`: wake the channel's waiters.
    pub fn signal(&mut self, name: &str)
        requires
            old(self).wf(),
        ensures
            final(self).wf(),
            final(self)@ == old(self)@.insert(name@, WaitChannel { woken: true, ..channel_or_fresh(old(self)@, name@) }),
    {
        let channel = self.channel(name);
        self.channels.insert(name, WaitChannel { woken: true, ..channel });
    }

    /// `wait-for`: a pending signal is consumed at once (`true`: the wait is
    /// over; the channel goes unless it is locked); otherwise the caller
    /// becomes one more waiter (`false`: block until woken).
    pub fn wait(&mut self, name: &str) -> (done: bool)
        requires
            old(self).wf(),
        ensures
            final(self).wf(),
            done == channel_or_fresh(old(self)@, name@).woken,
            ({
                let c = channel_or_fresh(old(self)@, name@);
                if c.woken {
                    if c.locked {
                        final(self)@ == old(self)@.insert(name@, WaitChannel { woken: false, ..c })
                    } else {
                        final(self)@ == old(self)@.remove(name@)
                    }
                } else {
                    final(self)@ == old(self)@.insert(name@, WaitChannel { waiters: if c.waiters == usize::MAX { c.waiters } else { (c.waiters + 1) as usize }, ..c })
                }
            }),
    {
        let channel = self.channel(name);
        if channel.woken {
            if !channel.locked {
                self.channels.remove(name);
            } else {
                self.channels.insert(name, WaitChannel { woken: false, ..channel });
            }
            return true;
        }
        self.channels.insert(name, WaitChannel { waiters: channel.waiters.saturating_add(1), ..channel });
        false
    }

    /// A blocked waiter's check after a change: the wait is over when the
    /// channel is gone or woken. The last waiter of a woken channel consumes
    /// the signal, and the channel goes unless it is locked.
    pub fn woken(&mut self, name: &str) -> (done: bool)
        requires
            old(self).wf(),
        ensures
            final(self).wf(),
            done == (!old(self)@.contains_key(name@) || old(self)@[name@].woken),
            ({
                let c = old(self)@[name@];
                let left = if c.waiters == 0 { 0usize } else { (c.waiters - 1) as usize };
                if !old(self)@.contains_key(name@) || !c.woken {
                    final(self)@ == old(self)@
                } else if left != 0 {
                    final(self)@ == old(self)@.insert(name@, WaitChannel { waiters: left, ..c })
                } else if c.locked {
                    final(self)@ == old(self)@.insert(name@, WaitChannel { waiters: 0, woken: false, ..c })
                } else {
                    final(self)@ == old(self)@.remove(name@)
                }
            }),
    {
        let channel = match self.channels.get(name) {
            Some(c) => *c,
            None => return true,
        };
        if !channel.woken {
            return false;
        }
        let left = channel.waiters.saturating_sub(1);
        if left != 0 {
            self.channels.insert(name, WaitChannel { waiters: left, ..channel });
        } else if channel.locked {
            self.channels.insert(name, WaitChannel { waiters: 0, woken: false, ..channel });
        } else {
            self.channels.remove(name);
        }
        true
    }

    /// `wait-for -L`: take the channel's lock when it is free (`true`);
    /// otherwise the caller blocks and tries again after a change. Either way
    /// the channel exists afterwards.
    pub fn lock(&mut self, name: &str) -> (acquired: bool)
        requires
            old(self).wf(),
        ensures
            final(self).wf(),
            acquired == !channel_or_fresh(old(self)@, name@).locked,
            final(self)@ == old(self)@.insert(name@, WaitChannel { locked: true, ..channel_or_fresh(old(self)@, name@) }),
    {
        let channel = self.channel(name);
        self.channels.insert(name, WaitChannel { locked: true, ..channel });
        proof {
            if channel.locked {
                assert(WaitChannel { locked: true, ..channel } == channel);
            }
        }
        !channel.locked
    }

    /// `wait-for -U`: release a held lock. Fails (`false`, nothing changes)
    /// when the channel does not exist or is not locked. A woken channel
    /// that nobody waits on goes.
    pub fn unlock(&mut self, name: &str) -> (released: bool)
        requires
            old(self).wf(),
        ensures
            final(self).wf(),
            released == (old(self)@.contains_key(name@) && old(self)@[name@].locked),
            ({
                let c = old(self)@[name@];
                if !released {
                    final(self)@ == old(self)@
                } else if c.woken && c.waiters == 0 {
                    final(self)@ == old(self)@.remove(name@)
                } else {
                    final(self)@ == old(self)@.insert(name@, WaitChannel { locked: false, ..c })
                }
            }),
    {
        let channel = match self.channels.get(name) {
            Some(c) => *c,
            None => return false,
        };
        if !channel.locked {
            return false;
        }
        if channel.woken && channel.waiters == 0 {
            self.channels.remove(name);
        } else {
            self.channels.insert(name, WaitChannel { locked: false, ..channel });
        }
        true
    }
}

/// A signal is not lost: after `wait-for -S name`, the next `wait-for name`
/// ends at once, and the channel goes unless it is locked.
pub proof fn lemma_signal_then_wait(channels: Map<Seq<char>, WaitChannel>, name: Seq<char>)
    ensures
        ({
            let signalled = channels.insert(name, WaitChannel { woken: true, ..channel_or_fresh(channels, name) });
            &&& channel_or_fresh(signalled, name).woken
            &&& channel_or_fresh(signalled, name).locked == channel_or_fresh(channels, name).locked
        }),
{
}

/// `wait-for -L` excludes: once a lock is taken, taking it again fails
/// until `wait-for -U` releases it, after which it can be taken again.
pub proof fn lemma_lock_excludes(channels: Map<Seq<char>, WaitChannel>, name: Seq<char>)
    ensures
        ({
            let locked = channels.insert(name, WaitChannel { locked: true, ..channel_or_fresh(channels, name) });
            let c = locked[name];
            let unlocked = if c.woken && c.waiters == 0 {
                locked.remove(name)
            } else {
                locked.insert(name, WaitChannel { locked: false, ..c })
            };
            &&& channel_or_fresh(locked, name).locked
            &&& locked.contains_key(name) && locked[name].locked
            &&& !channel_or_fresh(unlocked, name).locked
        }),
{
}

} // verus!
