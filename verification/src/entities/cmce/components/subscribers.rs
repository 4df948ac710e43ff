//! The subscribers that circuit mode control knows of, and the groups they
//! belong to.

use crate::saps::control::BrewSubscriberAction;
use crate::saps::control::MmSubscriberUpdate;
use vstd::prelude::*;

verus! {

/// One subscriber's membership of one group.
#[derive(Clone, Copy, Debug, PartialEq, Eq, Structural)]
pub struct Affiliation {
    pub issi: u32,
    pub gssi: u32,
}

/// The subscribers registered with the cell and their group memberships.
pub struct SubscriberDirectory {
    registered: Vec<u32>,
    affiliations: Vec<Affiliation>,
}

/// The memberships that remain when the subscriber `issi` leaves the groups
/// `groups`.
pub open spec fn without_groups(
    affiliations: Seq<Affiliation>,
    issi: u32,
    groups: Seq<u32>,
) -> Seq<Affiliation> {
    affiliations.filter(|a: Affiliation| !(a.issi == issi && groups.contains(a.gssi)))
}

/// The memberships that remain when the subscriber `issi` leaves the cell.
pub open spec fn without_subscriber(affiliations: Seq<Affiliation>, issi: u32) -> Seq<
    Affiliation,
> {
    affiliations.filter(|a: Affiliation| a.issi != issi)
}

/// The memberships of `issi` in each of `groups`, in their order.
pub open spec fn memberships(issi: u32, groups: Seq<u32>) -> Seq<Affiliation> {
    groups.map_values(|gssi: u32| Affiliation { issi, gssi })
}

impl SubscriberDirectory {
    /// The registered subscribers, in the order in which they registered.
    pub closed spec fn registered(&self) -> Seq<u32> {
        self.registered@
    }

    /// The group memberships, in the order in which they were made.
    pub closed spec fn affiliations(&self) -> Seq<Affiliation> {
        self.affiliations@
    }

    /// Whether any subscriber is a member of the group `gssi`.
    pub open spec fn has_members(&self, gssi: u32) -> bool {
        exists|i: int| 0 <= i < self.affiliations().len() && self.affiliations()[i].gssi == gssi
    }

    /// A directory that knows no subscriber.
    pub fn new() -> (directory: SubscriberDirectory)
        ensures
            directory.registered() == Seq::<u32>::empty(),
            directory.affiliations() == Seq::<Affiliation>::empty(),
    {
        SubscriberDirectory { registered: Vec::new(), affiliations: Vec::new() }
    }

    /// Whether `gssi` is among `groups`.
    fn names(groups: &Vec<u32>, gssi: u32) -> (found: bool)
        ensures
            found == groups@.contains(gssi),
    {
        let mut i: usize = 0;
        while i < groups.len()
            invariant
                i <= groups.len(),
                forall|k: int| 0 <= k < i ==> groups@[k] != gssi,
            decreases groups.len() - i,
        {
            if groups[i] == gssi {
                return true;
            }
            i = i + 1;
        }
        false
    }

    /// Whether the subscriber `issi` is registered.
    pub fn is_registered(&self, issi: u32) -> (found: bool)
        ensures
            found == self.registered().contains(issi),
    {
        Self::names(&self.registered, issi)
    }

    /// Whether any subscriber is a member of the group `gssi`.
    pub fn group_has_members(&self, gssi: u32) -> (found: bool)
        ensures
            found == self.has_members(gssi),
    {
        let mut i: usize = 0;
        while i < self.affiliations.len()
            invariant
                i <= self.affiliations.len(),
                forall|k: int| 0 <= k < i ==> self.affiliations@[k].gssi != gssi,
            decreases self.affiliations.len() - i,
        {
            if self.affiliations[i].gssi == gssi {
                assert(self.affiliations()[i as int].gssi == gssi);
                return true;
            }
            i = i + 1;
        }
        false
    }

    /// Enters the subscriber, unless it is registered already.
    fn register(&mut self, issi: u32)
        ensures
            final(self).registered() == if old(self).registered().contains(issi) {
                old(self).registered()
            } else {
                old(self).registered().push(issi)
            },
            final(self).affiliations() == old(self).affiliations(),
    {
        if !self.is_registered(issi) {
            self.registered.push(issi);
        }
    }

    /// Makes the subscriber a member of each of the groups.
    fn affiliate(&mut self, issi: u32, groups: &Vec<u32>)
        ensures
            final(self).registered() == old(self).registered(),
            final(self).affiliations() == old(self).affiliations() + memberships(issi, groups@),
    {
        let mut i: usize = 0;
        assert(self.affiliations@ =~= old(self).affiliations@ + memberships(
            issi,
            groups@.take(0),
        ));
        while i < groups.len()
            invariant
                i <= groups.len(),
                self.registered == old(self).registered,
                self.affiliations@ == old(self).affiliations@ + memberships(
                    issi,
                    groups@.take(i as int),
                ),
            decreases groups.len() - i,
        {
            self.affiliations.push(Affiliation { issi, gssi: groups[i] });
            i = i + 1;
            assert(self.affiliations@ =~= old(self).affiliations@ + memberships(
                issi,
                groups@.take(i as int),
            ));
        }
        assert(groups@.take(groups.len() as int) =~= groups@);
    }

    /// Forgets the subscriber and all its memberships.
    fn deregister(&mut self, issi: u32)
        ensures
            final(self).registered() == old(self).registered().filter(|s: u32| s != issi),
            final(self).affiliations() == without_subscriber(old(self).affiliations(), issi),
    {
        let ghost stay = |s: u32| s != issi;
        let mut registered: Vec<u32> = Vec::new();
        let mut i: usize = 0;
        assert(self.registered@.take(0).filter(stay) =~= Seq::<u32>::empty()) by {
            reveal(Seq::filter);
        }
        while i < self.registered.len()
            invariant
                i <= self.registered.len(),
                stay == |s: u32| s != issi,
                registered@ == self.registered@.take(i as int).filter(stay),
            decreases self.registered.len() - i,
        {
            let s = self.registered[i];
            proof {
                self.registered@.take(i as int).lemma_filter_push(s, stay);
                assert(self.registered@.take(i as int).push(s) =~= self.registered@.take(i + 1));
            }
            if s != issi {
                registered.push(s);
            }
            i = i + 1;
        }
        assert(self.registered@.take(self.registered.len() as int) =~= self.registered@);
        let ghost keep = |a: Affiliation| a.issi != issi;
        let mut affiliations: Vec<Affiliation> = Vec::new();
        let mut j: usize = 0;
        assert(self.affiliations@.take(0).filter(keep) =~= Seq::<Affiliation>::empty()) by {
            reveal(Seq::filter);
        }
        while j < self.affiliations.len()
            invariant
                j <= self.affiliations.len(),
                keep == |a: Affiliation| a.issi != issi,
                affiliations@ == self.affiliations@.take(j as int).filter(keep),
            decreases self.affiliations.len() - j,
        {
            let a = self.affiliations[j];
            proof {
                self.affiliations@.take(j as int).lemma_filter_push(a, keep);
                assert(self.affiliations@.take(j as int).push(a) =~= self.affiliations@.take(
                    j + 1,
                ));
            }
            if a.issi != issi {
                affiliations.push(a);
            }
            j = j + 1;
        }
        assert(self.affiliations@.take(self.affiliations.len() as int) =~= self.affiliations@);
        self.registered = registered;
        self.affiliations = affiliations;
    }

    /// Ends the subscriber's membership of each of the groups.
    fn detach(&mut self, issi: u32, groups: &Vec<u32>)
        ensures
            final(self).registered() == old(self).registered(),
            final(self).affiliations() == without_groups(old(self).affiliations(), issi, groups@),
    {
        let ghost keep = |a: Affiliation| !(a.issi == issi && groups@.contains(a.gssi));
        let mut affiliations: Vec<Affiliation> = Vec::new();
        let mut j: usize = 0;
        assert(self.affiliations@.take(0).filter(keep) =~= Seq::<Affiliation>::empty()) by {
            reveal(Seq::filter);
        }
        while j < self.affiliations.len()
            invariant
                j <= self.affiliations.len(),
                keep == |a: Affiliation| !(a.issi == issi && groups@.contains(a.gssi)),
                affiliations@ == self.affiliations@.take(j as int).filter(keep),
            decreases self.affiliations.len() - j,
        {
            let a = self.affiliations[j];
            proof {
                self.affiliations@.take(j as int).lemma_filter_push(a, keep);
                assert(self.affiliations@.take(j as int).push(a) =~= self.affiliations@.take(
                    j + 1,
                ));
            }
            if !(a.issi == issi && Self::names(groups, a.gssi)) {
                affiliations.push(a);
            }
            j = j + 1;
        }
        assert(self.affiliations@.take(self.affiliations.len() as int) =~= self.affiliations@);
        self.affiliations = affiliations;
    }

    /// Takes note of what happened to a subscriber. A registration enters the
    /// subscriber, unless it is registered already. An affiliation adds a
    /// membership for each group of the update. A detachment removes every
    /// membership in a group of the update. A deregistration removes the
    /// subscriber and all its memberships.
    pub fn apply(&mut self, update: &MmSubscriberUpdate)
        ensures
            final(self).registered() == match update.action {
                BrewSubscriberAction::Register => if old(self).registered().contains(
                    update.issi,
                ) {
                    old(self).registered()
                } else {
                    old(self).registered().push(update.issi)
                },
                BrewSubscriberAction::Deregister => old(self).registered().filter(
                    |s: u32| s != update.issi,
                ),
                _ => old(self).registered(),
            },
            final(self).affiliations() == match update.action {
                BrewSubscriberAction::Register => old(self).affiliations(),
                BrewSubscriberAction::Affiliate => old(self).affiliations() + memberships(
                    update.issi,
                    update.groups@,
                ),
                BrewSubscriberAction::Deregister => without_subscriber(
                    old(self).affiliations(),
                    update.issi,
                ),
                BrewSubscriberAction::Detach => without_groups(
                    old(self).affiliations(),
                    update.issi,
                    update.groups@,
                ),
            },
    {
        match update.action {
            BrewSubscriberAction::Register => self.register(update.issi),
            BrewSubscriberAction::Affiliate => self.affiliate(update.issi, &update.groups),
            BrewSubscriberAction::Deregister => self.deregister(update.issi),
            BrewSubscriberAction::Detach => self.detach(update.issi, &update.groups),
        }
    }
}

} // verus!
