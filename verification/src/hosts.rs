//! The list of known hosts: what it holds, how it is searched, and how a
//! host is saved in it or deleted from it.

use crate::failure::Failure;
use crate::text::{blank, is_blank, lowercase, occurs, occurs_in};
use vstd::prelude::*;

verus! {

/// A host that a session can be opened to.
#[derive(Clone, Debug, PartialEq, Eq)]
pub struct Host {
    pub hostname: String,
    pub description: String,
}

/// A host, as values.
pub ghost struct HostView {
    pub hostname: Seq<char>,
    pub description: Seq<char>,
}

impl View for Host {
    type V = HostView;

    open spec fn view(&self) -> HostView {
        HostView { hostname: self.hostname@, description: self.description@ }
    }
}

impl Host {
    /// A host of the given name and description.
    pub fn new(hostname: &str, description: &str) -> (host: Host)
        ensures
            host@ == (HostView { hostname: hostname@, description: description@ }),
    {
        Host { hostname: String::from_str(hostname), description: String::from_str(description) }
    }

    /// A second host equal to this one.
    pub fn duplicate(&self) -> (host: Host)
        ensures
            host@ == self@,
    {
        Host { hostname: self.hostname.clone(), description: self.description.clone() }
    }
}

/// The hosts of a list, as values.
pub open spec fn host_views(hosts: Seq<Host>) -> Seq<HostView> {
    hosts.map_values(|host: Host| host@)
}

/// Whether a host answers a query: the query is empty, or it occurs in the
/// host's name or in its description, whatever the case of the letters.
pub open spec fn answers(host: HostView, query: Seq<char>) -> bool {
    ||| query.len() == 0
    ||| mentions(lowercase(host.hostname), lowercase(host.description), lowercase(query))
}

/// Whether a name or a description mentions a query: the query occurs in
/// one of the two, letter for letter.
pub open spec fn mentions(hostname: Seq<char>, description: Seq<char>, query: Seq<char>) -> bool {
    occurs_in(hostname, query) || occurs_in(description, query)
}

/// Whether a name or a description mentions a query, letter for letter.
/// The search hands it the three texts in lowercase.
pub fn is_mentioned(hostname: &str, description: &str, query: &str) -> (found: bool)
    ensures
        found == mentions(hostname@, description@, query@),
{
    occurs(hostname, query) || occurs(description, query)
}

/// Whether a host of the list has the name.
pub open spec fn named(hosts: Seq<HostView>, hostname: Seq<char>) -> bool {
    exists|at: int| 0 <= at < hosts.len() && hosts[at].hostname == hostname
}

/// The place of the first host that has the name, or the length of the list
/// where no host has it.
pub open spec fn first_named(hosts: Seq<HostView>, hostname: Seq<char>) -> int
    decreases hosts.len(),
{
    if hosts.len() == 0 {
        0
    } else if hosts.first().hostname == hostname {
        0
    } else {
        1 + first_named(hosts.drop_first(), hostname)
    }
}

/// The list once a host is saved in it: the host takes the place of the
/// first host of its name, or the end of the list where there is none.
pub open spec fn upserted(hosts: Seq<HostView>, host: HostView) -> Seq<HostView> {
    let at = first_named(hosts, host.hostname);
    if at < hosts.len() {
        hosts.update(at, host)
    } else {
        hosts.push(host)
    }
}

/// The test that a host answers the query.
pub open spec fn answering(query: Seq<char>) -> spec_fn(HostView) -> bool {
    |host: HostView| answers(host, query)
}

/// The test that a host has another name than the given one.
pub open spec fn named_otherwise(hostname: Seq<char>) -> spec_fn(HostView) -> bool {
    |host: HostView| host.hostname != hostname
}

/// The list without the hosts of a name.
pub open spec fn without(hosts: Seq<HostView>, hostname: Seq<char>) -> Seq<HostView> {
    hosts.filter(named_otherwise(hostname))
}

/// Whether no two hosts of the list have the same name.
pub open spec fn distinct_names(hosts: Seq<HostView>) -> bool {
    forall|one: int, other: int|
        0 <= one < other < hosts.len() ==> hosts[one].hostname != hosts[other].hostname
}

/// `first_named` gives the least place whose host has the name.
pub proof fn first_named_is_least(hosts: Seq<HostView>, hostname: Seq<char>)
    ensures
        0 <= first_named(hosts, hostname) <= hosts.len(),
        first_named(hosts, hostname) < hosts.len() ==> hosts[first_named(
            hosts,
            hostname,
        )].hostname == hostname,
        forall|before: int|
            0 <= before < first_named(hosts, hostname) ==> hosts[before].hostname != hostname,
        first_named(hosts, hostname) < hosts.len() <==> named(hosts, hostname),
    decreases hosts.len(),
{
    if hosts.len() > 0 && hosts.first().hostname != hostname {
        let rest = hosts.drop_first();
        first_named_is_least(rest, hostname);
        assert forall|before: int|
            0 <= before < first_named(hosts, hostname) implies hosts[before].hostname
            != hostname by {
            if before > 0 {
                assert(hosts[before] == rest[before - 1]);
            }
        }
        if named(hosts, hostname) {
            let at = choose|at: int| 0 <= at < hosts.len() && hosts[at].hostname == hostname;
            assert(rest[at - 1].hostname == hostname);
        }
        if first_named(rest, hostname) < rest.len() {
            assert(hosts[first_named(rest, hostname) + 1] == rest[first_named(rest, hostname)]);
        }
    }
}

/// The values of a list with one more host are the values of the list with
/// that host's values at the end.
pub proof fn views_of_pushed(hosts: Seq<Host>, host: Host)
    ensures
        host_views(hosts.push(host)) == host_views(hosts).push(host@),
{
    assert(host_views(hosts.push(host)) =~= host_views(hosts).push(host@));
}

/// The list of known hosts, in the order in which they were saved.
#[derive(Clone, Debug, PartialEq, Eq)]
pub struct HostDirectory {
    pub hosts: Vec<Host>,
}

impl View for HostDirectory {
    type V = Seq<HostView>;

    open spec fn view(&self) -> Seq<HostView> {
        host_views(self.hosts@)
    }
}

impl HostDirectory {
    /// The list without a host.
    pub fn new() -> (directory: HostDirectory)
        ensures
            directory@ == Seq::<HostView>::empty(),
    {
        let directory = HostDirectory { hosts: Vec::new() };
        proof {
            assert(directory@ =~= Seq::<HostView>::empty());
        }
        directory
    }

    /// How many hosts the list holds.
    pub fn len(&self) -> (count: usize)
        ensures
            count == self@.len(),
    {
        self.hosts.len()
    }

    /// All hosts of the list, in its order.
    pub fn list(&self) -> (hosts: Vec<Host>)
        ensures
            host_views(hosts@) == self@,
    {
        let mut hosts: Vec<Host> = Vec::new();
        let mut at: usize = 0;
        while at < self.hosts.len()
            invariant
                at <= self.hosts@.len(),
                host_views(hosts@) == self@.take(at as int),
            decreases self.hosts@.len() - at,
        {
            proof {
                assert(self@.take(at + 1) =~= self@.take(at as int).push(self@[at as int]));
            }
            let host = self.hosts[at].duplicate();
            proof {
                views_of_pushed(hosts@, host);
            }
            hosts.push(host);
            at += 1;
        }
        proof {
            assert(self@.take(at as int) =~= self@);
        }
        hosts
    }
}


impl HostDirectory {
    /// The hosts that answer a query, in the order of the list. The query
    /// is looked for in each host's name and description without regard to
    /// the case of letters; the empty query finds every host.
    pub fn search(&self, query: &str) -> (found: Vec<Host>)
        ensures
            host_views(found@) == self@.filter(answering(query@)),
            query@.len() == 0 ==> host_views(found@) == self@,
    {
        proof {
            if query@.len() == 0 {
                empty_query_finds_all(self@, query@);
            }
        }
        let every = query.is_empty();
        let sought = query.to_lowercase();
        let mut found: Vec<Host> = Vec::new();
        let mut at: usize = 0;
        proof {
            assert(self@.take(0) =~= Seq::<HostView>::empty());
            reveal(Seq::filter);
            assert(host_views(found@) =~= Seq::<HostView>::empty());
        }
        while at < self.hosts.len()
            invariant
                at <= self.hosts@.len(),
                every == (query@.len() == 0),
                sought@ == lowercase(query@),
                host_views(found@) == self@.take(at as int).filter(answering(query@)),
            decreases self.hosts@.len() - at,
        {
            let host = &self.hosts[at];
            proof {
                assert(self@.take(at + 1) =~= self@.take(at as int).push(host@));
                Seq::lemma_filter_push(self@.take(at as int), host@, answering(query@));
            }
            let kept = every || is_mentioned(
                host.hostname.to_lowercase().as_str(),
                host.description.to_lowercase().as_str(),
                sought.as_str(),
            );
            if kept {
                let copy = host.duplicate();
                proof {
                    views_of_pushed(found@, copy);
                }
                found.push(copy);
            }
            at += 1;
        }
        proof {
            assert(self@.take(at as int) =~= self@);
        }
        found
    }

    /// Puts a host into the list: it takes the place of the first host of
    /// its name, or the end of the list where there is none.
    pub fn put(&mut self, host: Host)
        ensures
            final(self)@ == upserted(old(self)@, host@),
            distinct_names(old(self)@) ==> distinct_names(final(self)@),
    {
        proof {
            if distinct_names(self@) {
                upsert_keeps_distinct(self@, host@);
            }
        }
        let mut at: usize = 0;
        while at < self.hosts.len()
            invariant
                at <= self.hosts@.len(),
                *self == *old(self),
                forall|before: int| 0 <= before < at ==> self@[before].hostname != host.hostname@,
            decreases self.hosts@.len() - at,
        {
            if self.hosts[at].hostname == host.hostname {
                proof {
                    first_named_is_least(self@, host.hostname@);
                    assert(self@[at as int].hostname == host.hostname@);
                    assert(host_views(self.hosts@.update(at as int, host)) =~= self@.update(
                        at as int,
                        host@,
                    ));
                }
                self.hosts.set(at, host);
                return;
            }
            at += 1;
        }
        proof {
            first_named_is_least(self@, host.hostname@);
            views_of_pushed(self.hosts@, host);
        }
        self.hosts.push(host);
    }

    /// Saves a host: it takes the place of the first host of its name, or
    /// the end of the list where there is none. A host whose name is empty
    /// or blank is refused, and the list stays as it was.
    pub fn upsert(&mut self, host: Host) -> (outcome: Result<(), Failure>)
        ensures
            match outcome {
                Ok(()) => !blank(host.hostname@) && final(self)@ == upserted(old(self)@, host@),
                Err(failure) => {
                    &&& blank(host.hostname@)
                    &&& failure == Failure::EmptyHostname
                    &&& final(self)@ == old(self)@
                },
            },
            distinct_names(old(self)@) ==> distinct_names(final(self)@),
    {
        if is_blank(host.hostname.as_str()) {
            return Err(Failure::EmptyHostname);
        }
        self.put(host);
        Ok(())
    }

    /// Deletes the hosts of a name. Where no host has the name, the list
    /// stays as it was.
    pub fn delete(&mut self, hostname: &str)
        ensures
            final(self)@ == without(old(self)@, hostname@),
            !named(old(self)@, hostname@) ==> final(self)@ == old(self)@,
            !named(final(self)@, hostname@),
            distinct_names(old(self)@) ==> distinct_names(final(self)@),
    {
        let name = String::from_str(hostname);
        let mut kept: Vec<Host> = Vec::new();
        let mut at: usize = 0;
        proof {
            assert(self@.take(0) =~= Seq::<HostView>::empty());
            reveal(Seq::filter);
            assert(host_views(kept@) =~= Seq::<HostView>::empty());
        }
        while at < self.hosts.len()
            invariant
                at <= self.hosts@.len(),
                *self == *old(self),
                name@ == hostname@,
                host_views(kept@) == without(self@.take(at as int), hostname@),
            decreases self.hosts@.len() - at,
        {
            let host = &self.hosts[at];
            proof {
                assert(self@.take(at + 1) =~= self@.take(at as int).push(host@));
                Seq::lemma_filter_push(self@.take(at as int), host@, named_otherwise(hostname@));
            }
            if host.hostname != name {
                let copy = host.duplicate();
                proof {
                    views_of_pushed(kept@, copy);
                }
                kept.push(copy);
            }
            at += 1;
        }
        proof {
            assert(self@.take(at as int) =~= self@);
            without_has_none(self@, hostname@);
            if !named(self@, hostname@) {
                without_absent(self@, hostname@);
            }
            if distinct_names(self@) {
                without_keeps_distinct(self@, hostname@);
            }
        }
        self.hosts = kept;
    }
}

/// After the hosts of a name are deleted, no host of the list has the name.
pub proof fn without_has_none(hosts: Seq<HostView>, hostname: Seq<char>)
    ensures
        !named(without(hosts, hostname), hostname),
{
    let rest = without(hosts, hostname);
    assert forall|at: int| 0 <= at < rest.len() implies rest[at].hostname != hostname by {
        hosts.lemma_filter_pred(named_otherwise(hostname), at);
    }
}

/// Deleting a name that no host has leaves the list as it was.
pub proof fn without_absent(hosts: Seq<HostView>, hostname: Seq<char>)
    requires
        !named(hosts, hostname),
    ensures
        without(hosts, hostname) == hosts,
    decreases hosts.len(),
{
    reveal(Seq::filter);
    if hosts.len() > 0 {
        let rest = hosts.drop_last();
        assert forall|at: int| 0 <= at < rest.len() implies rest[at].hostname != hostname by {
            assert(rest[at] == hosts[at]);
        }
        without_absent(rest, hostname);
        assert(hosts[hosts.len() - 1].hostname != hostname);
        assert(rest.push(hosts.last()) =~= hosts);
    }
}


/// A saved host is in the list, at the first place of its name, and nothing
/// else of the list has changed.
pub proof fn upserted_holds(hosts: Seq<HostView>, host: HostView)
    ensures
        first_named(upserted(hosts, host), host.hostname) == first_named(hosts, host.hostname),
        upserted(hosts, host)[first_named(hosts, host.hostname)] == host,
        named(upserted(hosts, host), host.hostname),
        upserted(hosts, host).len() == if named(hosts, host.hostname) {
            hosts.len()
        } else {
            hosts.len() + 1
        },
        forall|at: int|
            0 <= at < hosts.len() && at != first_named(hosts, host.hostname) ==> upserted(
                hosts,
                host,
            )[at] == hosts[at],
{
    let saved = upserted(hosts, host);
    first_named_is_least(hosts, host.hostname);
    first_named_is_least(saved, host.hostname);
    let at = first_named(hosts, host.hostname);
    assert(saved[at].hostname == host.hostname);
    if first_named(saved, host.hostname) < at {
        assert(saved[first_named(saved, host.hostname)] == hosts[first_named(
            saved,
            host.hostname,
        )]);
    }
}

/// Saving a second host under the name of the first leaves one host of that
/// name, the second: the list is as if only the second had been saved.
pub proof fn upsert_replaces(hosts: Seq<HostView>, first: HostView, second: HostView)
    requires
        first.hostname == second.hostname,
    ensures
        upserted(upserted(hosts, first), second) == upserted(hosts, second),
{
    upserted_holds(hosts, first);
    first_named_is_least(hosts, first.hostname);
    assert(upserted(upserted(hosts, first), second) =~= upserted(hosts, second));
}

/// Saving a host keeps the names of the list distinct.
pub proof fn upsert_keeps_distinct(hosts: Seq<HostView>, host: HostView)
    requires
        distinct_names(hosts),
    ensures
        distinct_names(upserted(hosts, host)),
{
    let saved = upserted(hosts, host);
    let place = first_named(hosts, host.hostname);
    first_named_is_least(hosts, host.hostname);
    assert forall|one: int, other: int| 0 <= one < other < saved.len() implies saved[one].hostname
        != saved[other].hostname by {
        if place < hosts.len() {
            if one == place {
                assert(hosts[place].hostname != hosts[other].hostname);
            } else if other == place {
                assert(hosts[one].hostname != hosts[place].hostname);
            } else {
                assert(hosts[one].hostname != hosts[other].hostname);
            }
        } else {
            if other == place {
                assert(hosts[one].hostname != host.hostname);
            } else {
                assert(hosts[one].hostname != hosts[other].hostname);
            }
        }
    }
}


/// Deleting a name keeps the names of the list distinct.
pub proof fn without_keeps_distinct(hosts: Seq<HostView>, hostname: Seq<char>)
    requires
        distinct_names(hosts),
    ensures
        distinct_names(without(hosts, hostname)),
    decreases hosts.len(),
{
    reveal(Seq::filter);
    if hosts.len() > 0 {
        let rest = hosts.drop_last();
        assert forall|one: int, other: int| 0 <= one < other < rest.len() implies rest[one].hostname
            != rest[other].hostname by {
            assert(rest[one] == hosts[one] && rest[other] == hosts[other]);
        }
        without_keeps_distinct(rest, hostname);
        let kept = without(rest, hostname);
        if hosts.last().hostname != hostname {
            assert(without(hosts, hostname) == kept.push(hosts.last()));
            assert forall|one: int| 0 <= one < kept.len() implies kept[one].hostname
                != hosts.last().hostname by {
                assert(kept.contains(kept[one]));
                rest.lemma_filter_contains_rev(named_otherwise(hostname), kept[one]);
                let at = choose|at: int| 0 <= at < rest.len() && rest[at] == kept[one];
                assert(hosts[at].hostname != hosts[hosts.len() - 1].hostname);
            }
        }
    }
}


/// The empty query finds every host of the list.
pub proof fn empty_query_finds_all(hosts: Seq<HostView>, query: Seq<char>)
    requires
        query.len() == 0,
    ensures
        hosts.filter(answering(query)) == hosts,
    decreases hosts.len(),
{
    reveal(Seq::filter);
    if hosts.len() > 0 {
        empty_query_finds_all(hosts.drop_last(), query);
        assert(hosts.drop_last().push(hosts.last()) =~= hosts);
    }
}

} // verus!
