//! League registry and resolver: the ordered, read-only collection of
//! configured clients, built once at startup, and the two lookups that map an
//! incoming command to the client it concerns.

use crate::error::FflError;
use crate::fantasy::FflClient;
use vstd::prelude::*;

verus! {

/// Short names are pairwise distinct across the configured leagues.
pub open spec fn unique_short_names(s: Seq<FflClient>) -> bool {
    forall|i: int, j: int|
        0 <= i < j < s.len() ==> (#[trigger] s[i]).config.short_name@ != (
        #[trigger] s[j]).config.short_name@
}

/// Chat-grouping identifiers are pairwise distinct across the configured
/// leagues.
pub open spec fn unique_category_ids(s: Seq<FflClient>) -> bool {
    forall|i: int, j: int|
        0 <= i < j < s.len() ==> (#[trigger] s[i]).config.discord_category_id@ != (
        #[trigger] s[j]).config.discord_category_id@
}

/// The first configured client whose short name is `name`.
pub open spec fn spec_find_by_name(s: Seq<FflClient>, name: Seq<char>) -> Option<FflClient>
    decreases s.len(),
{
    if s.len() == 0 {
        None
    } else if s[0].config.short_name@ == name {
        Some(s[0])
    } else {
        spec_find_by_name(s.skip(1), name)
    }
}

/// The first configured client whose grouping identifier is `id`.
pub open spec fn spec_find_by_category(s: Seq<FflClient>, id: Seq<char>) -> Option<FflClient>
    decreases s.len(),
{
    if s.len() == 0 {
        None
    } else if s[0].config.discord_category_id@ == id {
        Some(s[0])
    } else {
        spec_find_by_category(s.skip(1), id)
    }
}

/// The set of configured fantasy clients, built once at startup and read-only
/// thereafter.
#[derive(Debug)]
pub struct LeagueRegistry {
    clients: Vec<FflClient>,
}

impl LeagueRegistry {
    /// The configured clients, in configuration order.
    pub closed spec fn clients(&self) -> Seq<FflClient> {
        self.clients@
    }

    /// Builds the registry, rejecting a configuration in which two leagues
    /// share a short name or share a grouping identifier.
    pub fn new(clients: Vec<FflClient>) -> (r: Result<LeagueRegistry, FflError>)
        ensures
            match r {
                Ok(reg) => reg.clients() == clients@ && unique_short_names(clients@)
                    && unique_category_ids(clients@),
                Err(e) => match e {
                    FflError::DuplicateShortName(n) => !unique_short_names(clients@) && exists|
                        i: int,
                        j: int,
                    |
                        0 <= i < j < clients@.len() && (#[trigger] clients@[i]).config.short_name@
                            == (#[trigger] clients@[j]).config.short_name@ && n@
                            == clients@[j].config.short_name@,
                    FflError::DuplicateCategoryId(c) => unique_short_names(clients@)
                        && !unique_category_ids(clients@) && exists|i: int, j: int|
                        0 <= i < j < clients@.len() && (
                        #[trigger] clients@[i]).config.discord_category_id@ == (
                        #[trigger] clients@[j]).config.discord_category_id@ && c@
                            == clients@[j].config.discord_category_id@,
                    _ => false,
                },
            },
    {
        let n = clients.len();
        let mut j: usize = 0;
        while j < n
            invariant
                j <= n,
                n == clients@.len(),
                forall|a: int, b: int|
                    0 <= a < b < j ==> (#[trigger] clients@[a]).config.short_name@ != (
                    #[trigger] clients@[b]).config.short_name@,
            decreases n - j,
        {
            let mut i: usize = 0;
            while i < j
                invariant
                    i <= j < n,
                    n == clients@.len(),
                    forall|a: int|
                        0 <= a < i ==> (#[trigger] clients@[a]).config.short_name@
                            != clients@[j as int].config.short_name@,
                decreases j - i,
            {
                if clients[i].config.short_name == clients[j].config.short_name {
                    return Err(FflError::DuplicateShortName(clients[j].config.short_name.clone()));
                }
                i = i + 1;
            }
            j = j + 1;
        }
        let mut j: usize = 0;
        while j < n
            invariant
                j <= n,
                n == clients@.len(),
                unique_short_names(clients@),
                forall|a: int, b: int|
                    0 <= a < b < j ==> (#[trigger] clients@[a]).config.discord_category_id@ != (
                    #[trigger] clients@[b]).config.discord_category_id@,
            decreases n - j,
        {
            let mut i: usize = 0;
            while i < j
                invariant
                    i <= j < n,
                    n == clients@.len(),
                    unique_short_names(clients@),
                    forall|a: int|
                        0 <= a < i ==> (#[trigger] clients@[a]).config.discord_category_id@
                            != clients@[j as int].config.discord_category_id@,
                decreases j - i,
            {
                if clients[i].config.discord_category_id == clients[j].config.discord_category_id {
                    return Err(
                        FflError::DuplicateCategoryId(clients[j].config.discord_category_id.clone()),
                    );
                }
                i = i + 1;
            }
            j = j + 1;
        }
        Ok(LeagueRegistry { clients })
    }

    /// Resolves an explicit league selector: the first client whose configured
    /// short name equals the given name, or none.
    pub fn get_client_by_name<'a>(&'a self, name: &String) -> (r: Option<&'a FflClient>)
        ensures
            match r {
                Some(c) => spec_find_by_name(self.clients(), name@) == Some(*c),
                None => spec_find_by_name(self.clients(), name@) is None,
            },
    {
        let mut i: usize = 0;
        proof {
            assert(self.clients@.skip(0) =~= self.clients@);
        }
        while i < self.clients.len()
            invariant
                i <= self.clients@.len(),
                spec_find_by_name(self.clients@, name@) == spec_find_by_name(
                    self.clients@.skip(i as int),
                    name@,
                ),
            decreases self.clients@.len() - i,
        {
            proof {
                assert(self.clients@.skip(i as int)[0] == self.clients@[i as int]);
                assert(self.clients@.skip(i as int).skip(1) =~= self.clients@.skip(i + 1));
            }
            if self.clients[i].config.short_name == *name {
                return Some(&self.clients[i]);
            }
            i = i + 1;
        }
        None
    }

    /// Resolves a chat channel's grouping identifier: the first client whose
    /// configured grouping identifier equals it, or none.
    pub fn get_client_by_category_id<'a>(&'a self, id: &String) -> (r: Option<&'a FflClient>)
        ensures
            match r {
                Some(c) => spec_find_by_category(self.clients(), id@) == Some(*c),
                None => spec_find_by_category(self.clients(), id@) is None,
            },
    {
        let mut i: usize = 0;
        proof {
            assert(self.clients@.skip(0) =~= self.clients@);
        }
        while i < self.clients.len()
            invariant
                i <= self.clients@.len(),
                spec_find_by_category(self.clients@, id@) == spec_find_by_category(
                    self.clients@.skip(i as int),
                    id@,
                ),
            decreases self.clients@.len() - i,
        {
            proof {
                assert(self.clients@.skip(i as int)[0] == self.clients@[i as int]);
                assert(self.clients@.skip(i as int).skip(1) =~= self.clients@.skip(i + 1));
            }
            if self.clients[i].config.discord_category_id == *id {
                return Some(&self.clients[i]);
            }
            i = i + 1;
        }
        None
    }

    /// The league choices offered when commands are registered with the
    /// transport: each league's display name paired with its short name, in
    /// configuration order.
    pub fn league_choices(&self) -> (r: Vec<(String, String)>)
        ensures
            r@.len() == self.clients().len(),
            forall|i: int|
                0 <= i < r@.len() ==> (#[trigger] r@[i]).0 == self.clients()[i].config.league_name
                    && r@[i].1 == self.clients()[i].config.short_name,
    {
        let mut r: Vec<(String, String)> = Vec::new();
        let mut i: usize = 0;
        while i < self.clients.len()
            invariant
                i <= self.clients@.len(),
                r@.len() == i,
                forall|l: int|
                    0 <= l < i ==> (#[trigger] r@[l]).0 == self.clients@[l].config.league_name
                        && r@[l].1 == self.clients@[l].config.short_name,
            decreases self.clients@.len() - i,
        {
            let c = &self.clients[i].config;
            r.push((c.league_name.clone(), c.short_name.clone()));
            i = i + 1;
        }
        r
    }

    /// Resolution policy for command dispatch: an explicit league selector
    /// resolves by short name; otherwise the invoking channel's grouping
    /// identifier resolves implicitly.
    pub fn resolve<'a>(&'a self, league_name: Option<&String>, category_id: &String) -> (r: Option<
        &'a FflClient,
    >)
        ensures
            match league_name {
                Some(n) => match r {
                    Some(c) => spec_find_by_name(self.clients(), n@) == Some(*c),
                    None => spec_find_by_name(self.clients(), n@) is None,
                },
                None => match r {
                    Some(c) => spec_find_by_category(self.clients(), category_id@) == Some(*c),
                    None => spec_find_by_category(self.clients(), category_id@) is None,
                },
            },
    {
        match league_name {
            Some(n) => self.get_client_by_name(n),
            None => self.get_client_by_category_id(category_id),
        }
    }
}

/// Law: by-name resolution returns exactly the client whose configured short
/// name equals the query, or none when no client carries it; under the
/// registry's uniqueness invariant this holds for any ordering of the client
/// list.
pub proof fn lemma_find_by_name_exact(s: Seq<FflClient>, name: Seq<char>)
    ensures
        spec_find_by_name(s, name) matches Some(c) ==> exists|i: int|
            0 <= i < s.len() && #[trigger] s[i] == c && s[i].config.short_name@ == name,
        spec_find_by_name(s, name) is None ==> forall|i: int|
            0 <= i < s.len() ==> (#[trigger] s[i]).config.short_name@ != name,
        unique_short_names(s) ==> forall|i: int|
            0 <= i < s.len() && (#[trigger] s[i]).config.short_name@ == name ==> spec_find_by_name(
                s,
                name,
            ) == Some(s[i]),
    decreases s.len(),
{
    if s.len() == 0 {
    } else if s[0].config.short_name@ == name {
        assert(s[0] == s[0] && s[0].config.short_name@ == name);
    } else {
        let rest = s.skip(1);
        lemma_find_by_name_exact(rest, name);
        assert(forall|i: int| 0 <= i < rest.len() ==> #[trigger] rest[i] == s[i + 1]);
        match spec_find_by_name(s, name) {
            Some(c) => {
                let i = choose|i: int|
                    0 <= i < rest.len() && #[trigger] rest[i] == c && rest[i].config.short_name@
                        == name;
                assert(s[i + 1] == c && s[i + 1].config.short_name@ == name);
            },
            None => {},
        }
        if spec_find_by_name(s, name) is None {
            assert forall|i: int|
                0 <= i < s.len() implies (#[trigger] s[i]).config.short_name@ != name by {
                if i > 0 {
                    assert(rest[i - 1] == s[i]);
                }
            }
        }
        if unique_short_names(s) {
            assert forall|i: int, j: int| 0 <= i < j < rest.len() implies (
            #[trigger] rest[i]).config.short_name@ != (#[trigger] rest[j]).config.short_name@ by {
                assert(s[i + 1].config.short_name@ != s[j + 1].config.short_name@);
            }
            assert forall|i: int|
                0 <= i < s.len() && (#[trigger] s[i]).config.short_name@
                    == name implies spec_find_by_name(s, name) == Some(s[i]) by {
                assert(i != 0);
                assert(rest[i - 1] == s[i]);
            }
        }
    }
}

/// Law: by-grouping-identifier resolution has the symmetric property, over the
/// grouping identifier field.
pub proof fn lemma_find_by_category_exact(s: Seq<FflClient>, id: Seq<char>)
    ensures
        spec_find_by_category(s, id) matches Some(c) ==> exists|i: int|
            0 <= i < s.len() && #[trigger] s[i] == c && s[i].config.discord_category_id@ == id,
        spec_find_by_category(s, id) is None ==> forall|i: int|
            0 <= i < s.len() ==> (#[trigger] s[i]).config.discord_category_id@ != id,
        unique_category_ids(s) ==> forall|i: int|
            0 <= i < s.len() && (#[trigger] s[i]).config.discord_category_id@ == id
                ==> spec_find_by_category(s, id) == Some(s[i]),
    decreases s.len(),
{
    if s.len() == 0 {
    } else if s[0].config.discord_category_id@ == id {
        assert(s[0] == s[0] && s[0].config.discord_category_id@ == id);
    } else {
        let rest = s.skip(1);
        lemma_find_by_category_exact(rest, id);
        assert(forall|i: int| 0 <= i < rest.len() ==> #[trigger] rest[i] == s[i + 1]);
        match spec_find_by_category(s, id) {
            Some(c) => {
                let i = choose|i: int|
                    0 <= i < rest.len() && #[trigger] rest[i] == c
                        && rest[i].config.discord_category_id@ == id;
                assert(s[i + 1] == c && s[i + 1].config.discord_category_id@ == id);
            },
            None => {},
        }
        if spec_find_by_category(s, id) is None {
            assert forall|i: int|
                0 <= i < s.len() implies (#[trigger] s[i]).config.discord_category_id@ != id by {
                if i > 0 {
                    assert(rest[i - 1] == s[i]);
                }
            }
        }
        if unique_category_ids(s) {
            assert forall|i: int, j: int| 0 <= i < j < rest.len() implies (
            #[trigger] rest[i]).config.discord_category_id@ != (
            #[trigger] rest[j]).config.discord_category_id@ by {
                assert(s[i + 1].config.discord_category_id@ != s[j + 1].config.discord_category_id@);
            }
            assert forall|i: int|
                0 <= i < s.len() && (#[trigger] s[i]).config.discord_category_id@
                    == id implies spec_find_by_category(s, id) == Some(s[i]) by {
                assert(i != 0);
                assert(rest[i - 1] == s[i]);
            }
        }
    }
}

} // verus!
