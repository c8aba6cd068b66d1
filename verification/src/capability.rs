//! ESMTP capabilities and the per-connection session state that
//! collects what a server advertised in its greeting.

use crate::error::MissingCapabilities;
use vstd::pervasive::VecAdditionalExecFns;
use vstd::prelude::*;

verus! {

/// An ESMTP capability keyword, a case-normalized token such as
/// `STARTTLS` or `AUTH`.
#[derive(Debug, PartialEq, Eq, Hash)]
pub struct Capability {
    keyword: String,
}

impl View for Capability {
    type V = Seq<char>;

    closed spec fn view(&self) -> Seq<char> {
        self.keyword@
    }
}

impl Clone for Capability {
    fn clone(&self) -> (r: Self)
        ensures
            r == *self,
    {
        Capability { keyword: self.keyword.clone() }
    }
}

impl Capability {
    pub fn new(keyword: String) -> (r: Capability)
        ensures
            r@ == keyword@,
    {
        Capability { keyword }
    }

    pub fn as_str(&self) -> (r: &str)
        ensures
            r@ == self@,
    {
        self.keyword.as_str()
    }

    /// Whether two capabilities carry the same keyword.
    pub fn same_keyword(&self, other: &Capability) -> (r: bool)
        ensures
            r == (self@ == other@),
    {
        self.keyword == other.keyword
    }
}

/// What the server's greeting negotiated: the domain it reported and a
/// mapping from each advertised capability keyword to its parameter
/// list. Keys are unique; re-advertising a keyword replaces its entry.
#[derive(Debug, Clone)]
pub struct EhloData {
    domain: String,
    capabilities: Vec<(Capability, Vec<String>)>,
}

impl EhloData {
    /// The domain the server reported in its greeting.
    pub closed spec fn spec_domain(&self) -> Seq<char> {
        self.domain@
    }

    /// Keys of the capability mapping are unique.
    pub closed spec fn wf(&self) -> bool {
        forall|i: int, j: int|
            0 <= i < j < self.capabilities@.len() ==> self.capabilities@[i].0@
                != self.capabilities@[j].0@
    }

    /// Whether a capability with the given keyword was advertised.
    pub closed spec fn advertises(&self, keyword: Seq<char>) -> bool {
        exists|i: int|
            0 <= i < self.capabilities@.len() && self.capabilities@[i].0@ == keyword
    }

    /// The parameter values advertised for the given keyword; only
    /// meaningful when `advertises(keyword)` holds.
    pub closed spec fn spec_params(&self, keyword: Seq<char>) -> Seq<Seq<char>> {
        let i = choose|i: int|
            0 <= i < self.capabilities@.len() && self.capabilities@[i].0@ == keyword;
        self.capabilities@[i].1@.map_values(|p: String| p@)
    }

    pub fn new(domain: String) -> (r: EhloData)
        ensures
            r.wf(),
            r.spec_domain() == domain@,
            forall|keyword: Seq<char>| !r.advertises(keyword),
    {
        EhloData { domain, capabilities: Vec::new() }
    }

    pub fn domain(&self) -> (r: &str)
        ensures
            r@ == self.spec_domain(),
    {
        self.domain.as_str()
    }

    /// Record an advertised capability. A keyword that was already
    /// present has its entry replaced, never duplicated.
    pub fn insert_capability(&mut self, capability: Capability, params: Vec<String>)
        requires
            old(self).wf(),
        ensures
            final(self).wf(),
            final(self).spec_domain() == old(self).spec_domain(),
            forall|keyword: Seq<char>|
                final(self).advertises(keyword) <==> (old(self).advertises(keyword) || keyword
                    == capability@),
            final(self).spec_params(capability@) == params@.map_values(|p: String| p@),
            forall|keyword: Seq<char>|
                keyword != capability@ && old(self).advertises(keyword)
                    ==> final(self).spec_params(keyword) == old(self).spec_params(keyword),
    {
        let n = self.capabilities.len();
        let mut i: usize = 0;
        while i < n
            invariant
                i <= n,
                n == self.capabilities@.len(),
                self.capabilities@ == old(self).capabilities@,
                self.domain@ == old(self).domain@,
                old(self).wf(),
                forall|k: int| 0 <= k < i ==> self.capabilities@[k].0@ != capability@,
            decreases n - i,
        {
            if self.capabilities[i].0.same_keyword(&capability) {
                proof {
                    assert(old(self).capabilities@[i as int].0@ == capability@);
                }
                self.capabilities.set(i, (capability, params));
                proof {
                    self.lemma_insert_replaced(*old(self), i as int);
                }
                return;
            }
            i += 1;
        }
        self.capabilities.push((capability, params));
        proof {
            self.lemma_insert_pushed(*old(self));
        }
    }

    /// After replacing the entry at `i`, whose keyword was already the
    /// new entry's keyword, the mapping's contract holds.
    proof fn lemma_insert_replaced(&self, prev: EhloData, i: int)
        requires
            prev.wf(),
            0 <= i < prev.capabilities@.len(),
            self.capabilities@.len() == prev.capabilities@.len(),
            self.domain@ == prev.domain@,
            prev.capabilities@[i].0@ == self.capabilities@[i].0@,
            forall|k: int|
                0 <= k < prev.capabilities@.len() && k != i ==> self.capabilities@[k]
                    == prev.capabilities@[k],
        ensures
            self.wf(),
            self.spec_domain() == prev.spec_domain(),
            forall|keyword: Seq<char>|
                self.advertises(keyword) <==> (prev.advertises(keyword) || keyword
                    == self.capabilities@[i].0@),
            self.spec_params(self.capabilities@[i].0@) == self.capabilities@[i].1@.map_values(
                |p: String| p@,
            ),
            forall|keyword: Seq<char>|
                keyword != self.capabilities@[i].0@ && prev.advertises(keyword)
                    ==> self.spec_params(keyword) == prev.spec_params(keyword),
    {
        let cap = self.capabilities@[i].0@;
        assert forall|a: int, b: int|
            0 <= a < b < self.capabilities@.len() implies self.capabilities@[a].0@
            != self.capabilities@[b].0@ by {
            assert(prev.capabilities@[a].0@ != prev.capabilities@[b].0@);
        }
        assert forall|keyword: Seq<char>| self.advertises(keyword) implies (prev.advertises(
            keyword,
        ) || keyword == cap) by {
            let k = choose|k: int|
                0 <= k < self.capabilities@.len() && self.capabilities@[k].0@ == keyword;
            if k != i {
                assert(prev.capabilities@[k].0@ == keyword);
            }
        }
        assert forall|keyword: Seq<char>| (prev.advertises(keyword) || keyword
            == cap) implies self.advertises(keyword) by {
            if keyword == cap {
                assert(self.capabilities@[i].0@ == keyword);
            } else {
                let k = choose|k: int|
                    0 <= k < prev.capabilities@.len() && prev.capabilities@[k].0@ == keyword;
                assert(self.capabilities@[k].0@ == keyword);
            }
        }
        let j = choose|j: int|
            0 <= j < self.capabilities@.len() && self.capabilities@[j].0@ == cap;
        assert(self.capabilities@[i].0@ == cap);
        assert(j == i);
        assert forall|keyword: Seq<char>|
            keyword != cap && prev.advertises(keyword) implies self.spec_params(keyword)
            == prev.spec_params(keyword) by {
            let a = choose|a: int|
                0 <= a < self.capabilities@.len() && self.capabilities@[a].0@ == keyword;
            let b = choose|b: int|
                0 <= b < prev.capabilities@.len() && prev.capabilities@[b].0@ == keyword;
            assert(self.capabilities@[b].0@ == keyword);
            assert(self.advertises(keyword));
            assert(a != i);
            assert(prev.capabilities@[a].0@ == keyword);
            if a != b {
                assert(prev.capabilities@[a].0@ != prev.capabilities@[b].0@);
            }
        }
    }

    /// After appending an entry whose keyword no existing entry holds,
    /// the mapping's contract holds.
    proof fn lemma_insert_pushed(&self, prev: EhloData)
        requires
            prev.wf(),
            self.capabilities@.len() == prev.capabilities@.len() + 1,
            self.domain@ == prev.domain@,
            forall|k: int|
                0 <= k < prev.capabilities@.len() ==> self.capabilities@[k]
                    == prev.capabilities@[k],
            forall|k: int|
                0 <= k < prev.capabilities@.len() ==> prev.capabilities@[k].0@
                    != self.capabilities@[prev.capabilities@.len() as int].0@,
        ensures
            self.wf(),
            self.spec_domain() == prev.spec_domain(),
            forall|keyword: Seq<char>|
                self.advertises(keyword) <==> (prev.advertises(keyword) || keyword
                    == self.capabilities@[prev.capabilities@.len() as int].0@),
            self.spec_params(self.capabilities@[prev.capabilities@.len() as int].0@)
                == self.capabilities@[prev.capabilities@.len() as int].1@.map_values(
                |p: String| p@,
            ),
            forall|keyword: Seq<char>|
                keyword != self.capabilities@[prev.capabilities@.len() as int].0@
                    && prev.advertises(keyword) ==> self.spec_params(keyword) == prev.spec_params(
                    keyword,
                ),
    {
        let n = prev.capabilities@.len() as int;
        let cap = self.capabilities@[n].0@;
        assert forall|a: int, b: int|
            0 <= a < b < self.capabilities@.len() implies self.capabilities@[a].0@
            != self.capabilities@[b].0@ by {
            if b < n {
                assert(prev.capabilities@[a].0@ != prev.capabilities@[b].0@);
            } else {
                assert(prev.capabilities@[a].0@ != self.capabilities@[n].0@);
            }
        }
        assert forall|keyword: Seq<char>| self.advertises(keyword) implies (prev.advertises(
            keyword,
        ) || keyword == cap) by {
            let k = choose|k: int|
                0 <= k < self.capabilities@.len() && self.capabilities@[k].0@ == keyword;
            if k < n {
                assert(prev.capabilities@[k].0@ == keyword);
            }
        }
        assert forall|keyword: Seq<char>| (prev.advertises(keyword) || keyword
            == cap) implies self.advertises(keyword) by {
            if keyword == cap {
                assert(self.capabilities@[n].0@ == keyword);
            } else {
                let k = choose|k: int|
                    0 <= k < prev.capabilities@.len() && prev.capabilities@[k].0@ == keyword;
                assert(self.capabilities@[k].0@ == keyword);
            }
        }
        let j = choose|j: int|
            0 <= j < self.capabilities@.len() && self.capabilities@[j].0@ == cap;
        assert(self.capabilities@[n].0@ == cap);
        assert(j == n);
        assert forall|keyword: Seq<char>|
            keyword != cap && prev.advertises(keyword) implies self.spec_params(keyword)
            == prev.spec_params(keyword) by {
            let a = choose|a: int|
                0 <= a < self.capabilities@.len() && self.capabilities@[a].0@ == keyword;
            let b = choose|b: int|
                0 <= b < prev.capabilities@.len() && prev.capabilities@[b].0@ == keyword;
            assert(self.capabilities@[b].0@ == keyword);
            assert(self.advertises(keyword));
            assert(a != n);
            assert(prev.capabilities@[a].0@ == keyword);
            if a != b {
                assert(prev.capabilities@[a].0@ != prev.capabilities@[b].0@);
            }
        }
    }

    /// Whether the given capability's keyword was advertised.
    pub fn has_capability(&self, capability: &Capability) -> (r: bool)
        ensures
            r == self.advertises(capability@),
    {
        let n = self.capabilities.len();
        let mut i: usize = 0;
        while i < n
            invariant
                i <= n,
                n == self.capabilities@.len(),
                forall|k: int| 0 <= k < i ==> self.capabilities@[k].0@ != capability@,
            decreases n - i,
        {
            if self.capabilities[i].0.same_keyword(capability) {
                proof {
                    assert(self.capabilities@[i as int].0@ == capability@);
                }
                return true;
            }
            i += 1;
        }
        false
    }

    /// The parameter values advertised with the given capability, or
    /// `None` when it was not advertised.
    pub fn capability_params(&self, capability: &Capability) -> (r: Option<&Vec<String>>)
        requires
            self.wf(),
        ensures
            match r {
                Some(params) => self.advertises(capability@) && params@.map_values(|p: String| p@)
                    == self.spec_params(capability@),
                None => !self.advertises(capability@),
            },
    {
        let n = self.capabilities.len();
        let mut i: usize = 0;
        while i < n
            invariant
                i <= n,
                n == self.capabilities@.len(),
                self.wf(),
                forall|k: int| 0 <= k < i ==> self.capabilities@[k].0@ != capability@,
            decreases n - i,
        {
            if self.capabilities[i].0.same_keyword(capability) {
                proof {
                    assert(self.capabilities@[i as int].0@ == capability@);
                    let j = choose|j: int|
                        0 <= j < self.capabilities@.len() && self.capabilities@[j].0@
                            == capability@;
                    if j != i as int {
                        assert(self.capabilities@[j].0@ != self.capabilities@[i as int].0@);
                    }
                }
                return Some(&self.capabilities[i].1);
            }
            i += 1;
        }
        None
    }
}

/// The capabilities a command requires but the mapping does not
/// advertise, in the order the command declared them.
pub open spec fn spec_missing(required: Seq<Capability>, ehlo: EhloData) -> Seq<Capability> {
    required.filter(|c: Capability| !ehlo.advertises(c@))
}

/// One step of computing the missing set: extending the considered
/// prefix of the requirements by one keeps or appends it, so the
/// declared order is preserved.
proof fn lemma_missing_step(required: Seq<Capability>, ehlo: EhloData, i: int)
    requires
        0 <= i < required.len(),
    ensures
        spec_missing(required.take(i + 1), ehlo) == (if !ehlo.advertises(required[i]@) {
            spec_missing(required.take(i), ehlo).push(required[i])
        } else {
            spec_missing(required.take(i), ehlo)
        }),
{
    reveal(Seq::filter);
    let s = required.take(i + 1);
    assert(s.len() == i + 1);
    assert(s.drop_last() =~= required.take(i));
    assert(s.last() == required[i]);
}

/// Verify that every capability a command requires is advertised.
/// The command may proceed exactly when nothing is missing; otherwise
/// the absent capabilities are reported in requirement order.
pub fn check_capabilities(required: &Vec<Capability>, ehlo: &EhloData) -> (r: Result<
    (),
    MissingCapabilities,
>)
    ensures
        match r {
            Ok(_) => spec_missing(required@, *ehlo).len() == 0,
            Err(missing) => spec_missing(required@, *ehlo).len() > 0 && missing@ == spec_missing(
                required@,
                *ehlo,
            ),
        },
{
    let mut missing: Vec<Capability> = Vec::new();
    let n = required.len();
    let mut i: usize = 0;
    proof {
        reveal(Seq::filter);
        assert(required@.take(0) =~= Seq::<Capability>::empty());
        assert(spec_missing(Seq::<Capability>::empty(), *ehlo) =~= Seq::<Capability>::empty());
    }
    while i < n
        invariant
            i <= n,
            n == required@.len(),
            missing@ == spec_missing(required@.take(i as int), *ehlo),
        decreases n - i,
    {
        let capability = &required[i];
        if !ehlo.has_capability(capability) {
            missing.push(capability.clone());
        }
        proof {
            lemma_missing_step(required@, *ehlo, i as int);
        }
        i += 1;
    }
    proof {
        assert(required@.take(n as int) =~= required@);
    }
    if missing.len() == 0 {
        Ok(())
    } else {
        Err(MissingCapabilities::new(missing))
    }
}

/// If every required capability is advertised, nothing is missing and
/// no error is owed.
pub proof fn lemma_all_advertised_nothing_missing(required: Seq<Capability>, ehlo: EhloData)
    requires
        forall|i: int| 0 <= i < required.len() ==> ehlo.advertises(#[trigger] required[i]@),
    ensures
        spec_missing(required, ehlo).len() == 0,
    decreases required.len(),
{
    reveal(Seq::filter);
    if required.len() > 0 {
        assert forall|i: int|
            0 <= i < required.drop_last().len() implies ehlo.advertises(
            #[trigger] required.drop_last()[i]@,
        ) by {
            assert(required.drop_last()[i] == required[i]);
        }
        lemma_all_advertised_nothing_missing(required.drop_last(), ehlo);
        assert(ehlo.advertises(required[required.len() - 1]@));
    }
}

/// Everything reported missing is genuinely required and genuinely
/// absent from the mapping.
pub proof fn lemma_missing_sound(required: Seq<Capability>, ehlo: EhloData)
    ensures
        forall|i: int|
            0 <= i < spec_missing(required, ehlo).len() ==> !ehlo.advertises(
                #[trigger] spec_missing(required, ehlo)[i]@,
            ),
        forall|i: int|
            0 <= i < spec_missing(required, ehlo).len() ==> required.contains(
                #[trigger] spec_missing(required, ehlo)[i],
            ),
    decreases required.len(),
{
    reveal(Seq::filter);
    if required.len() > 0 {
        lemma_missing_sound(required.drop_last(), ehlo);
        let rest = spec_missing(required.drop_last(), ehlo);
        assert forall|i: int|
            0 <= i < rest.len() implies required.contains(#[trigger] rest[i]) by {
            assert(required.drop_last().contains(rest[i]));
            let w = choose|w: int|
                0 <= w < required.drop_last().len() && required.drop_last()[w] == rest[i];
            assert(required[w] == rest[i]);
        }
        if !ehlo.advertises(required.last()@) {
            assert(spec_missing(required, ehlo) == rest.push(required.last()));
            assert(required.contains(required.last()));
        } else {
            assert(spec_missing(required, ehlo) == rest);
        }
    }
}

/// Everything a command requires that the mapping does not advertise
/// is reported: nothing absent is passed over.
pub proof fn lemma_missing_complete(required: Seq<Capability>, ehlo: EhloData)
    ensures
        forall|i: int|
            0 <= i < required.len() && !ehlo.advertises(#[trigger] required[i]@)
                ==> spec_missing(required, ehlo).contains(required[i]),
    decreases required.len(),
{
    reveal(Seq::filter);
    if required.len() > 0 {
        lemma_missing_complete(required.drop_last(), ehlo);
        let rest = spec_missing(required.drop_last(), ehlo);
        let whole = spec_missing(required, ehlo);
        assert forall|i: int|
            0 <= i < required.len() && !ehlo.advertises(#[trigger] required[i]@) implies whole
            .contains(required[i]) by {
            if i < required.len() - 1 {
                assert(required.drop_last()[i] == required[i]);
                assert(rest.contains(required[i]));
                let w = choose|w: int| 0 <= w < rest.len() && rest[w] == required[i];
                assert(whole[w] == required[i]);
            } else {
                assert(required.last() == required[i]);
                assert(whole[whole.len() - 1] == required[i]);
            }
        }
    }
}

} // verus!
