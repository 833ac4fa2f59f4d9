//! The access document: every registered person and every rule, read and
//! written as one unit.

use vstd::prelude::*;
use crate::rules::{Env, Person, RuleObj};
use crate::time::Instant;

verus! {

/// Why an operation on the document was refused.
#[derive(Clone, Copy, Debug, PartialEq, Eq, Structural)]
pub enum AccessError {
    /// The stored document is missing, unreadable or malformed.
    StoreUnavailable,
    /// A person with that id is already registered.
    DuplicatePerson,
    /// No person with that id is registered.
    PersonNotFound,
}

/// Some person in `people` has id `id`.
pub open spec fn has_person(people: Seq<Person>, id: u64) -> bool {
    exists|k: int| 0 <= k < people.len() && #[trigger] people[k].id == id
}

/// `k` is the first position in `people` that holds id `id`.
pub open spec fn is_first_with_id(people: Seq<Person>, k: int, id: u64) -> bool {
    &&& 0 <= k < people.len()
    &&& people[k].id == id
    &&& forall|j: int| 0 <= j < k ==> #[trigger] people[j].id != id
}

/// `people` with every person of id `id` taken out, the others in order.
pub open spec fn without_person(people: Seq<Person>, id: u64) -> Seq<Person> {
    people.filter(|p: Person| p.id != id)
}

/// `people` after registering `p`: unchanged when the id is taken, else
/// `p` appended.
pub open spec fn with_person(people: Seq<Person>, p: Person) -> Seq<Person> {
    if has_person(people, p.id) {
        people
    } else {
        people.push(p)
    }
}

/// Some rule of `rules` is satisfied in `env`.
pub open spec fn any_satisfied(rules: Seq<RuleObj>, env: Env) -> bool {
    exists|k: int| 0 <= k < rules.len() && #[trigger] rules[k].satisfied_by(env)
}

/// The whole store: people and rules.
#[derive(Clone, Debug)]
pub struct Db {
    pub people: Vec<Person>,
    pub rules: Vec<RuleObj>,
}

impl Db {
    /// A document with no people and no rules.
    pub fn new() -> (r: Db)
        ensures
            r.people@.len() == 0,
            r.rules@.len() == 0,
    {
        Db { people: Vec::new(), rules: Vec::new() }
    }

    /// Some rule grants presence in `env`.
    pub fn is_satisfied(&self, env: &Env) -> (r: bool)
        ensures
            r == any_satisfied(self.rules@, *env),
    {
        let mut k: usize = 0;
        while k < self.rules.len()
            invariant
                k <= self.rules@.len(),
                forall|j: int| 0 <= j < k ==> !#[trigger] self.rules@[j].satisfied_by(*env),
            decreases self.rules@.len() - k,
        {
            if self.rules[k].is_satisfied(env) {
                assert(self.rules@[k as int].satisfied_by(*env));
                return true;
            }
            k = k + 1;
        }
        false
    }

    /// The position of the first person with id `id`.
    fn position_of(&self, id: u64) -> (r: Option<usize>)
        ensures
            r is None <==> !has_person(self.people@, id),
            r matches Some(k) ==> is_first_with_id(self.people@, k as int, id),
    {
        let mut k: usize = 0;
        while k < self.people.len()
            invariant
                k <= self.people@.len(),
                forall|j: int| 0 <= j < k ==> #[trigger] self.people@[j].id != id,
            decreases self.people@.len() - k,
        {
            if self.people[k].id == id {
                return Some(k);
            }
            k = k + 1;
        }
        None
    }

    /// Some registered person has id `id`.
    pub fn person_exists(&self, id: u64) -> (r: bool)
        ensures
            r == has_person(self.people@, id),
    {
        self.position_of(id).is_some()
    }

    /// The first registered person with id `id`, if any.
    pub fn person_by_id(&self, id: u64) -> (r: Option<&Person>)
        ensures
            r is None <==> !has_person(self.people@, id),
            r matches Some(p) ==> exists|k: int|
                is_first_with_id(self.people@, k, id) && self.people@[k] == *p,
    {
        match self.position_of(id) {
            Some(k) => Some(&self.people[k]),
            None => None,
        }
    }

    /// Takes out every person with id `id`; the rules stay as they are.
    pub fn kill_person_by_id(&mut self, id: u64)
        ensures
            final(self).people@ == without_person(old(self).people@, id),
            final(self).rules@ == old(self).rules@,
    {
        let ghost start = self.people@;
        let ghost keep = |p: Person| p.id != id;
        let mut i: usize = 0;
        let ghost mut j: int = 0;
        proof {
            reveal(Seq::filter);
            assert(start.take(0).filter(keep) =~= Seq::<Person>::empty());
            assert(start.skip(0) =~= start);
            assert(self.people@ =~= start.take(0).filter(keep) + start.skip(0));
        }
        while i < self.people.len()
            invariant
                0 <= j <= start.len(),
                i == start.take(j).filter(keep).len(),
                self.people@ == start.take(j).filter(keep) + start.skip(j),
                self.rules@ == old(self).rules@,
                keep == (|p: Person| p.id != id),
            decreases start.len() - j,
        {
            proof {
                reveal(Seq::filter);
                assert(start.take(j + 1).drop_last() =~= start.take(j));
                assert(start.take(j + 1).last() == start[j]);
                assert(self.people@[i as int] == start[j]);
            }
            if self.people[i].id == id {
                self.people.remove(i);
                proof {
                    assert(start.take(j + 1).filter(keep) == start.take(j).filter(keep));
                    assert(self.people@ =~= start.take(j + 1).filter(keep) + start.skip(j + 1));
                    j = j + 1;
                }
            } else {
                i = i + 1;
                proof {
                    assert(start.take(j + 1).filter(keep) == start.take(j).filter(keep).push(
                        start[j],
                    ));
                    assert(self.people@ =~= start.take(j + 1).filter(keep) + start.skip(j + 1));
                    j = j + 1;
                }
            }
        }
        proof {
            assert(start.skip(j).len() == 0);
            assert(start.take(j) =~= start);
            assert(self.people@ =~= start.filter(keep));
        }
    }

    /// Appends `person` without checking whether the id is taken; callers
    /// that need unique ids check `person_exists` first, or use
    /// `register_person`.
    pub fn add_person(&mut self, person: Person)
        ensures
            final(self).people@ == old(self).people@.push(person),
            final(self).rules@ == old(self).rules@,
    {
        self.people.push(person);
    }

    /// Registers `person` unless its id is already taken, in which case the
    /// document is left as it was.
    pub fn register_person(&mut self, person: Person) -> (r: Result<(), AccessError>)
        ensures
            r is Err <==> has_person(old(self).people@, person.id),
            r matches Err(e) ==> e == AccessError::DuplicatePerson,
            final(self).people@ == with_person(old(self).people@, person),
            final(self).rules@ == old(self).rules@,
    {
        if self.person_exists(person.id) {
            Err(AccessError::DuplicatePerson)
        } else {
            self.add_person(person);
            Ok(())
        }
    }

    /// Takes out every person with id `id` and hands back the first of
    /// them; rules owned by that id stay. With no such person the document
    /// is left as it was.
    pub fn deregister_person(&mut self, id: u64) -> (r: Result<Person, AccessError>)
        ensures
            r is Err <==> !has_person(old(self).people@, id),
            r matches Err(e) ==> e == AccessError::PersonNotFound,
            r matches Ok(p) ==> exists|k: int|
                is_first_with_id(old(self).people@, k, id) && old(self).people@[k] == p,
            r is Ok ==> final(self).people@ == without_person(old(self).people@, id),
            r is Err ==> final(self).people@ == old(self).people@,
            final(self).rules@ == old(self).rules@,
    {
        match self.position_of(id) {
            None => Err(AccessError::PersonNotFound),
            Some(k) => {
                let found = Person { id: self.people[k].id, name: self.people[k].name.clone() };
                self.kill_person_by_id(id);
                Ok(found)
            },
        }
    }

    /// Whether the person with id `id` may be present at `at`, or at the
    /// current local time when `at` is `None`.
    pub fn evaluate_access(&self, id: u64, at: Option<Instant>) -> (r: Result<bool, AccessError>)
        ensures
            r is Err <==> !has_person(self.people@, id),
            r matches Err(e) ==> e == AccessError::PersonNotFound,
            r matches Ok(b) ==> at matches Some(a) ==> exists|k: int|
                is_first_with_id(self.people@, k, id) && b == any_satisfied(
                    self.rules@,
                    (Env { person: self.people@[k], date: a }),
                ),
            r matches Ok(b) ==> at is None ==> exists|k: int, i: Instant|
                #![trigger is_first_with_id(self.people@, k, id), i.wf()]
                is_first_with_id(self.people@, k, id) && i.wf() && b == any_satisfied(
                    self.rules@,
                    (Env { person: self.people@[k], date: i }),
                ),
    {
        match self.position_of(id) {
            None => Err(AccessError::PersonNotFound),
            Some(k) => {
                let date = match at {
                    Some(a) => a,
                    None => crate::time::local_now(),
                };
                let person = Person { id: self.people[k].id, name: self.people[k].name.clone() };
                let env = Env { person, date };
                let b = self.is_satisfied(&env);
                assert(is_first_with_id(self.people@, k as int, id));
                Ok(b)
            },
        }
    }
}


/// With no rules, the document grants presence to nobody, at no time.
pub proof fn lemma_no_rules_no_access(rules: Seq<RuleObj>, env: Env)
    requires
        rules.len() == 0,
    ensures
        !any_satisfied(rules, env),
{
}

/// Adding, at any position, a rule that is satisfied in `env` makes the
/// document grant presence in `env`, whatever the other rules say.
pub proof fn lemma_satisfied_rule_grants(rules: Seq<RuleObj>, pos: int, r: RuleObj, env: Env)
    requires
        0 <= pos <= rules.len(),
        r.satisfied_by(env),
    ensures
        any_satisfied(rules.insert(pos, r), env),
{
    assert(rules.insert(pos, r)[pos] == r);
}

/// After registering `p`, a person with its id exists.
pub proof fn lemma_registered_exists(people: Seq<Person>, p: Person)
    ensures
        has_person(with_person(people, p), p.id),
{
    if !has_person(people, p.id) {
        assert(people.push(p)[people.len() as int].id == p.id);
    }
}

/// After deregistering id `id`, no person with that id remains.
pub proof fn lemma_deregistered_absent(people: Seq<Person>, id: u64)
    ensures
        !has_person(without_person(people, id), id),
{
    broadcast use vstd::seq_lib::group_filter_ensures;

    let rest = without_person(people, id);
    assert forall|k: int| 0 <= k < rest.len() implies rest[k].id != id by {
        people.lemma_filter_pred(|p: Person| p.id != id, k);
    }
}

/// Taking out an id that nobody has leaves the people as they were.
pub proof fn lemma_deregister_absent_unchanged(people: Seq<Person>, id: u64)
    requires
        !has_person(people, id),
    ensures
        without_person(people, id) == people,
    decreases people.len(),
{
    reveal(Seq::filter);
    if people.len() > 0 {
        let init = people.drop_last();
        assert forall|k: int| 0 <= k < init.len() implies init[k].id != id by {
            assert(people[k].id != id);
        }
        lemma_deregister_absent_unchanged(init, id);
        assert(people[people.len() - 1].id != id);
        assert(init.push(people.last()) =~= people);
    }
}

} // verus!
