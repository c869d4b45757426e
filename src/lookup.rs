use vstd::prelude::*;

use crate::error::PersonError;
use crate::source::{Instance, Person};
use crate::store::{copy_person, PersonStore};
use crate::text::{lowercase, lower_of, same_name, str_eq};

verus! {

/// Whether a row answers a lookup by local name.
pub open spec fn name_match(p: Person, name: Seq<char>, include_deleted: bool) -> bool {
    p.local && same_name(p.name@, name) && (include_deleted || !p.deleted)
}

/// Whether some instance with the row's instance id has the domain, compared
/// case-insensitively.
pub open spec fn on_domain(instances: Seq<Instance>, p: Person, domain: Seq<char>) -> bool {
    exists|k: int|
        0 <= k < instances.len() && (#[trigger] instances[k]).id == p.instance_id && same_name(
            instances[k].domain@,
            domain,
        )
}

/// Whether a row answers a lookup by name and domain.
pub open spec fn name_domain_match(
    instances: Seq<Instance>,
    p: Person,
    name: Seq<char>,
    domain: Seq<char>,
) -> bool {
    same_name(p.name@, name) && on_domain(instances, p, domain)
}

/// Whether some local row has the name, compared case-insensitively.
pub open spec fn local_name_taken(persons: Seq<Person>, name: Seq<char>) -> bool {
    exists|i: int|
        0 <= i < persons.len() && (#[trigger] persons[i]).local && same_name(persons[i].name@, name)
}

impl PersonStore {
    /// What `read_from_name` returns: the first row that answers, if any.
    pub open spec fn read_from_name_spec(
        &self,
        name: Seq<char>,
        include_deleted: bool,
        r: Option<Person>,
    ) -> bool {
        match r {
            Some(p) => exists|i: int|
                0 <= i < self.persons@.len() && #[trigger] self.persons@[i] == p && name_match(
                    p,
                    name,
                    include_deleted,
                ) && forall|j: int|
                    0 <= j < i ==> !name_match(#[trigger] self.persons@[j], name, include_deleted),
            None => forall|i: int|
                0 <= i < self.persons@.len() ==> !name_match(
                    #[trigger] self.persons@[i],
                    name,
                    include_deleted,
                ),
        }
    }

    /// What `read_from_name_and_domain` returns: the first row that answers, if any.
    pub open spec fn read_from_name_and_domain_spec(
        &self,
        name: Seq<char>,
        domain: Seq<char>,
        r: Option<Person>,
    ) -> bool {
        match r {
            Some(p) => exists|i: int|
                0 <= i < self.persons@.len() && #[trigger] self.persons@[i] == p
                    && name_domain_match(self.instances@, p, name, domain) && forall|j: int|
                    0 <= j < i ==> !name_domain_match(
                        self.instances@,
                        #[trigger] self.persons@[j],
                        name,
                        domain,
                    ),
            None => forall|i: int|
                0 <= i < self.persons@.len() ==> !name_domain_match(
                    self.instances@,
                    #[trigger] self.persons@[i],
                    name,
                    domain,
                ),
        }
    }

    /// The person with the external identifier, unless it is soft-deleted.
    pub fn read_from_apub_id(&self, object_id: &str) -> (r: Option<Person>)
        requires
            self.wf(),
        ensures
            r matches Some(p) ==> self.persons@.contains(p) && p.ap_id@ == object_id@
                && !p.deleted,
            r is None ==> forall|i: int|
                0 <= i < self.persons@.len() && (#[trigger] self.persons@[i]).ap_id@
                    == object_id@ ==> self.persons@[i].deleted,
    {
        let mut i: usize = 0;
        while i < self.persons.len()
            invariant
                i <= self.persons@.len(),
                forall|j: int|
                    0 <= j < i ==> !((#[trigger] self.persons@[j]).ap_id@ == object_id@
                        && !self.persons@[j].deleted),
            decreases self.persons@.len() - i,
        {
            if !self.persons[i].deleted && str_eq(self.persons[i].ap_id.as_str(), object_id) {
                let p = copy_person(&self.persons[i]);
                assert(self.persons@[i as int] == p);
                return Some(p);
            }
            i = i + 1;
        }
        None
    }

    /// The first local person whose name equals `from_name` case-insensitively;
    /// soft-deleted rows count only when `include_deleted` is set.
    pub fn read_from_name(&self, from_name: &str, include_deleted: bool) -> (r: Option<Person>)
        ensures
            self.read_from_name_spec(from_name@, include_deleted, r),
    {
        let wanted = lowercase(from_name);
        let mut i: usize = 0;
        while i < self.persons.len()
            invariant
                i <= self.persons@.len(),
                wanted@ == lower_of(from_name@),
                forall|j: int|
                    0 <= j < i ==> !name_match(#[trigger] self.persons@[j], from_name@, include_deleted),
            decreases self.persons@.len() - i,
        {
            let p = &self.persons[i];
            if p.local && (include_deleted || !p.deleted) {
                let l = lowercase(p.name.as_str());
                if l == wanted {
                    let q = copy_person(p);
                    assert(self.persons@[i as int] == q);
                    return Some(q);
                }
            }
            i = i + 1;
        }
        None
    }

    /// Whether some instance has the id and, lower-cased, the domain `wanted`.
    fn instance_on_domain(&self, instance_id: i32, wanted: &String, domain: Ghost<Seq<char>>) -> (r: bool)
        requires
            wanted@ == lower_of(domain@),
        ensures
            r == exists|k: int|
                0 <= k < self.instances@.len() && (#[trigger] self.instances@[k]).id == instance_id
                    && same_name(self.instances@[k].domain@, domain@),
    {
        let mut k: usize = 0;
        while k < self.instances.len()
            invariant
                k <= self.instances@.len(),
                wanted@ == lower_of(domain@),
                forall|j: int|
                    0 <= j < k ==> !((#[trigger] self.instances@[j]).id == instance_id && same_name(
                        self.instances@[j].domain@,
                        domain@,
                    )),
            decreases self.instances@.len() - k,
        {
            if self.instances[k].id == instance_id {
                let l = lowercase(self.instances[k].domain.as_str());
                if l == *wanted {
                    return true;
                }
            }
            k = k + 1;
        }
        false
    }

    /// The first person whose name equals `person_name` and whose instance's
    /// domain equals `for_domain`, both case-insensitively, deleted or not.
    pub fn read_from_name_and_domain(&self, person_name: &str, for_domain: &str) -> (r: Option<
        Person,
    >)
        ensures
            self.read_from_name_and_domain_spec(person_name@, for_domain@, r),
    {
        let wanted_name = lowercase(person_name);
        let wanted_domain = lowercase(for_domain);
        let mut i: usize = 0;
        while i < self.persons.len()
            invariant
                i <= self.persons@.len(),
                wanted_name@ == lower_of(person_name@),
                wanted_domain@ == lower_of(for_domain@),
                forall|j: int|
                    0 <= j < i ==> !name_domain_match(
                        self.instances@,
                        #[trigger] self.persons@[j],
                        person_name@,
                        for_domain@,
                    ),
            decreases self.persons@.len() - i,
        {
            let p = &self.persons[i];
            let l = lowercase(p.name.as_str());
            if l == wanted_name && self.instance_on_domain(
                p.instance_id,
                &wanted_domain,
                Ghost(for_domain@),
            ) {
                let q = copy_person(p);
                assert(self.persons@[i as int] == q);
                return Some(q);
            }
            i = i + 1;
        }
        None
    }

    /// Succeeds when no local person holds the name, compared
    /// case-insensitively; fails with `UsernameAlreadyExists` otherwise.
    pub fn check_username_taken(&self, username: &str) -> (r: Result<(), PersonError>)
        ensures
            r is Err <==> local_name_taken(self.persons@, username@),
            r matches Err(e) ==> e == PersonError::UsernameAlreadyExists,
    {
        let wanted = lowercase(username);
        let mut i: usize = 0;
        while i < self.persons.len()
            invariant
                i <= self.persons@.len(),
                wanted@ == lower_of(username@),
                forall|j: int|
                    0 <= j < i ==> !((#[trigger] self.persons@[j]).local && same_name(
                        self.persons@[j].name@,
                        username@,
                    )),
            decreases self.persons@.len() - i,
        {
            if self.persons[i].local {
                let l = lowercase(self.persons[i].name.as_str());
                if l == wanted {
                    return Err(PersonError::UsernameAlreadyExists);
                }
            }
            i = i + 1;
        }
        Ok(())
    }
}

} // verus!
