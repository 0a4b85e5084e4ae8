//! Namespaces: looking fields up by name.
//!
//! The interpreter looks fields up by names in lowercase without
//! underscores. A name that no field can have is answered by the bridge
//! itself; any other name is put to the interpreter, if the value is a
//! namespace.

use vstd::prelude::*;
use crate::backend::Backend;
use crate::bqntype::BQNType;
use crate::decide::{check_type, checked, field_outcome, settle, settled};
use crate::error::{lift, outcome, Error, ErrorView, Fault};
use crate::text::{is_valid_namespace_field, valid_field_name};
use crate::value::{option_outcome, BQNValue};

verus! {

impl<'r, B: Backend> BQNValue<'r, B> {
    /// The steps of asking whether the namespace has a field.
    pub open spec fn field_looked_up(
        &self,
        field: &str,
        name: Result<u64, Fault>,
        said: Result<bool, Fault>,
        freed: Result<(), Fault>,
        found: Result<bool, Fault>,
    ) -> bool {
        &&& call_ensures(B::bqn_makeUTF8Str, (&self.engine(), field), name)
        &&& match name {
            Err(f) => found == Err::<bool, Fault>(f),
            Ok(n) => {
                &&& call_ensures(B::bqn_hasField, (&self.engine(), self@, n), said)
                &&& call_ensures(B::bqn_free, (&self.engine(), n), freed)
                &&& found == settled(said, freed)
            },
        }
    }

    /// Asking the interpreter whether the namespace has a field: the name
    /// is made into a string, the question is put, and the string is
    /// released. `found` is the answer, or the first failure on the way.
    pub open spec fn field_asked(&self, field: &str, found: Result<bool, Fault>) -> bool {
        exists|name: Result<u64, Fault>, said: Result<bool, Fault>, freed: Result<(), Fault>|
            #![trigger self.field_looked_up(field, name, said, freed, found)]
            self.field_looked_up(field, name, said, freed, found)
    }

    /// Asks the interpreter whether the namespace has a field of this name.
    fn ask_field(&self, backend: &B, field: &str) -> (r: Result<bool, Fault>)
        requires
            *backend == self.engine(),
        ensures
            self.field_asked(field, r),
    {
        let name = backend.bqn_makeUTF8Str(field);
        let ghost name_seen = name;
        match name {
            Err(f) => {
                let r: Result<bool, Fault> = Err(f);
                assert(self.field_looked_up(field, name_seen, Ok(false), Ok(()), r));
                r
            },
            Ok(n) => {
                let said = backend.bqn_hasField(self.handle(), n);
                let freed = backend.bqn_free(n);
                let ghost said_seen = said;
                let ghost freed_seen = freed;
                let r = settle(said, freed);
                assert(self.field_looked_up(field, name_seen, said_seen, freed_seen, r));
                r
            },
        }
    }

    /// Looking a field up by name: under a name that a field can have, the
    /// type is asked for, and only a namespace is asked for the field.
    pub open spec fn field_checked(
        &self,
        field: &str,
        tag: Result<i32, Fault>,
        found: Result<bool, Fault>,
        out: Result<bool, ErrorView>,
    ) -> bool {
        &&& valid_field_name(field@) ==> {
            &&& self.type_asked(tag)
            &&& checked(tag, BQNType::Namespace, "value isn't a namespace"@) is Ok
                ==> self.field_asked(field, found)
        }
        &&& out == field_outcome(field@, tag, found, false)
    }

    /// Returns a boolean value indicating whether `field` exists in a BQN
    /// namespace.
    ///
    /// The interpreter looks fields up by names in lowercase without
    /// underscores. Under any other name no field is found: the result is
    /// `false`, whatever the value is, and the interpreter is not asked.
    /// Under a name that a field can have, the value must be a namespace;
    /// on any other value the function fails with `InvalidType`.
    pub fn has_field(&self, field: &str) -> (r: Result<bool, Error>)
        ensures
            !valid_field_name(field@) ==> r == Ok::<bool, Error>(false),
            exists|tag: Result<i32, Fault>, found: Result<bool, Fault>|
                self.field_checked(field, tag, found, outcome(r)),
    {
        let held = self.runtime().lock();
        let backend = self.runtime().backend(&held);
        if !is_valid_namespace_field(field) {
            assert(self.field_checked(field, Ok(0), Ok(false), outcome::<bool>(Ok(false))));
            return Ok(false);
        }
        let tag = backend.bqn_type(self.handle());
        let ghost tag_seen = tag;
        match check_type(tag, BQNType::Namespace, "value isn't a namespace") {
            Err(e) => {
                assert(self.field_checked(field, tag_seen, Ok(false), outcome::<bool>(Err(e))));
                Err(e)
            },
            Ok(()) => {
                let found = self.ask_field(backend, field);
                let ghost seen = found;
                let r = lift(found);
                assert(self.field_checked(field, tag_seen, seen, outcome(r)));
                r
            },
        }
    }

    /// The steps of asking for a field.
    pub open spec fn field_taken(
        &self,
        field: &str,
        name: Result<u64, Fault>,
        said: Result<bool, Fault>,
        got: Result<u64, Fault>,
        freed: Result<(), Fault>,
        found: Result<Option<u64>, Fault>,
    ) -> bool {
        &&& call_ensures(B::bqn_makeUTF8Str, (&self.engine(), field), name)
        &&& match name {
            Err(f) => found == Err::<Option<u64>, Fault>(f),
            Ok(n) => {
                &&& call_ensures(B::bqn_hasField, (&self.engine(), self@, n), said)
                &&& said == Ok::<bool, Fault>(true) ==> call_ensures(
                    B::bqn_getField,
                    (&self.engine(), self@, n),
                    got,
                )
                &&& call_ensures(B::bqn_free, (&self.engine(), n), freed)
                &&& found == settled(
                    match said {
                        Err(f) => Err(f),
                        Ok(false) => Ok(None),
                        Ok(true) => match got {
                            Err(f) => Err(f),
                            Ok(v) => Ok(Some(v)),
                        },
                    },
                    freed,
                )
            },
        }
    }

    /// Asking the interpreter for a field: the name is made into a string,
    /// the namespace is asked whether it has the field and, if it has, for
    /// the field, and the string is released. `found` is the field, or
    /// none, or the first failure on the way.
    pub open spec fn field_fetched(&self, field: &str, found: Result<Option<u64>, Fault>) -> bool {
        exists|
            name: Result<u64, Fault>,
            said: Result<bool, Fault>,
            got: Result<u64, Fault>,
            freed: Result<(), Fault>,
        |
            #![trigger self.field_taken(field, name, said, got, freed, found)]
            self.field_taken(field, name, said, got, freed, found)
    }

    /// Asks the interpreter for the field of this name, if the namespace
    /// has one. A field that was got is released again if the name cannot
    /// be.
    fn fetch_field(&self, backend: &B, field: &str) -> (r: Result<Option<u64>, Fault>)
        requires
            *backend == self.engine(),
        ensures
            self.field_fetched(field, r),
    {
        let name = backend.bqn_makeUTF8Str(field);
        let ghost name_seen = name;
        match name {
            Err(f) => {
                let r: Result<Option<u64>, Fault> = Err(f);
                assert(self.field_taken(field, name_seen, Ok(false), Ok(0), Ok(()), r));
                r
            },
            Ok(n) => {
                let said = backend.bqn_hasField(self.handle(), n);
                let ghost said_seen = said;
                let mut got_seen: Ghost<Result<u64, Fault>> = Ghost(Ok(0));
                let found: Result<Option<u64>, Fault> = match said {
                    Err(f) => Err(f),
                    Ok(false) => Ok(None),
                    Ok(true) => {
                        let got = backend.bqn_getField(self.handle(), n);
                        proof {
                            got_seen@ = got;
                        }
                        match got {
                            Err(f) => Err(f),
                            Ok(v) => Ok(Some(v)),
                        }
                    },
                };
                let freed = backend.bqn_free(n);
                let ghost freed_seen = freed;
                match &freed {
                    Err(_) => match &found {
                        Ok(Some(v)) => {
                            let _ = backend.bqn_free(*v);
                        },
                        _ => {},
                    },
                    Ok(()) => {},
                }
                let r = settle(found, freed);
                assert(self.field_taken(field, name_seen, said_seen, got_seen@, freed_seen, r));
                r
            },
        }
    }

    /// Getting a field by name: under a name that a field can have, the
    /// type is asked for, and only a namespace is asked for the field.
    pub open spec fn field_got(
        &self,
        field: &str,
        tag: Result<i32, Fault>,
        found: Result<Option<u64>, Fault>,
        out: Result<Option<u64>, ErrorView>,
    ) -> bool {
        &&& valid_field_name(field@) ==> {
            &&& self.type_asked(tag)
            &&& checked(tag, BQNType::Namespace, "value isn't a namespace"@) is Ok
                ==> self.field_fetched(field, found)
        }
        &&& out == field_outcome(field@, tag, found, None)
    }

    /// Returns `field` from a BQN namespace as `BQNValue`. Returns `None` if
    /// the field cannot be found.
    ///
    /// The interpreter looks fields up by names in lowercase without
    /// underscores. Under any other name no field is found: the result is
    /// `None`, whatever the value is, and the interpreter is not asked.
    /// Under a name that a field can have, the value must be a namespace;
    /// on any other value the function fails with `InvalidType`.
    pub fn get_field(&self, field: &str) -> (r: Result<Option<BQNValue<'r, B>>, Error>)
        ensures
            !valid_field_name(field@) ==> r matches Ok(None),
            r matches Ok(Some(v)) ==> v.home() == self.home(),
            exists|tag: Result<i32, Fault>, found: Result<Option<u64>, Fault>|
                self.field_got(field, tag, found, option_outcome(r)),
    {
        let held = self.runtime().lock();
        let backend = self.runtime().backend(&held);
        if !is_valid_namespace_field(field) {
            assert(self.field_got(field, Ok(0), Ok(None), option_outcome::<B>(Ok(None))));
            return Ok(None);
        }
        let tag = backend.bqn_type(self.handle());
        let ghost tag_seen = tag;
        match check_type(tag, BQNType::Namespace, "value isn't a namespace") {
            Err(e) => {
                assert(self.field_got(field, tag_seen, Ok(None), option_outcome::<B>(Err(e))));
                Err(e)
            },
            Ok(()) => {
                let found = self.fetch_field(backend, field);
                let ghost seen = found;
                let r: Result<Option<BQNValue<'r, B>>, Error> = match lift(found) {
                    Err(e) => Err(e),
                    Ok(None) => Ok(None),
                    Ok(Some(v)) => Ok(Some(BQNValue::new(self.runtime(), v))),
                };
                assert(self.field_got(field, tag_seen, seen, option_outcome(r)));
                r
            },
        }
    }
}

} // verus!
