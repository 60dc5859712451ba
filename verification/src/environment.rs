//! The environment: the variables of a session, each with its value and
//! with whether it may be assigned to.

use crate::error::{outcome_of, Failure, InterperterError};
use crate::expr_eval::Value;
use vstd::hash_map::StringHashMap;
use vstd::prelude::*;
use vstd::string::*;

verus! {

/// Whether a variable may be assigned to.
#[derive(Clone, Copy, Debug, PartialEq, Eq, Structural)]
pub enum Mutability {
    Mutable,
    Immutable,
}

/// What a name stands for.
#[derive(Debug, PartialEq)]
pub enum Entity {
    Variable(Mutability, Value),
}

impl Entity {
    /// The value of the entity.
    pub open spec fn value(self) -> Value {
        self->Variable_1
    }

    /// Whether the entity may be assigned to.
    pub open spec fn mutability(self) -> Mutability {
        self->Variable_0
    }
}

/// The value of the variable `name`.
pub open spec fn lookup(env: Map<Seq<char>, Entity>, name: Seq<char>) -> Result<Value, Failure> {
    if env.contains_key(name) {
        Ok(env[name].value())
    } else {
        Err(Failure::SymbolNotFound(name))
    }
}

/// The environment with a new entity `name`; a name can be given once only.
pub open spec fn inserted(env: Map<Seq<char>, Entity>, name: Seq<char>, entity: Entity) -> Result<
    Map<Seq<char>, Entity>,
    Failure,
> {
    if env.contains_key(name) {
        Err(Failure::SymbolAlreadyDefined(name))
    } else {
        Ok(env.insert(name, entity))
    }
}

/// The environment with another entity under the name `name`, which must
/// be in use.
pub open spec fn updated(env: Map<Seq<char>, Entity>, name: Seq<char>, entity: Entity) -> Result<
    Map<Seq<char>, Entity>,
    Failure,
> {
    if env.contains_key(name) {
        Ok(env.insert(name, entity))
    } else {
        Err(Failure::SymbolNotFound(name))
    }
}

/// The environment after `value` has been assigned to the variable `name`,
/// which must have been declared, and as mutable.
pub open spec fn assigned(env: Map<Seq<char>, Entity>, name: Seq<char>, value: Value) -> Result<
    Map<Seq<char>, Entity>,
    Failure,
> {
    if !env.contains_key(name) {
        Err(Failure::SymbolNotFound(name))
    } else if env[name].mutability() == Mutability::Immutable {
        Err(Failure::ImmutableAssignment(name))
    } else {
        Ok(env.insert(name, Entity::Variable(Mutability::Mutable, value)))
    }
}

/// What a change leaves of an environment: the changed environment, or the
/// old one where the change was refused.
pub open spec fn settled(
    before: Map<Seq<char>, Entity>,
    change: Result<Map<Seq<char>, Entity>, Failure>,
) -> Map<Seq<char>, Entity> {
    match change {
        Ok(after) => after,
        Err(_) => before,
    }
}

/// Whether a change to an environment was made, and if not, why not.
pub open spec fn verdict(change: Result<Map<Seq<char>, Entity>, Failure>) -> Result<(), Failure> {
    match change {
        Ok(_) => Ok(()),
        Err(failure) => Err(failure),
    }
}

/// The entities of a session by their names. Its view is the map from the
/// text of a name to the entity.
pub struct Environment {
    data: StringHashMap<Entity>,
}

impl View for Environment {
    type V = Map<Seq<char>, Entity>;

    closed spec fn view(&self) -> Map<Seq<char>, Entity> {
        self.data@
    }
}

impl Environment {
    /// An environment without entities.
    pub fn new() -> (environment: Self)
        ensures
            environment@ == Map::<Seq<char>, Entity>::empty(),
    {
        Self { data: StringHashMap::new() }
    }

    /// The entity of the given name.
    pub fn get_entity(&self, name: &str) -> (result: Result<&Entity, InterperterError>)
        ensures
            self@.contains_key(name@) ==> result == Ok::<&Entity, InterperterError>(
                &self@[name@],
            ),
            !self@.contains_key(name@) ==> (result matches Err(e) && e@
                == Failure::SymbolNotFound(name@)),
    {
        match self.data.get(name) {
            Some(entity) => Ok(entity),
            None => Err(InterperterError::SymbolNotFound(name.to_owned())),
        }
    }

    /// Puts an entity under a name that is not in use.
    pub fn insert_entity(&mut self, name: &str, entity: Entity) -> (result: Result<
        (),
        InterperterError,
    >)
        ensures
            outcome_of(result) == verdict(inserted(old(self)@, name@, entity)),
            final(self)@ == settled(old(self)@, inserted(old(self)@, name@, entity)),
    {
        if self.data.contains_key(name) {
            Err(InterperterError::SymbolAlreadyDefined(name.to_owned()))
        } else {
            self.data.insert(name.to_owned(), entity);
            Ok(())
        }
    }

    /// Puts another entity under a name that is in use.
    pub fn update_entity(&mut self, name: &str, entity: Entity) -> (result: Result<
        (),
        InterperterError,
    >)
        ensures
            outcome_of(result) == verdict(updated(old(self)@, name@, entity)),
            final(self)@ == settled(old(self)@, updated(old(self)@, name@, entity)),
    {
        if self.data.contains_key(name) {
            self.data.insert(name.to_owned(), entity);
            Ok(())
        } else {
            Err(InterperterError::SymbolNotFound(name.to_owned()))
        }
    }

    /// Declares a variable: its name must not be in use.
    pub fn define_variable(&mut self, name: &str, mutability: Mutability, value: Value) -> (result:
        Result<(), InterperterError>)
        ensures
            outcome_of(result) == verdict(
                inserted(old(self)@, name@, Entity::Variable(mutability, value)),
            ),
            final(self)@ == settled(
                old(self)@,
                inserted(old(self)@, name@, Entity::Variable(mutability, value)),
            ),
    {
        self.insert_entity(name, Entity::Variable(mutability, value))
    }

    /// Gives a variable a new value: it must have been declared, and as
    /// mutable. A refused assignment changes nothing.
    pub fn assign_to_variable(&mut self, name: &str, new_value: Value) -> (result: Result<
        (),
        InterperterError,
    >)
        ensures
            outcome_of(result) == verdict(assigned(old(self)@, name@, new_value)),
            final(self)@ == settled(old(self)@, assigned(old(self)@, name@, new_value)),
    {
        let mutable = match self.data.get(name) {
            Some(Entity::Variable(mutability, _)) => match mutability {
                Mutability::Mutable => true,
                Mutability::Immutable => false,
            },
            None => {
                return Err(InterperterError::SymbolNotFound(name.to_owned()));
            },
        };
        if mutable {
            self.data.insert(name.to_owned(), Entity::Variable(Mutability::Mutable, new_value));
            Ok(())
        } else {
            Err(InterperterError::ImmutableAssignment(name.to_owned()))
        }
    }

    /// The value of the variable of the given name.
    pub fn get_variable_value(&self, name: &str) -> (result: Result<&Value, InterperterError>)
        ensures
            match lookup(self@, name@) {
                Ok(value) => result == Ok::<&Value, InterperterError>(&value),
                Err(failure) => result matches Err(e) && e@ == failure,
            },
    {
        match self.get_entity(name) {
            Ok(Entity::Variable(_, value)) => Ok(value),
            Err(error) => Err(error),
        }
    }
}

} // verus!
