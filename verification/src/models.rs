//! The record shapes the two stores manage, and their create/update
//! payloads. A payload (DTO) carries every field of its record except
//! the identifier: identifiers are assigned by the store, exactly once,
//! at creation.

use vstd::prelude::*;

verus! {

/// A managed user record. The identifier models a version-4 UUID as its
/// 128-bit value; it is chosen by the store at creation and never
/// mutated afterward.
pub struct User {
    pub id: u128,
    pub name: String,
    pub email: String,
}

/// Abstract value of a `User`.
pub struct UserV {
    pub id: u128,
    pub name: Seq<char>,
    pub email: Seq<char>,
}

impl View for User {
    type V = UserV;

    open spec fn view(&self) -> UserV {
        UserV { id: self.id, name: self.name@, email: self.email@ }
    }
}

impl Clone for User {
    fn clone(&self) -> (r: Self)
        ensures
            r == *self,
    {
        User { id: self.id, name: self.name.clone(), email: self.email.clone() }
    }
}

/// The payload accepted from a client when creating or replacing a
/// user: every field of `User` except the identifier.
pub struct UserDTO {
    pub name: String,
    pub email: String,
}

/// Abstract value of a `UserDTO`.
pub struct UserDtoV {
    pub name: Seq<char>,
    pub email: Seq<char>,
}

impl View for UserDTO {
    type V = UserDtoV;

    open spec fn view(&self) -> UserDtoV {
        UserDtoV { name: self.name@, email: self.email@ }
    }
}

impl Clone for UserDTO {
    fn clone(&self) -> (r: Self)
        ensures
            r == *self,
    {
        UserDTO { name: self.name.clone(), email: self.email.clone() }
    }
}

/// A managed todo record. The identifier is an integer assigned by the
/// relational backend at insert time, and never mutated afterward.
pub struct Todo {
    pub id: i64,
    pub title: String,
    pub completed: bool,
}

/// Abstract value of a `Todo`.
pub struct TodoV {
    pub id: i64,
    pub title: Seq<char>,
    pub completed: bool,
}

impl View for Todo {
    type V = TodoV;

    open spec fn view(&self) -> TodoV {
        TodoV { id: self.id, title: self.title@, completed: self.completed }
    }
}

impl Clone for Todo {
    fn clone(&self) -> (r: Self)
        ensures
            r == *self,
    {
        Todo { id: self.id, title: self.title.clone(), completed: self.completed }
    }
}

/// The payload accepted from a client when creating or replacing a
/// todo: every field of `Todo` except the identifier.
pub struct TodoDTO {
    pub title: String,
    pub completed: bool,
}

/// Abstract value of a `TodoDTO`.
pub struct TodoDtoV {
    pub title: Seq<char>,
    pub completed: bool,
}

impl View for TodoDTO {
    type V = TodoDtoV;

    open spec fn view(&self) -> TodoDtoV {
        TodoDtoV { title: self.title@, completed: self.completed }
    }
}

impl Clone for TodoDTO {
    fn clone(&self) -> (r: Self)
        ensures
            r == *self,
    {
        TodoDTO { title: self.title.clone(), completed: self.completed }
    }
}

} // verus!
