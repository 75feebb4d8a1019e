//! The one entity of the service: a subscriber as it is stored.

use crate::identifier::hyphenated;
use crate::identifier::hyphenated_text;
use crate::validation::broken_rule;
use crate::validation::NewSubscriber;
use vstd::prelude::*;

verus! {

/// A stored subscriber as plain values.
pub struct Row {
    pub id: u128,
    pub email: Seq<char>,
    pub name: Seq<char>,
    pub subscribed_at: i64,
}

/// A subscriber ready to be stored: its fields have passed the rules, and it
/// can no longer be changed.
pub struct Subscriber {
    id: u128,
    email: String,
    name: String,
    subscribed_at: i64,
}

impl View for Subscriber {
    type V = Row;

    closed spec fn view(&self) -> Row {
        Row {
            id: self.id,
            email: self.email@,
            name: self.name@,
            subscribed_at: self.subscribed_at,
        }
    }
}

impl Subscriber {
    #[verifier::type_invariant]
    spec fn rules_hold(self) -> bool {
        broken_rule(self.email@, self.name@) is None
    }

    /// Joins a validated submission with its identifier and the time of
    /// subscription, in microseconds since the Unix epoch.
    pub fn new(id: u128, subscriber: NewSubscriber, subscribed_at: i64) -> (r: Subscriber)
        ensures
            r@ == (Row {
                id,
                email: subscriber@.email,
                name: subscriber@.name,
                subscribed_at,
            }),
    {
        let (email, name) = subscriber.into_parts();
        Subscriber { id, email, name, subscribed_at }
    }

    /// The identifier.
    pub fn id(&self) -> (r: u128)
        ensures
            r == self@.id,
    {
        self.id
    }

    /// The identifier in hyphenated form.
    pub fn id_text(&self) -> (r: String)
        ensures
            r@ == hyphenated(self@.id),
    {
        hyphenated_text(self.id)
    }

    /// The email, which has passed the rules.
    pub fn email(&self) -> (r: &str)
        ensures
            r@ == self@.email,
            broken_rule(self@.email, self@.name) is None,
    {
        proof {
            use_type_invariant(self);
        }
        self.email.as_str()
    }

    /// The name, which has passed the rules.
    pub fn name(&self) -> (r: &str)
        ensures
            r@ == self@.name,
            broken_rule(self@.email, self@.name) is None,
    {
        proof {
            use_type_invariant(self);
        }
        self.name.as_str()
    }

    /// The time of subscription, in microseconds since the Unix epoch.
    pub fn subscribed_at(&self) -> (r: i64)
        ensures
            r == self@.subscribed_at,
    {
        self.subscribed_at
    }
}

} // verus!
