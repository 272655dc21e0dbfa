use crate::domain::subscriber_check;
use crate::domain::NewSubscriber;
use crate::identifier::fresh_identifier;
use crate::identifier::is_identifier;
use vstd::prelude::*;

verus! {

/// The two fields of the subscription form, as submitted.
#[derive(Debug)]
pub struct FormData {
    pub name: String,
    pub email: String,
}

/// One row of the table of subscriptions, but for the time of subscribing,
/// which is read from the clock when the row is written.
#[derive(Debug)]
pub struct SubscriptionRow {
    pub id: String,
    pub email: String,
    pub name: String,
    pub status: String,
}

pub struct SubscriptionRowView {
    pub id: Seq<char>,
    pub email: Seq<char>,
    pub name: Seq<char>,
    pub status: Seq<char>,
}

impl View for SubscriptionRow {
    type V = SubscriptionRowView;

    open spec fn view(&self) -> SubscriptionRowView {
        SubscriptionRowView {
            id: self.id@,
            email: self.email@,
            name: self.name@,
            status: self.status@,
        }
    }
}

/// The row that records a subscriber under the given identifier: every new
/// subscription is stored as confirmed.
pub open spec fn row_of(id: Seq<char>, email: Seq<char>, name: Seq<char>) -> SubscriptionRowView {
    SubscriptionRowView { id, email, name, status: "confirmed"@ }
}

/// The answer to a health check: success, with nothing in the body.
pub fn health_check() -> (status: u16)
    ensures
        status == 200,
{
    200
}

/// Judges a submitted form: a form with a blank name or a malformed
/// address is answered with status 400, any other is to be stored.
pub fn subscribe(form: FormData) -> (judged: Result<NewSubscriber, u16>)
    ensures
        match judged {
            Ok(subscriber) => subscriber_check(form.name@, form.email@) is None
                && subscriber.name@ == form.name@ && subscriber.email@ == form.email@,
            Err(status) => subscriber_check(form.name@, form.email@) is Some && status == 400,
        },
{
    match NewSubscriber::try_from(form) {
        Ok(subscriber) => Ok(subscriber),
        Err(_) => Err(400),
    }
}

/// The answer to a form that was accepted: 200 where the subscriber was
/// stored, 500 where the database failed.
pub fn subscribe_reply(stored: bool) -> (status: u16)
    ensures
        status == if stored {
            200u16
        } else {
            500u16
        },
{
    if stored {
        200
    } else {
        500
    }
}

/// The row that records `subscriber` under the identifier `id`.
pub fn subscription_row(subscriber: &NewSubscriber, id: String) -> (row: SubscriptionRow)
    ensures
        row@ == row_of(id@, subscriber.email@, subscriber.name@),
{
    SubscriptionRow {
        id,
        email: String::from_str(subscriber.email.as_ref()),
        name: String::from_str(subscriber.name.as_ref()),
        status: String::from_str("confirmed"),
    }
}

/// The row that records `subscriber` under a fresh identifier.
pub fn insert_subscriber(subscriber: &NewSubscriber) -> (row: SubscriptionRow)
    ensures
        is_identifier(row@.id),
        row@ == row_of(row@.id, subscriber.email@, subscriber.name@),
{
    subscription_row(subscriber, fresh_identifier())
}

} // verus!
