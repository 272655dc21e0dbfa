use crate::routes::FormData;
use crate::text::chars_of;
use vstd::prelude::*;

verus! {

/// Why a name or an address was turned down.
#[derive(Clone, Copy, Debug, PartialEq, Eq, Structural)]
pub enum SubscriberError {
    /// The name holds nothing but white space.
    InvalidName,
    /// The address has no `@`, or nothing before or after its last `@`.
    InvalidEmail,
}

/// Position of the last `@` in `s`, or -1 where there is none.
pub open spec fn last_at(s: Seq<char>) -> int
    decreases s.len(),
{
    if s.len() == 0 {
        -1
    } else if s.last() == '@' {
        s.len() - 1
    } else {
        last_at(s.drop_last())
    }
}

/// What stands before the last `@`.
pub open spec fn local_part(s: Seq<char>) -> Seq<char> {
    s.take(last_at(s))
}

/// What stands after the last `@`.
pub open spec fn domain_part(s: Seq<char>) -> Seq<char> {
    s.skip(last_at(s) + 1)
}

/// The shape every sender and recipient address must have: an `@`, with a
/// non-empty local part before the last one and a non-empty domain after it.
pub open spec fn is_email_address(s: Seq<char>) -> bool {
    &&& s.contains('@')
    &&& local_part(s).len() > 0
    &&& domain_part(s).len() > 0
}

/// [`last_at`] is the place of an `@` after which no other `@` follows.
pub proof fn lemma_last_at(s: Seq<char>)
    ensures
        -1 <= last_at(s) < s.len(),
        last_at(s) >= 0 ==> s[last_at(s)] == '@',
        forall|j: int| last_at(s) < j < s.len() ==> s[j] != '@',
        s.contains('@') <==> last_at(s) >= 0,
    decreases s.len(),
{
    if s.len() == 0 {
    } else if s.last() == '@' {
        assert(s[s.len() - 1] == '@');
    } else {
        let front = s.drop_last();
        lemma_last_at(front);
        assert forall|j: int| last_at(s) < j < s.len() implies s[j] != '@' by {
            if j < front.len() {
                assert(front[j] == s[j]);
            }
        }
        if last_at(s) >= 0 {
            assert(front[last_at(s)] == s[last_at(s)]);
        }
        if s.contains('@') {
            let i = choose|i: int| 0 <= i < s.len() && s[i] == '@';
            assert(front[i] == '@');
        }
    }
}

/// An address is accepted exactly when an `@` stands in it that is neither
/// its first nor its last character and that no other `@` follows: so one
/// without `@`, one that begins with its only `@`, and one that ends in `@`
/// are all turned down.
pub proof fn lemma_email_shape(s: Seq<char>)
    ensures
        is_email_address(s) <==> 0 < last_at(s) < s.len() - 1,
        !s.contains('@') ==> !is_email_address(s),
        local_part(s).len() == 0 ==> !is_email_address(s),
        domain_part(s).len() == 0 ==> !is_email_address(s),
        s.len() > 0 && s.last() == '@' ==> !is_email_address(s),
        is_email_address(s) ==> s =~= local_part(s) + seq!['@'] + domain_part(s),
{
    lemma_last_at(s);
}

/// White space as Unicode defines it.
pub open spec fn is_space(c: char) -> bool {
    ||| c == ' '
    ||| ('\u{9}' <= c && c <= '\u{d}')
    ||| c == '\u{85}'
    ||| c == '\u{a0}'
    ||| c == '\u{1680}'
    ||| ('\u{2000}' <= c && c <= '\u{200a}')
    ||| c == '\u{2028}'
    ||| c == '\u{2029}'
    ||| c == '\u{202f}'
    ||| c == '\u{205f}'
    ||| c == '\u{3000}'
}

/// A name is acceptable when something other than white space stands in it.
pub open spec fn is_subscriber_name(s: Seq<char>) -> bool {
    exists|i: int| 0 <= i < s.len() && !is_space(#[trigger] s[i])
}

fn space(c: char) -> (yes: bool)
    ensures
        yes == is_space(c),
{
    c == ' ' || ('\u{9}' <= c && c <= '\u{d}') || c == '\u{85}' || c == '\u{a0}' || c
        == '\u{1680}' || ('\u{2000}' <= c && c <= '\u{200a}') || c == '\u{2028}' || c
        == '\u{2029}' || c == '\u{202f}' || c == '\u{205f}' || c == '\u{3000}'
}

/// Decides [`is_email_address`].
pub fn looks_like_email(text: &str) -> (yes: bool)
    ensures
        yes == is_email_address(text@),
{
    let chars = chars_of(text);
    let n: usize = chars.len();
    let mut i: usize = n;
    proof {
        lemma_last_at(text@);
    }
    while i > 0
        invariant
            i <= n,
            n == chars@.len(),
            chars@ == text@,
            forall|j: int| i <= j < n ==> chars@[j] != '@',
        decreases i,
    {
        i -= 1;
        if chars[i] == '@' {
            proof {
                lemma_last_at(text@);
                let p = last_at(text@);
                if p < i {
                    assert(text@[i as int] == '@');
                }
                if p > i {
                    assert(chars@[p] != '@');
                }
                assert(p == i);
                assert(text@.contains('@'));
            }
            return i > 0 && i < n - 1;
        }
    }
    proof {
        if text@.contains('@') {
            let k = choose|k: int| 0 <= k < text@.len() && text@[k] == '@';
            assert(chars@[k] != '@');
        }
    }
    false
}

/// Decides [`is_subscriber_name`].
pub fn looks_like_name(text: &str) -> (yes: bool)
    ensures
        yes == is_subscriber_name(text@),
{
    let chars = chars_of(text);
    let mut i: usize = 0;
    while i < chars.len()
        invariant
            i <= chars.len(),
            chars@ == text@,
            forall|j: int| 0 <= j < i ==> is_space(#[trigger] chars@[j]),
        decreases chars.len() - i,
    {
        if !space(chars[i]) {
            assert(!is_space(text@[i as int]));
            return true;
        }
        i += 1;
    }
    false
}

/// An address that has passed [`is_email_address`].
#[derive(Debug)]
pub struct SubscriberEmail {
    address: String,
}

impl View for SubscriberEmail {
    type V = Seq<char>;

    closed spec fn view(&self) -> Seq<char> {
        self.address@
    }
}

impl SubscriberEmail {
    #[verifier::type_invariant]
    spec fn well_formed(self) -> bool {
        is_email_address(self.address@)
    }

    /// Accepts `text` exactly when it has the shape of an address.
    pub fn parse(text: String) -> (parsed: Result<SubscriberEmail, SubscriberError>)
        ensures
            match parsed {
                Ok(email) => is_email_address(text@) && email@ == text@,
                Err(e) => !is_email_address(text@) && e == SubscriberError::InvalidEmail,
            },
    {
        if looks_like_email(text.as_str()) {
            Ok(SubscriberEmail { address: text })
        } else {
            Err(SubscriberError::InvalidEmail)
        }
    }

    /// The address as text.
    pub fn as_ref(&self) -> (text: &str)
        ensures
            text@ == self@,
            is_email_address(self@),
    {
        proof {
            use_type_invariant(self);
        }
        self.address.as_str()
    }

    /// A second value holding the same address.
    pub fn duplicate(&self) -> (copy: SubscriberEmail)
        ensures
            copy@ == self@,
    {
        proof {
            use_type_invariant(self);
        }
        SubscriberEmail { address: self.address.clone() }
    }
}

/// A name that has passed [`is_subscriber_name`].
#[derive(Debug)]
pub struct SubscriberName {
    name: String,
}

impl View for SubscriberName {
    type V = Seq<char>;

    closed spec fn view(&self) -> Seq<char> {
        self.name@
    }
}

impl SubscriberName {
    #[verifier::type_invariant]
    spec fn well_formed(self) -> bool {
        is_subscriber_name(self.name@)
    }

    /// Accepts `text` exactly when it is not blank.
    pub fn parse(text: String) -> (parsed: Result<SubscriberName, SubscriberError>)
        ensures
            match parsed {
                Ok(name) => is_subscriber_name(text@) && name@ == text@,
                Err(e) => !is_subscriber_name(text@) && e == SubscriberError::InvalidName,
            },
    {
        if looks_like_name(text.as_str()) {
            Ok(SubscriberName { name: text })
        } else {
            Err(SubscriberError::InvalidName)
        }
    }

    /// The name as text.
    pub fn as_ref(&self) -> (text: &str)
        ensures
            text@ == self@,
            is_subscriber_name(self@),
    {
        proof {
            use_type_invariant(self);
        }
        self.name.as_str()
    }
}

/// Somebody who asked for the newsletter, with both fields checked.
#[derive(Debug)]
pub struct NewSubscriber {
    pub email: SubscriberEmail,
    pub name: SubscriberName,
}

/// What [`NewSubscriber::new`] answers for a name and an address.
pub open spec fn subscriber_check(name: Seq<char>, email: Seq<char>) -> Option<SubscriberError> {
    if !is_subscriber_name(name) {
        Some(SubscriberError::InvalidName)
    } else if !is_email_address(email) {
        Some(SubscriberError::InvalidEmail)
    } else {
        None
    }
}

impl NewSubscriber {
    /// Checks the name, then the address; the first that fails is reported.
    pub fn new(name: String, email: String) -> (made: Result<NewSubscriber, SubscriberError>)
        ensures
            match made {
                Ok(subscriber) => subscriber_check(name@, email@) is None && subscriber.name@
                    == name@ && subscriber.email@ == email@,
                Err(e) => subscriber_check(name@, email@) == Some(e),
            },
    {
        let name = match SubscriberName::parse(name) {
            Ok(name) => name,
            Err(e) => {
                return Err(e);
            },
        };
        let email = match SubscriberEmail::parse(email) {
            Ok(email) => email,
            Err(e) => {
                return Err(e);
            },
        };
        Ok(NewSubscriber { email, name })
    }

    /// Checks the two fields of a submitted form.
    pub fn try_from(value: FormData) -> (made: Result<NewSubscriber, SubscriberError>)
        ensures
            match made {
                Ok(subscriber) => subscriber_check(value.name@, value.email@) is None
                    && subscriber.name@ == value.name@ && subscriber.email@ == value.email@,
                Err(e) => subscriber_check(value.name@, value.email@) == Some(e),
            },
    {
        NewSubscriber::new(value.name, value.email)
    }
}

} // verus!
