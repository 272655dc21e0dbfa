use crate::domain::is_email_address;
use crate::domain::SubscriberEmail;
use crate::secret::SecretText;
use vstd::prelude::*;

verus! {

/// Why a message could not be handed to the mail service.
#[derive(Clone, Copy, Debug, PartialEq, Eq, Structural)]
pub enum EmailError {
    /// The configured base URL is no URL, or `/email` cannot be joined to it.
    InvalidBaseUrl,
    /// The mail service answered with this error status.
    Rejected(u16),
}

/// The client of the outbound mail service: who sends, where to, with which
/// token, and how long one request may take. Building it contacts nobody.
#[derive(Debug)]
pub struct EmailClient {
    sender: SubscriberEmail,
    base_url: String,
    auth_token: SecretText,
    timeout_milliseconds: u64,
}

pub struct EmailClientState {
    pub sender: Seq<char>,
    pub base_url: Seq<char>,
    pub auth_token: Seq<char>,
    pub timeout_milliseconds: u64,
}

impl View for EmailClient {
    type V = EmailClientState;

    closed spec fn view(&self) -> EmailClientState {
        EmailClientState {
            sender: self.sender@,
            base_url: self.base_url@,
            auth_token: self.auth_token@,
            timeout_milliseconds: self.timeout_milliseconds,
        }
    }
}

/// One message, ready to be posted to the mail service.
#[derive(Debug)]
pub struct EmailRequest {
    /// Where to post.
    pub url: String,
    /// The value of the `Authorization` header.
    pub authorization: SecretText,
    pub from: String,
    pub to: String,
    pub subject: String,
    pub html: String,
    pub text: String,
    /// How long the request may take.
    pub timeout_milliseconds: u64,
}

pub struct EmailRequestView {
    pub url: Seq<char>,
    pub authorization: Seq<char>,
    pub from: Seq<char>,
    pub to: Seq<char>,
    pub subject: Seq<char>,
    pub html: Seq<char>,
    pub text: Seq<char>,
    pub timeout_milliseconds: u64,
}

impl View for EmailRequest {
    type V = EmailRequestView;

    open spec fn view(&self) -> EmailRequestView {
        EmailRequestView {
            url: self.url@,
            authorization: self.authorization@,
            from: self.from@,
            to: self.to@,
            subject: self.subject@,
            html: self.html@,
            text: self.text@,
            timeout_milliseconds: self.timeout_milliseconds,
        }
    }
}

/// What `Url::parse(base)` followed by `Url::join(path)` gives, as text;
/// `None` where either fails. It is a function of the two texts alone.
pub uninterp spec fn joined_url(base: Seq<char>, path: Seq<char>) -> Option<Seq<char>>;

/// `reqwest::Url::parse` on `base`, then `Url::join` with `path`, then the
/// URL's serialization: the result is [`joined_url`] of the two texts.
#[verifier::external_body]
fn join_url(base: &str, path: &str) -> (joined: Option<String>)
    ensures
        match joined {
            Some(url) => joined_url(base@, path@) == Some(url@),
            None => joined_url(base@, path@) is None,
        },
{
    match reqwest::Url::parse(base) {
        Ok(url) => match url.join(path) {
            Ok(joined) => Some(String::from(joined)),
            Err(_) => None,
        },
        Err(_) => None,
    }
}

/// The request that carries one message from `client` to `to`, posted to `url`.
pub open spec fn request_of(
    client: EmailClientState,
    url: Seq<char>,
    to: Seq<char>,
    subject: Seq<char>,
    html: Seq<char>,
    text: Seq<char>,
) -> EmailRequestView {
    EmailRequestView {
        url,
        authorization: "Bearer "@ + client.auth_token,
        from: client.sender,
        to,
        subject,
        html,
        text,
        timeout_milliseconds: client.timeout_milliseconds,
    }
}

/// How the answer of the mail service is judged: every status from 400 to
/// 599 is a failure, every other one a success.
pub open spec fn outcome_of(status: u16) -> Result<(), EmailError> {
    if 400 <= status && status < 600 {
        Err(EmailError::Rejected(status))
    } else {
        Ok(())
    }
}

impl EmailClient {
    /// Builds the client. Nothing is sent.
    pub fn new(
        sender: SubscriberEmail,
        base_url: String,
        auth_token: SecretText,
        timeout_milliseconds: u64,
    ) -> (client: EmailClient)
        ensures
            client@ == (EmailClientState {
                sender: sender@,
                base_url: base_url@,
                auth_token: auth_token@,
                timeout_milliseconds,
            }),
    {
        EmailClient { sender, base_url, auth_token, timeout_milliseconds }
    }

    /// The sender's address, which always has the shape of an address.
    pub fn sender(&self) -> (address: &str)
        ensures
            address@ == self@.sender,
            is_email_address(self@.sender),
    {
        self.sender.as_ref()
    }

    /// The base URL of the mail service.
    pub fn base_url(&self) -> (url: &str)
        ensures
            url@ == self@.base_url,
    {
        self.base_url.as_str()
    }

    /// How long one request may take, in milliseconds.
    pub fn timeout_milliseconds(&self) -> (timeout: u64)
        ensures
            timeout == self@.timeout_milliseconds,
    {
        self.timeout_milliseconds
    }

    /// The request for one message, given the URL to post it to. The token
    /// is exposed here and nowhere else, and leaves as a secret again.
    pub fn request_to(
        &self,
        url: String,
        recipient: SubscriberEmail,
        subject: &str,
        html_content: &str,
        text_content: &str,
    ) -> (request: EmailRequest)
        ensures
            request@ == request_of(
                self@,
                url@,
                recipient@,
                subject@,
                html_content@,
                text_content@,
            ),
    {
        let mut authorization = String::from_str("Bearer ");
        authorization.append(self.auth_token.expose().as_str());
        EmailRequest {
            url,
            authorization: SecretText::new(authorization),
            from: String::from_str(self.sender.as_ref()),
            to: String::from_str(recipient.as_ref()),
            subject: String::from_str(subject),
            html: String::from_str(html_content),
            text: String::from_str(text_content),
            timeout_milliseconds: self.timeout_milliseconds,
        }
    }

    /// Prepares one message for the mail service: it goes to `/email` under
    /// the base URL. What comes back is to be posted as it stands, and the
    /// answer judged by [`EmailClient::delivery_outcome`].
    pub fn send_email(
        &self,
        recipient: SubscriberEmail,
        subject: &str,
        html_content: &str,
        text_content: &str,
    ) -> (prepared: Result<EmailRequest, EmailError>)
        ensures
            match prepared {
                Ok(request) => joined_url(self@.base_url, "/email"@) == Some(request@.url)
                    && request@ == request_of(
                    self@,
                    request@.url,
                    recipient@,
                    subject@,
                    html_content@,
                    text_content@,
                ),
                Err(e) => joined_url(self@.base_url, "/email"@) is None && e
                    == EmailError::InvalidBaseUrl,
            },
    {
        match join_url(self.base_url.as_str(), "/email") {
            Some(url) => Ok(self.request_to(url, recipient, subject, html_content, text_content)),
            None => Err(EmailError::InvalidBaseUrl),
        }
    }

    /// Judges the status with which the mail service answered.
    pub fn delivery_outcome(status: u16) -> (outcome: Result<(), EmailError>)
        ensures
            outcome == outcome_of(status),
    {
        if 400 <= status && status < 600 {
            Err(EmailError::Rejected(status))
        } else {
            Ok(())
        }
    }
}

} // verus!
