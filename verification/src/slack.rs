//! The notification capability: a Slack incoming-webhook client. Building the
//! client and the payload is plain computation and lives here; actually
//! posting the payload is network I/O and is left to the binary, which calls
//! the client's blocking `send` itself.

use vstd::prelude::*;

use slack_hook::Payload;
use slack_hook::PayloadBuilder;
use slack_hook::blocking::Slack;

verus! {

#[verifier::external_type_specification]
#[verifier::external_body]
pub struct ExSlack(Slack);

#[verifier::external_type_specification]
#[verifier::external_body]
pub struct ExPayload(Payload);

/// What can go wrong around the notification capability.
#[derive(Debug)]
pub enum ErrorKind {
    /// The webhook client could not be constructed (the URL did not parse);
    /// carries the parse error's text.
    CreateSlackClientErr(String),
    /// A notification payload could not be built.
    CreateSlackPayloadErr,
    /// A built payload could not be delivered; carries the transport error's
    /// text.
    UnableToSendSlackMessage(String),
}

/// The configured notification endpoint: the webhook client plus the channel
/// and user name stamped on every payload.
pub struct SlackMessenger {
    pub slack: Slack,
    pub channel: String,
    pub username: String,
}

/// Whether `slack_hook::blocking::Slack::new` accepts the given text as a
/// webhook URL. It does exactly when the text parses as a URL with a host,
/// which depends on the text alone.
pub uninterp spec fn url_ok(s: Seq<char>) -> bool;

/// The payload `slack_hook::PayloadBuilder` assembles from a message text, a
/// channel and a user name. It is a function of the three alone.
pub uninterp spec fn payload_of(text: Seq<char>, channel: Seq<char>, username: Seq<char>) -> Payload;

/// Relies on `reqwest::blocking::ClientBuilder::build`, which hands back any
/// HTTP-client initialization failure as an error rather than panicking, and
/// on `slack_hook::blocking::Slack::new_with_client`, which returns `Err`
/// exactly when the URL does not parse (named `url_ok`). A good URL therefore
/// guarantees success only if the client could be initialized; a bad URL
/// always fails. Every error is handed back as its text.
#[verifier::external_body]
fn slack_client_new(url: &str) -> (r: Result<Slack, String>)
    ensures
        r is Ok ==> url_ok(url@),
        !url_ok(url@) ==> r is Err,
{
    let client = match reqwest::blocking::Client::builder().build() {
        Ok(c) => c,
        Err(e) => {
            return Err(format!("{}", e));
        },
    };
    match Slack::new_with_client(url, client) {
        Ok(s) => Ok(s),
        Err(e) => Err(format!("{}", e)),
    }
}

/// Relies on `slack_hook::PayloadBuilder`: `new` starts from an empty payload;
/// `text` records its argument with Slack's escaping of `&`, `<` and `>`;
/// `channel` and `username` record theirs as given; `build` hands the
/// accumulated payload back. None of these introduces an error, so the build
/// succeeds, and the result is a function of the three arguments alone
/// (named `payload_of`).
#[verifier::external_body]
fn build_payload(text: &str, channel: &str, username: &str) -> (r: Result<Payload, ()>)
    ensures
        r is Ok,
        r matches Ok(p) ==> p == payload_of(text@, channel@, username@),
{
    match PayloadBuilder::new().text(text).channel(channel).username(username).build() {
        Ok(p) => Ok(p),
        Err(_) => Err(()),
    }
}

/// Configure the notification endpoint. A URL the webhook client refuses
/// always fails; success presumes a parsable URL, and then the channel and
/// user name are carried unchanged. (Success is not owed on every good URL:
/// initializing the HTTP client itself can fail, and that failure comes back
/// as the same error kind.)
pub fn new(slack_url: &str, slack_channel: &str, slack_user: &str) -> (r: Result<
    SlackMessenger,
    ErrorKind,
>)
    ensures
        r is Ok ==> url_ok(slack_url@),
        !url_ok(slack_url@) ==> r is Err,
        r matches Ok(m) ==> m.channel@ == slack_channel@ && m.username@ == slack_user@,
        r matches Err(e) ==> e is CreateSlackClientErr,
{
    match slack_client_new(slack_url) {
        Ok(slack) => Ok(
            SlackMessenger {
                slack,
                channel: slack_channel.to_owned(),
                username: slack_user.to_owned(),
            },
        ),
        Err(e) => Err(ErrorKind::CreateSlackClientErr(e)),
    }
}

impl SlackMessenger {
    /// Build the notification payload for one message text. With this
    /// builder use, payload construction always succeeds, and the payload is
    /// determined by the text and the messenger's channel and user name
    /// alone: equal inputs give equal payloads.
    pub fn payload(&self, text: String) -> (r: Result<Payload, ErrorKind>)
        ensures
            r is Ok,
            r matches Ok(p) ==> p == payload_of(text@, self.channel@, self.username@),
    {
        match build_payload(text.as_str(), self.channel.as_str(), self.username.as_str()) {
            Ok(p) => Ok(p),
            Err(_) => Err(ErrorKind::CreateSlackPayloadErr),
        }
    }
}

} // verus!
