//! The webhook gateway: one signed HTTP request in, one HTTP response out.
//! A request is let through to the router only if the platform signed it.

use crate::chance::Chance;
use crate::commands::utils::{error_reply, format_error, WENT_WRONG};
use crate::config::{key_of, ServerConf};
use crate::db::{Dao, StoreModel, Timestamp};
use crate::discord::{answers, pong, Handler};
use crate::interaction::{
    Interaction, InteractionView, MessageEdit, MessageEditView, Reply, ReplyView, Response,
};
use crate::platform::{
    check_signature, decode_event, decoded_event, encode_response, encoded_response, querified,
    query_pairs, signature_accepted,
};
use crate::signs::SignDataView;
use crate::text::{parse_u64, parsed_u64, same_text};
use vstd::prelude::*;
use vstd::string::{StringExecFns, StringSliceAdditionalSpecFns};
use vstd::utf8::is_ascii_chars;

verus! {

/// The header that carries the signature.
pub const SIGNATURE_HEADER: &'static str = "x-signature-ed25519";

/// The header that carries the timestamp that was signed with the body.
pub const TIMESTAMP_HEADER: &'static str = "x-signature-timestamp";

/// The path under which a guild asks for the commands to be registered.
pub const OAUTH_PATH: &'static str = "/oauth";

/// The parameter that names the guild.
pub const GUILD_PARAMETER: &'static str = "guild_id";

/// The content type of an encoded reply.
pub const JSON: &'static str = "application/json";

/// The page that confirms a registration.
pub const ADDED: &'static str = "Bot is added to server!";

/// A header of a request. Its value is `None` if it is no readable text.
#[derive(Debug, PartialEq, Eq)]
pub struct Header {
    pub name: String,
    pub value: Option<String>,
}

/// What a `Header` stands for.
pub struct HeaderView {
    pub name: Seq<char>,
    pub value: Option<Seq<char>>,
}

/// The characters of a text that may be absent.
pub open spec fn text_view(text: Option<String>) -> Option<Seq<char>> {
    match text {
        Some(t) => Some(t@),
        None => None,
    }
}

impl View for Header {
    type V = HeaderView;

    open spec fn view(&self) -> HeaderView {
        HeaderView { name: self.name@, value: text_view(self.value) }
    }
}

/// An inbound HTTP request, read to its end.
#[derive(Debug, PartialEq, Eq)]
pub struct Request {
    pub path: String,
    pub query: Option<String>,
    pub headers: Vec<Header>,
    pub body: Vec<u8>,
}

/// What a `Request` stands for.
pub struct RequestView {
    pub path: Seq<char>,
    pub query: Option<Seq<char>>,
    pub headers: Seq<HeaderView>,
    pub body: Seq<u8>,
}

impl View for Request {
    type V = RequestView;

    open spec fn view(&self) -> RequestView {
        RequestView {
            path: self.path@,
            query: text_view(self.query),
            headers: Seq::new(self.headers@.len(), |i: int| self.headers@[i]@),
            body: self.body@,
        }
    }
}

/// An HTTP response.
#[derive(Debug, PartialEq, Eq)]
pub struct HttpResponse {
    pub status: u16,
    pub content_type: Option<String>,
    pub body: Vec<u8>,
}

/// What an `HttpResponse` stands for.
pub struct HttpResponseView {
    pub status: u16,
    pub content_type: Option<Seq<char>>,
    pub body: Seq<u8>,
}

impl View for HttpResponse {
    type V = HttpResponseView;

    open spec fn view(&self) -> HttpResponseView {
        HttpResponseView {
            status: self.status,
            content_type: text_view(self.content_type),
            body: self.body@,
        }
    }
}

impl Clone for HttpResponse {
    fn clone(&self) -> (copy: HttpResponse)
        ensures
            copy@ == self@,
    {
        HttpResponse {
            status: self.status,
            content_type: match &self.content_type {
                Some(t) => Some(t.clone()),
                None => None,
            },
            body: self.body.clone(),
        }
    }
}

/// A response without a body.
pub open spec fn bare(status: u16) -> HttpResponseView {
    HttpResponseView { status, content_type: None, body: Seq::empty() }
}

/// A response that carries an encoded reply.
pub open spec fn json(body: Seq<u8>) -> HttpResponseView {
    HttpResponseView { status: 200, content_type: Some(JSON@), body }
}

/// What has to be done outside before the response is sent.
#[derive(Debug, PartialEq, Eq)]
pub enum Task {
    Nothing,
    /// Change the message that carried the control.
    EditMessage(MessageEdit),
    /// Register the commands with the guild.
    RegisterCommands { guild_id: u64 },
}

/// What a `Task` stands for.
pub enum TaskView {
    Nothing,
    EditMessage(MessageEditView),
    RegisterCommands { guild_id: u64 },
}

impl View for Task {
    type V = TaskView;

    open spec fn view(&self) -> TaskView {
        match *self {
            Task::Nothing => TaskView::Nothing,
            Task::EditMessage(edit) => TaskView::EditMessage(edit@),
            Task::RegisterCommands { guild_id } => TaskView::RegisterCommands { guild_id },
        }
    }
}

/// How a request is served: the task to carry out first, the response to
/// send once it is done, and the response to send if it fails.
#[derive(Debug, PartialEq, Eq)]
pub struct Served {
    pub task: Task,
    pub response: HttpResponse,
    pub if_task_fails: HttpResponse,
}

/// What a `Served` stands for.
pub struct ServedView {
    pub task: TaskView,
    pub response: HttpResponseView,
    pub if_task_fails: HttpResponseView,
}

impl View for Served {
    type V = ServedView;

    open spec fn view(&self) -> ServedView {
        ServedView {
            task: self.task@,
            response: self.response@,
            if_task_fails: self.if_task_fails@,
        }
    }
}

/// A response that waits for nothing.
pub open spec fn at_once(response: HttpResponseView) -> ServedView {
    ServedView { task: TaskView::Nothing, response, if_task_fails: response }
}

/// Why a request could not be served. Each of these is answered with
/// status 500 and no body.
#[derive(Clone, Copy, Debug, PartialEq, Eq, Structural)]
pub enum GatewayError {
    /// A required header is no readable text.
    UnreadableHeader,
    /// The body holds no event.
    MalformedEvent,
    /// The router gave no response to send.
    NoResponse,
    /// A response could not be written.
    Unencodable,
    /// The guild parameter is no number.
    BadGuildId,
    /// The present day could not be told.
    NoClock,
}

/// The view of what the gateway returns.
pub open spec fn served_view(served: Result<Served, GatewayError>) -> Result<ServedView, GatewayError> {
    match served {
        Ok(s) => Ok(s@),
        Err(e) => Err(e),
    }
}

/// A letter of the basic alphabet in lower case; any other character as it is.
pub open spec fn lower(c: char) -> char {
    if 'A' <= c <= 'Z' {
        ((c as u8) + 32) as char
    } else {
        c
    }
}

/// Whether a header name, whatever the case of its letters, is the name
/// `wanted`, which is written in lower case.
pub open spec fn header_named(name: Seq<char>, wanted: Seq<char>) -> bool {
    &&& is_ascii_chars(name)
    &&& name.len() == wanted.len()
    &&& forall|i: int| 0 <= i < name.len() ==> lower(#[trigger] name[i]) == wanted[i]
}

/// The first header of the given name.
pub open spec fn first_header(headers: Seq<HeaderView>, wanted: Seq<char>) -> Option<HeaderView>
    decreases headers.len(),
{
    if headers.len() == 0 {
        None
    } else if header_named(headers[0].name, wanted) {
        Some(headers[0])
    } else {
        first_header(headers.drop_first(), wanted)
    }
}

proof fn lemma_first_header_after(headers: Seq<HeaderView>, wanted: Seq<char>, skipped: int)
    requires
        0 <= skipped <= headers.len(),
        forall|j: int| 0 <= j < skipped ==> !header_named((#[trigger] headers[j]).name, wanted),
    ensures
        first_header(headers, wanted) == first_header(headers.skip(skipped), wanted),
    decreases skipped,
{
    if skipped == 0 {
        assert(headers.skip(0) =~= headers);
    } else {
        let rest = headers.drop_first();
        assert forall|j: int| 0 <= j < skipped - 1 implies !header_named(
            (#[trigger] rest[j]).name,
            wanted,
        ) by {
            assert(rest[j] == headers[j + 1]);
        }
        lemma_first_header_after(rest, wanted, skipped - 1);
        assert(rest.skip(skipped - 1) =~= headers.skip(skipped));
        assert(!header_named(headers[0].name, wanted));
    }
}

fn is_named(name: &str, wanted: &str) -> (named: bool)
    ensures
        named == header_named(name@, wanted@),
{
    if !name.is_ascii() {
        return false;
    }
    if !wanted.is_ascii() {
        proof {
            if header_named(name@, wanted@) {
                let i = choose|i: int|
                    0 <= i < wanted@.len() && !('\0' <= (#[trigger] wanted@[i]) <= '\u{7f}');
                assert('\0' <= name@[i] <= '\u{7f}');
                assert(lower(name@[i]) == wanted@[i]);
            }
        }
        return false;
    }
    let n = name.as_bytes().len();
    proof {
        vstd::string::is_ascii_spec_bytes(name);
        vstd::string::is_ascii_spec_bytes(wanted);
        assert(name.spec_bytes().len() == name@.len());
        assert(wanted.spec_bytes().len() == wanted@.len());
    }
    if n != wanted.as_bytes().len() {
        return false;
    }
    let mut i: usize = 0;
    while i < n
        invariant
            i <= n,
            n == name@.len(),
            n == wanted@.len(),
            name.is_ascii(),
            wanted.is_ascii(),
            forall|j: int| 0 <= j < i ==> lower(#[trigger] name@[j]) == wanted@[j],
        decreases n - i,
    {
        let b = name.get_ascii(i);
        let w = wanted.get_ascii(i);
        let lowered: u8 = if 65 <= b && b <= 90 {
            b + 32
        } else {
            b
        };
        proof {
            assert('\0' <= name@[i as int] <= '\u{7f}');
            assert('\0' <= wanted@[i as int] <= '\u{7f}');
            assert(b as char == name@[i as int]);
            assert(w as char == wanted@[i as int]);
            assert(lowered as char == lower(name@[i as int]));
        }
        if lowered != w {
            return false;
        }
        i = i + 1;
    }
    true
}

/// Finds the first header of the given name, which is written in lower case.
pub fn find_header<'a>(headers: &'a Vec<Header>, wanted: &str) -> (found: Option<&'a Header>)
    ensures
        (match found {
            Some(h) => Some(h@),
            None => None,
        }) == first_header(Seq::new(headers@.len(), |i: int| headers@[i]@), wanted@),
{
    let ghost views = Seq::new(headers@.len(), |i: int| headers@[i]@);
    let mut i: usize = 0;
    while i < headers.len()
        invariant
            i <= headers.len(),
            views == Seq::new(headers@.len(), |i: int| headers@[i]@),
            forall|j: int| 0 <= j < i ==> !header_named((#[trigger] views[j]).name, wanted@),
        decreases headers.len() - i,
    {
        if is_named(headers[i].name.as_str(), wanted) {
            proof {
                lemma_first_header_after(views, wanted@, i as int);
                assert(views.skip(i as int)[0] == views[i as int]);
            }
            return Some(&headers[i]);
        }
        i = i + 1;
    }
    proof {
        lemma_first_header_after(views, wanted@, i as int);
        assert(views.skip(i as int).len() == 0);
    }
    None
}

/// Whether a request is let through.
#[derive(Clone, Copy, Debug, PartialEq, Eq, Structural)]
pub enum Admission {
    /// The platform signed the request.
    Admitted,
    /// The request is answered with this status and goes no further.
    Refused(u16),
    /// A required header is there but cannot be read.
    Broken,
}

/// The decision on a request: without the signature or the timestamp it is
/// refused with 400; with both, it is let through if the key signed the
/// timestamp followed by the body, and refused with 403 if not. A header
/// that is there but cannot be read breaks the request.
pub open spec fn admission(key: Seq<u8>, request: RequestView) -> Admission {
    match (
        first_header(request.headers, SIGNATURE_HEADER@),
        first_header(request.headers, TIMESTAMP_HEADER@),
    ) {
        (Some(signature), Some(timestamp)) => match (signature.value, timestamp.value) {
            (Some(signature), Some(timestamp)) => if signature_accepted(
                key,
                signature,
                timestamp,
                request.body,
            ) {
                Admission::Admitted
            } else {
                Admission::Refused(403)
            },
            _ => Admission::Broken,
        },
        _ => Admission::Refused(400),
    }
}

/// Decides whether a request is let through.
pub fn decide_admission(key: &[u8; 32], request: &Request) -> (decision: Admission)
    ensures
        decision == admission(key@, request@),
{
    let signature = find_header(&request.headers, SIGNATURE_HEADER);
    let timestamp = find_header(&request.headers, TIMESTAMP_HEADER);
    let (signature, timestamp) = match (signature, timestamp) {
        (Some(signature), Some(timestamp)) => (signature, timestamp),
        _ => {
            return Admission::Refused(400);
        },
    };
    match (&signature.value, &timestamp.value) {
        (Some(signature), Some(timestamp)) => {
            if check_signature(key, signature.as_str(), timestamp.as_str(), request.body.as_slice()) {
                Admission::Admitted
            } else {
                Admission::Refused(403)
            }
        },
        _ => Admission::Broken,
    }
}

/// The event that reaches the router, if the request gets that far: it
/// does if it is not for the registration path, is let through, and holds
/// an event that is no ping.
pub open spec fn routed_event(key: Seq<u8>, request: RequestView) -> Option<InteractionView> {
    if request.path == OAUTH_PATH@ || admission(key, request) != Admission::Admitted {
        None
    } else {
        match decoded_event(request.body) {
            Some(event) => if event is Ping {
                None
            } else {
                Some(event)
            },
            None => None,
        }
    }
}

/// The value that a query gives a parameter: that of the last pair with its name.
pub open spec fn last_value(pairs: Seq<(Seq<char>, Seq<char>)>, name: Seq<char>) -> Option<Seq<char>>
    decreases pairs.len(),
{
    if pairs.len() == 0 {
        None
    } else if pairs.last().0 == name {
        Some(pairs.last().1)
    } else {
        last_value(pairs.drop_last(), name)
    }
}

proof fn lemma_last_value_before(pairs: Seq<(Seq<char>, Seq<char>)>, name: Seq<char>, kept: int)
    requires
        0 <= kept <= pairs.len(),
        forall|j: int| kept <= j < pairs.len() ==> (#[trigger] pairs[j]).0 != name,
    ensures
        last_value(pairs, name) == last_value(pairs.take(kept), name),
    decreases pairs.len() - kept,
{
    if kept == pairs.len() {
        assert(pairs.take(kept) =~= pairs);
    } else {
        let shorter = pairs.drop_last();
        assert(pairs.last() == pairs[pairs.len() - 1]);
        assert forall|j: int| kept <= j < shorter.len() implies (#[trigger] shorter[j]).0 != name by {
            assert(shorter[j] == pairs[j]);
        }
        lemma_last_value_before(shorter, name, kept);
        assert(shorter.take(kept) =~= pairs.take(kept));
    }
}

/// The plain page that confirms a registration.
pub open spec fn added_page() -> HttpResponseView {
    HttpResponseView { status: 200, content_type: None, body: ADDED@.map_values(|c: char| c as u8) }
}

/// How a request for the registration path is served: the page is sent at
/// once if the query names no guild; if it names one, the commands are
/// registered with it first; a guild that is no number is an error.
pub open spec fn registration(query: Option<Seq<char>>) -> Result<ServedView, GatewayError> {
    let pairs = querified(
        match query {
            Some(q) => q,
            None => Seq::empty(),
        },
    );
    match last_value(pairs, GUILD_PARAMETER@) {
        None => Ok(at_once(added_page())),
        Some(value) => match parsed_u64(value) {
            None => Err(GatewayError::BadGuildId),
            Some(guild_id) => Ok(
                ServedView {
                    task: TaskView::RegisterCommands { guild_id },
                    response: added_page(),
                    if_task_fails: bare(500),
                },
            ),
        },
    }
}

fn added() -> (page: HttpResponse)
    ensures
        page@ == added_page(),
{
    proof {
        reveal_strlit("Bot is added to server!");
        vstd::string::is_ascii_spec_bytes(ADDED);
    }
    let body = ADDED.as_bytes_vec();
    assert(body@ =~= ADDED@.map_values(|c: char| c as u8));
    HttpResponse { status: 200, content_type: None, body }
}

/// Serves a request for the registration path.
pub fn oauth(query: &Option<String>) -> (served: Result<Served, GatewayError>)
    ensures
        served_view(served) == registration(text_view(*query)),
{
    proof {
        reveal_strlit("");
        assert(""@ =~= Seq::<char>::empty());
    }
    let pairs = match query {
        Some(q) => query_pairs(q.as_str()),
        None => query_pairs(""),
    };
    let ghost named = querified(
        match text_view(*query) {
            Some(q) => q,
            None => Seq::empty(),
        },
    );
    let mut at: usize = pairs.len();
    while at > 0
        invariant
            at <= pairs.len(),
            pairs@.len() == named.len(),
            named == querified(
                match text_view(*query) {
                    Some(q) => q,
                    None => Seq::empty(),
                },
            ),
            forall|i: int|
                0 <= i < pairs@.len() ==> (#[trigger] pairs@[i]).0@ == named[i].0 && pairs@[i].1@
                    == named[i].1,
            forall|j: int| at <= j < named.len() ==> (#[trigger] named[j]).0 != GUILD_PARAMETER@,
        decreases at,
    {
        let ghost i = at - 1;
        assert(pairs@[i].0@ == named[i].0);
        if same_text(pairs[at - 1].0.as_str(), GUILD_PARAMETER) {
            proof {
                lemma_last_value_before(named, GUILD_PARAMETER@, at as int);
                assert(named.take(at as int).last() == named[i]);
            }
            return match parse_u64(pairs[at - 1].1.as_str()) {
                Some(guild_id) => Ok(
                    Served {
                        task: Task::RegisterCommands { guild_id },
                        response: added(),
                        if_task_fails: HttpResponse { status: 500, content_type: None, body: Vec::new() },
                    },
                ),
                None => Err(GatewayError::BadGuildId),
            };
        }
        at = at - 1;
    }
    proof {
        lemma_last_value_before(named, GUILD_PARAMETER@, 0);
        assert(named.take(0).len() == 0);
    }
    let page = added();
    Ok(Served { task: Task::Nothing, response: page.clone(), if_task_fails: page })
}

/// What the platform is sent for a reply of the router, and what has to
/// be done first. A reply with an edit waits for the edit, and holds ready
/// the plain error message in case it fails. Without a response to send,
/// or if one cannot be written, the request fails.
pub open spec fn reply_served(reply: ReplyView) -> Result<ServedView, GatewayError> {
    match reply.response {
        None => Err(GatewayError::NoResponse),
        Some(response) => match encoded_response(response) {
            None => Err(GatewayError::Unencodable),
            Some(bytes) => match reply.edit {
                None => Ok(at_once(json(bytes))),
                Some(edit) => match encoded_response(error_reply(WENT_WRONG@).response->0) {
                    None => Err(GatewayError::Unencodable),
                    Some(failure) => Ok(
                        ServedView {
                            task: TaskView::EditMessage(edit),
                            response: json(bytes),
                            if_task_fails: json(failure),
                        },
                    ),
                },
            },
        },
    }
}

fn json_response(body: Vec<u8>) -> (response: HttpResponse)
    ensures
        response@ == json(body@),
{
    HttpResponse { status: 200, content_type: Some(String::from_str(JSON)), body }
}

/// Turns a reply of the router into what is sent.
pub fn serve_reply(reply: Reply) -> (served: Result<Served, GatewayError>)
    ensures
        served_view(served) == reply_served(reply@),
{
    let response = match reply.response {
        Some(response) => response,
        None => {
            return Err(GatewayError::NoResponse);
        },
    };
    let bytes = match encode_response(&response) {
        Some(bytes) => bytes,
        None => {
            return Err(GatewayError::Unencodable);
        },
    };
    match reply.edit {
        None => {
            let sent = json_response(bytes);
            Ok(Served { task: Task::Nothing, response: sent.clone(), if_task_fails: sent })
        },
        Some(edit) => {
            let apology = format_error(WENT_WRONG);
            let failure = match apology.response {
                Some(r) => encode_response(&r),
                None => None,
            };
            match failure {
                Some(failure) => Ok(
                    Served {
                        task: Task::EditMessage(edit),
                        response: json_response(bytes),
                        if_task_fails: json_response(failure),
                    },
                ),
                None => Err(GatewayError::Unencodable),
            }
        },
    }
}

/// How a request is served, given the reply that the router gives if the
/// request reaches it.
///
/// A request for the registration path is served as `registration` says.
/// Any other request is refused unless `admission` lets it through. The
/// body of a request that is let through must hold an event; a ping is
/// answered at once with a pong, and any other event with the router's reply.
pub open spec fn gateway(key: Seq<u8>, request: RequestView, reply: ReplyView) -> Result<
    ServedView,
    GatewayError,
> {
    if request.path == OAUTH_PATH@ {
        registration(request.query)
    } else {
        match admission(key, request) {
            Admission::Refused(status) => Ok(at_once(bare(status))),
            Admission::Broken => Err(GatewayError::UnreadableHeader),
            Admission::Admitted => match decoded_event(request.body) {
                None => Err(GatewayError::MalformedEvent),
                Some(event) => if event is Ping {
                    reply_served(pong())
                } else {
                    reply_served(reply)
                },
            },
        }
    }
}

/// What goes out on the wire: the response that was worked out, or, for
/// every failure inside, status 500 without a body.
pub open spec fn wire(served: Result<ServedView, GatewayError>) -> ServedView {
    match served {
        Ok(s) => s,
        Err(_) => at_once(bare(500)),
    }
}

/// A request whose signature the key does not accept is refused with 403
/// and does not reach the router, whatever its body holds. So is every
/// request whose body was changed after it was signed, unless the
/// signature happens to fit the new body too.
pub proof fn law_unsigned_request_is_refused(
    key: Seq<u8>,
    request: RequestView,
    signature: Seq<char>,
    timestamp: Seq<char>,
    reply: ReplyView,
)
    requires
        request.path != OAUTH_PATH@,
        first_header(request.headers, SIGNATURE_HEADER@) matches Some(h) && h.value == Some(signature),
        first_header(request.headers, TIMESTAMP_HEADER@) matches Some(h) && h.value == Some(timestamp),
        !signature_accepted(key, signature, timestamp, request.body),
    ensures
        routed_event(key, request) is None,
        gateway(key, request, reply) == Ok::<ServedView, GatewayError>(at_once(bare(403))),
{
}

/// Whatever the request, the status on the wire is 200, 400, 403 or 500,
/// and only a response with status 200 has a body.
pub proof fn law_gateway_statuses(key: Seq<u8>, request: RequestView, reply: ReplyView)
    ensures
        ({
            let sent = wire(gateway(key, request, reply));
            &&& sent.response.status == 200 || sent.response == bare(400) || sent.response == bare(403)
                || sent.response == bare(500)
            &&& sent.if_task_fails.status == 200 || sent.if_task_fails == bare(400)
                || sent.if_task_fails == bare(403) || sent.if_task_fails == bare(500)
            &&& sent.task is Nothing ==> sent.if_task_fails == sent.response
        }),
{
}

/// The gateway: the router behind the platform's public key.
pub struct Server<D: Dao> {
    handler: Handler<D>,
    public_key: [u8; 32],
}

impl<D: Dao> Server<D> {
    /// The key whose signatures are accepted.
    pub closed spec fn key(&self) -> Seq<u8> {
        self.public_key@
    }

    /// What the store behind the router holds.
    pub closed spec fn store(&self) -> StoreModel {
        self.handler.store()
    }

    pub closed spec fn reliable(&self) -> bool {
        self.handler.reliable()
    }

    pub closed spec fn signs(&self) -> Map<Seq<char>, SignDataView> {
        self.handler.signs()
    }

    /// Puts the router behind the key of the configuration, if that is a key.
    pub fn new(handler: Handler<D>, config: &ServerConf) -> (server: Option<Server<D>>)
        ensures
            server is Some <==> key_of(config.key_text()) is Some,
            server matches Some(s) ==> {
                &&& Some(s.key()) == key_of(config.key_text())
                &&& s.store() == handler.store()
                &&& s.reliable() == handler.reliable()
                &&& s.signs() == handler.signs()
            },
    {
        match config.public_key() {
            Some(public_key) => Some(Server { handler, public_key }),
            None => None,
        }
    }

    pub fn handler(&self) -> (handler: &Handler<D>)
        ensures
            handler.store() == self.store(),
            handler.reliable() == self.reliable(),
            handler.signs() == self.signs(),
    {
        &self.handler
    }

    /// Serves one request with what chance and the clock have given. The
    /// clock is looked at only when an event reaches the router.
    fn serve(&mut self, request: &Request, chance: &Chance, clock: Option<Timestamp>) -> (served: Result<
        Served,
        GatewayError,
    >)
        ensures
            final(self).key() == old(self).key(),
            final(self).signs() == old(self).signs(),
            final(self).reliable() == old(self).reliable(),
            match (routed_event(old(self).key(), request@), clock) {
                (None, _) => final(self).store() == old(self).store() && served_view(served)
                    == gateway(old(self).key(), request@, pong()),
                (Some(_), None) => final(self).store() == old(self).store() && served == Err::<
                    Served,
                    _,
                >(GatewayError::NoClock),
                (Some(event), Some(now)) => exists|reply: ReplyView|
                    #![trigger gateway(old(self).key(), request@, reply)]
                    answers(
                        old(self).store(),
                        old(self).reliable(),
                        old(self).signs(),
                        event,
                        *chance,
                        now,
                        final(self).store(),
                        reply,
                    ) && served_view(served) == gateway(old(self).key(), request@, reply),
            },
    {
        if same_text(request.path.as_str(), OAUTH_PATH) {
            return oauth(&request.query);
        }
        match decide_admission(&self.public_key, request) {
            Admission::Admitted => {},
            Admission::Refused(status) => {
                let refusal = HttpResponse { status, content_type: None, body: Vec::new() };
                return Ok(
                    Served { task: Task::Nothing, response: refusal.clone(), if_task_fails: refusal },
                );
            },
            Admission::Broken => {
                return Err(GatewayError::UnreadableHeader);
            },
        }
        let event = match decode_event(request.body.as_slice()) {
            Some(event) => event,
            None => {
                return Err(GatewayError::MalformedEvent);
            },
        };
        match event {
            Interaction::Ping => serve_reply(Reply { response: Some(Response::Pong), edit: None }),
            _ => {
                let now = match clock {
                    Some(now) => now,
                    None => {
                        return Err(GatewayError::NoClock);
                    },
                };
                let reply = self.handler.handle_with(&event, chance, now);
                let ghost routed = reply@;
                let served = serve_reply(reply);
                assert(served_view(served) == gateway(old(self).key(), request@, routed));
                served
            },
        }
    }

    /// Serves one request at the moment `now`, with the dice as they have
    /// fallen.
    ///
    /// A request that does not reach the router leaves the store as it is
    /// and is served as `gateway` says. A request that reaches it is handled
    /// in one of the ways that `answers` allows, and served as `gateway`
    /// says for the reply that came of it.
    pub fn handle_impl(&mut self, request: &Request, chance: &Chance, now: Timestamp) -> (served: Result<
        Served,
        GatewayError,
    >)
        ensures
            final(self).key() == old(self).key(),
            final(self).signs() == old(self).signs(),
            final(self).reliable() == old(self).reliable(),
            match routed_event(old(self).key(), request@) {
                None => final(self).store() == old(self).store() && served_view(served) == gateway(
                    old(self).key(),
                    request@,
                    pong(),
                ),
                Some(event) => exists|reply: ReplyView|
                    #![trigger gateway(old(self).key(), request@, reply)]
                    answers(
                        old(self).store(),
                        old(self).reliable(),
                        old(self).signs(),
                        event,
                        *chance,
                        now,
                        final(self).store(),
                        reply,
                    ) && served_view(served) == gateway(old(self).key(), request@, reply),
            },
    {
        self.serve(request, chance, Some(now))
    }

    /// Serves one request: rolls the dice, reads the clock, and answers
    /// every failure inside with status 500.
    ///
    /// A request that does not reach the router leaves the store as it is
    /// and is answered as `gateway` says. A request that reaches it is
    /// answered with status 500 if the present day cannot be told;
    /// otherwise it is handled, with fair dice and at a moment whose day
    /// fits its seconds, in one of the ways that `answers` allows, and
    /// answered as `gateway` says for the reply that came of it.
    pub fn handle(&mut self, request: &Request) -> (served: Served)
        ensures
            final(self).key() == old(self).key(),
            final(self).signs() == old(self).signs(),
            final(self).reliable() == old(self).reliable(),
            match routed_event(old(self).key(), request@) {
                None => final(self).store() == old(self).store() && served@ == wire(
                    gateway(old(self).key(), request@, pong()),
                ),
                Some(event) => served@ == at_once(bare(500)) && final(self).store() == old(
                    self,
                ).store() || exists|reply: ReplyView, chance: Chance, now: Timestamp|
                    #![trigger gateway(old(self).key(), request@, reply), answers(old(self).store(), old(self).reliable(), old(self).signs(), event, chance, now, final(self).store(), reply)]
                    chance.fair() && now.plausible() && answers(
                        old(self).store(),
                        old(self).reliable(),
                        old(self).signs(),
                        event,
                        chance,
                        now,
                        final(self).store(),
                        reply,
                    ) && served@ == wire(gateway(old(self).key(), request@, reply)),
            },
    {
        let clock = Timestamp::now();
        let chance = Chance::draw();
        match self.serve(request, &chance, clock) {
            Ok(served) => served,
            Err(_) => {
                let failure = HttpResponse { status: 500, content_type: None, body: Vec::new() };
                Served { task: Task::Nothing, response: failure.clone(), if_task_fails: failure }
            },
        }
    }
}

} // verus!
