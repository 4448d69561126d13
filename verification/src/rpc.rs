//! JSON-RPC request building and the two-state session with the
//! timetable service, plus the messaging-bot request.
//!
//! The library only builds the requests; an unverified shell performs
//! the HTTP POSTs and hands the response bodies back.

use vstd::prelude::*;
use vstd::string::StringExecFns;
use crate::text::{json_quoted, json_string};

verus! {

/// The base URL of the timetable service for a tenant subdomain and a
/// school identifier.
pub open spec fn base_url_seq(base: Seq<char>, school: Seq<char>) -> Seq<char> {
    "https://"@ + base + ".webuntis.com/WebUntis/jsonrpc.do?school="@ + school
}

/// A JSON-RPC 2.0 envelope around a method name and its params document.
/// The method name is written verbatim; callers pass fixed method names.
pub open spec fn rpc_envelope_seq(method: Seq<char>, params: Seq<char>) -> Seq<char> {
    "{\"id\":\"ID\",\"method\":\""@ + method + "\",\"params\":"@ + params + ",\"jsonrpc\":\"2.0\"}"@
}

/// The params document of the authenticate call.
pub open spec fn auth_params_seq(user: Seq<char>, password: Seq<char>) -> Seq<char> {
    "{\"user\":"@ + json_string(user) + ",\"password\":"@ + json_string(password)
        + ",\"client\":\"CLIENT\"}"@
}

/// The params document of the timetable call: the class id, the fixed
/// element type 1, and the date range as YYYYMMDD strings.
pub open spec fn timetable_params_seq(
    class_id: Seq<char>,
    startdate: Seq<char>,
    enddate: Seq<char>,
) -> Seq<char> {
    "{\"id\":"@ + json_string(class_id) + ",\"type\":1,\"startDate\":"@ + json_string(startdate)
        + ",\"endDate\":"@ + json_string(enddate) + "}"@
}

/// The value of the session cookie header on authenticated calls.
pub open spec fn cookie_header_seq(token: Seq<char>) -> Seq<char> {
    "JSESSIONID="@ + token
}

pub fn rpc_envelope(method: &str, params: &str) -> (r: String)
    ensures
        r@ == rpc_envelope_seq(method@, params@),
{
    let mut out = String::from_str("{\"id\":\"ID\",\"method\":\"");
    out.append(method);
    out.append("\",\"params\":");
    out.append(params);
    out.append(",\"jsonrpc\":\"2.0\"}");
    proof {
        assert(out@ =~= rpc_envelope_seq(method@, params@));
    }
    out
}

/// One HTTP POST for the shell to perform: where to send it, the JSON
/// body, and the session cookie header value if the call needs one.
pub struct RpcRequest {
    pub url: String,
    pub body: String,
    pub cookie_header: Option<String>,
}

/// Raised when a call that needs a session token is built before
/// authentication has produced one.
#[derive(Clone, Copy, Debug, PartialEq, Eq, Structural)]
pub enum SessionFault {
    NotAuthenticated,
}

/// A session with the timetable service. The session token starts out
/// absent and is set once authentication has succeeded; the calls that
/// need the token refuse to be built without it.
pub struct Untis {
    pub username: String,
    pub password: String,
    pub class_id: String,
    pub base_url: String,
    pub cookie: Option<String>,
}

impl Untis {
    /// Whether authentication has stored a session token.
    pub open spec fn authenticated(self) -> bool {
        self.cookie is Some
    }

    /// The stored session token.
    pub open spec fn spec_token(self) -> Seq<char> {
        self.cookie->0@
    }

    pub fn new(
        base: String,
        school: String,
        username: String,
        password: String,
        class_id: String,
    ) -> (u: Untis)
        ensures
            u.username == username,
            u.password == password,
            u.class_id == class_id,
            u.base_url@ == base_url_seq(base@, school@),
            !u.authenticated(),
    {
        let mut base_url = String::from_str("https://");
        base_url.append(base.as_str());
        base_url.append(".webuntis.com/WebUntis/jsonrpc.do?school=");
        base_url.append(school.as_str());
        proof {
            assert(base_url@ =~= base_url_seq(base@, school@));
        }
        Untis { username, password, class_id, base_url, cookie: None }
    }

    /// The authenticate call. It carries no cookie: it is what obtains
    /// the session token.
    pub fn authenticate_request(&self) -> (r: RpcRequest)
        ensures
            r.url@ == self.base_url@,
            r.body@ == rpc_envelope_seq("authenticate"@, auth_params_seq(self.username@, self.password@)),
            r.cookie_header is None,
    {
        let mut params = String::from_str("{\"user\":");
        let quoted_user = json_quoted(self.username.as_str());
        params.append(quoted_user.as_str());
        params.append(",\"password\":");
        let quoted_password = json_quoted(self.password.as_str());
        params.append(quoted_password.as_str());
        params.append(",\"client\":\"CLIENT\"}");
        proof {
            assert(params@ =~= auth_params_seq(self.username@, self.password@));
        }
        let body = rpc_envelope("authenticate", params.as_str());
        RpcRequest { url: self.base_url.clone(), body, cookie_header: None }
    }

    /// Stores the session token that the authenticate response carried.
    pub fn accept_session(&mut self, session_id: String)
        ensures
            final(self).authenticated(),
            final(self).cookie == Some(session_id),
            final(self).username == old(self).username,
            final(self).password == old(self).password,
            final(self).class_id == old(self).class_id,
            final(self).base_url == old(self).base_url,
    {
        self.cookie = Some(session_id);
    }

    /// The value of the cookie header for the stored token.
    fn cookie_header(&self) -> (r: String)
        requires
            self.authenticated(),
        ensures
            r@ == cookie_header_seq(self.spec_token()),
    {
        let mut header = String::from_str("JSESSIONID=");
        match &self.cookie {
            Some(token) => {
                header.append(token.as_str());
            },
            None => {},
        }
        header
    }

    /// The subjects call. Built only on an authenticated session.
    pub fn subjects_request(&self) -> (r: Result<RpcRequest, SessionFault>)
        ensures
            r is Ok <==> self.authenticated(),
            r matches Ok(q) ==> q.url@ == self.base_url@ && q.body@ == rpc_envelope_seq(
                "getSubjects"@,
                "{}"@,
            ) && (q.cookie_header matches Some(c) && c@ == cookie_header_seq(self.spec_token())),
            r matches Err(f) ==> f == SessionFault::NotAuthenticated,
    {
        if self.cookie.is_none() {
            return Err(SessionFault::NotAuthenticated);
        }
        let body = rpc_envelope("getSubjects", "{}");
        Ok(RpcRequest {
            url: self.base_url.clone(),
            body,
            cookie_header: Some(self.cookie_header()),
        })
    }

    /// The timetable call for a date range, dates as YYYYMMDD strings.
    /// Built only on an authenticated session.
    pub fn timetable_request(&self, startdate: &str, enddate: &str) -> (r: Result<
        RpcRequest,
        SessionFault,
    >)
        ensures
            r is Ok <==> self.authenticated(),
            r matches Ok(q) ==> q.url@ == self.base_url@ && q.body@ == rpc_envelope_seq(
                "getTimetable"@,
                timetable_params_seq(self.class_id@, startdate@, enddate@),
            ) && (q.cookie_header matches Some(c) && c@ == cookie_header_seq(self.spec_token())),
            r matches Err(f) ==> f == SessionFault::NotAuthenticated,
    {
        if self.cookie.is_none() {
            return Err(SessionFault::NotAuthenticated);
        }
        let mut params = String::from_str("{\"id\":");
        let quoted_class = json_quoted(self.class_id.as_str());
        params.append(quoted_class.as_str());
        params.append(",\"type\":1,\"startDate\":");
        let quoted_start = json_quoted(startdate);
        params.append(quoted_start.as_str());
        params.append(",\"endDate\":");
        let quoted_end = json_quoted(enddate);
        params.append(quoted_end.as_str());
        params.append("}");
        proof {
            assert(params@ =~= timetable_params_seq(self.class_id@, startdate@, enddate@));
        }
        let body = rpc_envelope("getTimetable", params.as_str());
        Ok(RpcRequest {
            url: self.base_url.clone(),
            body,
            cookie_header: Some(self.cookie_header()),
        })
    }

    /// The logout call. Built only on an authenticated session; whether
    /// the service honours it is advisory and never fatal.
    pub fn logout_request(&self) -> (r: Result<RpcRequest, SessionFault>)
        ensures
            r is Ok <==> self.authenticated(),
            r matches Ok(q) ==> q.url@ == self.base_url@ && q.body@ == rpc_envelope_seq(
                "logout"@,
                "{}"@,
            ) && (q.cookie_header matches Some(c) && c@ == cookie_header_seq(self.spec_token())),
            r matches Err(f) ==> f == SessionFault::NotAuthenticated,
    {
        if self.cookie.is_none() {
            return Err(SessionFault::NotAuthenticated);
        }
        let body = rpc_envelope("logout", "{}");
        Ok(RpcRequest {
            url: self.base_url.clone(),
            body,
            cookie_header: Some(self.cookie_header()),
        })
    }
}

/// The messaging bot's send endpoint for a bot token.
pub open spec fn bot_send_url_seq(bot_token: Seq<char>) -> Seq<char> {
    "https://api.telegram.org/bot"@ + bot_token + "/sendMessage"@
}

/// The JSON body of the send call: the chat id and the message text.
pub open spec fn bot_send_body_seq(chat_id: Seq<char>, text: Seq<char>) -> Seq<char> {
    "{\"chat_id\":"@ + json_string(chat_id) + ",\"text\":"@ + json_string(text) + "}"@
}

pub fn bot_send_url(bot_token: &str) -> (r: String)
    ensures
        r@ == bot_send_url_seq(bot_token@),
{
    let mut out = String::from_str("https://api.telegram.org/bot");
    out.append(bot_token);
    out.append("/sendMessage");
    proof {
        assert(out@ =~= bot_send_url_seq(bot_token@));
    }
    out
}

pub fn bot_send_body(chat_id: &str, text: &str) -> (r: String)
    ensures
        r@ == bot_send_body_seq(chat_id@, text@),
{
    let mut out = String::from_str("{\"chat_id\":");
    let quoted_chat = json_quoted(chat_id);
    out.append(quoted_chat.as_str());
    out.append(",\"text\":");
    let quoted_text = json_quoted(text);
    out.append(quoted_text.as_str());
    out.append("}");
    proof {
        assert(out@ =~= bot_send_body_seq(chat_id@, text@));
    }
    out
}

} // verus!
