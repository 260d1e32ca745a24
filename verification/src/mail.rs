//! Sending e-mail through the provider's SMTP relay with an OAuth2 access
//! token, and keeping that token fresh.

use vstd::prelude::*;
use vstd::string::*;
use crate::http::{
    STATUS_BAD_GATEWAY, STATUS_INTERNAL_SERVER_ERROR, STATUS_OK, all_ws, json_plain_text, json_string_object,
    lemma_skip_ws_prefix, lemma_string_rest, member_value, read_members, skip_ws,
};
use crate::model::opt_view;
use crate::responses::{
    Body, EmailSendError, EmailSendRequest, EmailSentResponse, Guard, Reply, generic_error_reply,
    is_generic_error,
};

verus! {

/// Seconds that an access token is kept in the cache.
pub const ACCESS_TOKEN_CACHE_SECONDS: u64 = 3598;

/// Seconds that a refresh token is kept in the cache.
pub const REFRESH_TOKEN_CACHE_SECONDS: u64 = 60000;

/// The name of an attachment: the uploaded file's name, or `anexo`.
pub fn attachment_file_name(file_name: &Option<String>) -> (res: String)
    ensures
        res@ == match opt_view(*file_name) {
            Some(n) => n,
            None => "anexo"@,
        },
{
    match file_name {
        Some(n) => n.clone(),
        None => String::from_str("anexo"),
    }
}

/// The name of the attachment made of an upload with name `file_name`.
pub open spec fn attachment_name_of(file_name: Option<String>) -> Seq<char> {
    match opt_view(file_name) {
        Some(n) => n,
        None => "anexo"@,
    }
}

/// The names of the attachments of an e-mail, one per uploaded file and in
/// the order of the uploads.
pub fn attachment_names(file_names: &Vec<Option<String>>) -> (res: Vec<String>)
    ensures
        res.len() == file_names.len(),
        forall|i: int| 0 <= i < res.len() ==> #[trigger] res[i]@ == attachment_name_of(file_names[i]),
{
    let mut names: Vec<String> = Vec::new();
    let mut i: usize = 0;
    while i < file_names.len()
        invariant
            i <= file_names.len(),
            names.len() == i,
            forall|j: int| 0 <= j < i ==> #[trigger] names[j]@ == attachment_name_of(file_names[j]),
        decreases file_names.len() - i,
    {
        let name = attachment_file_name(&file_names[i]);
        names.push(name);
        i = i + 1;
    }
    names
}

/// The `500` reply when no access token could be had.
pub fn oauth_refresh_failed_reply() -> (res: Reply)
    ensures
        is_generic_error(
            res,
            STATUS_INTERNAL_SERVER_ERROR,
            "Error refreshing OAuth2 token!"@,
            "You have to regenerate OAuth2 code!"@,
        ),
{
    generic_error_reply(
        STATUS_INTERNAL_SERVER_ERROR,
        "Error refreshing OAuth2 token!",
        "You have to regenerate OAuth2 code!",
    )
}

/// The reply once the relay answered: the e-mail sent, or `502` with the
/// relay's error text.
pub fn email_send_reply(title: &str, content: &str, to: &str, result: Result<(), String>) -> (res: Reply)
    ensures
        res.guard == Guard::Untouched,
        match result {
            Ok(()) => res.status == STATUS_OK && (match res.body {
                Body::EmailSent(b) => b.message@ == "Email sent successfully!"@ && b.email.title@ == title@
                    && b.email.content@ == content@ && b.email.to@ == to@,
                _ => false,
            }),
            Err(e) => res.status == STATUS_BAD_GATEWAY && (match res.body {
                Body::EmailFailed(b) => b.message@ == "Error sending email!"@ && b.error@ == e@,
                _ => false,
            }),
        },
{
    match result {
        Ok(()) => Reply {
            status: STATUS_OK,
            body: Body::EmailSent(
                EmailSentResponse {
                    message: String::from_str("Email sent successfully!"),
                    email: EmailSendRequest {
                        title: String::from_str(title),
                        content: String::from_str(content),
                        to: String::from_str(to),
                    },
                },
            ),
            guard: Guard::Untouched,
        },
        Err(error) => Reply {
            status: STATUS_BAD_GATEWAY,
            body: Body::EmailFailed(
                EmailSendError { message: String::from_str("Error sending email!"), error },
            ),
            guard: Guard::Untouched,
        },
    }
}

/// The query string of the provider's redirect after consent.
pub struct SetRefreshTokenRequest {
    pub state: String,
    pub code: String,
    pub scope: String,
}

/// The provider's answer to an authorization code.
pub struct SetRefreshTokenResponse {
    pub access_token: String,
    pub expires_in: u64,
    pub refresh_token: String,
    pub scope: String,
    pub token_type: String,
    pub refresh_token_expires_in: u64,
}

/// The provider's answer to a refresh token.
pub struct RefreshTokenResponse {
    pub access_token: String,
    pub expires_in: u64,
    pub scope: String,
    pub token_type: String,
    pub refresh_token_expires_in: u64,
}

/// A line `        "key": "value",` of a token request, with or without the
/// trailing comma.
pub open spec fn json_line(key: Seq<char>, value: Seq<char>, comma: bool) -> Seq<char> {
    "        \""@ + key + "\": \""@ + value + (if comma {
        "\",\n"@
    } else {
        "\"\n"@
    })
}

/// The text of the request that trades a refresh token for an access token.
pub open spec fn refresh_request_text(
    client_id: Seq<char>,
    client_secret: Seq<char>,
    refresh_token: Seq<char>,
    redirect_uri: Seq<char>,
) -> Seq<char> {
    "{\n"@ + json_line("client_id"@, client_id, true) + json_line(
        "client_secret"@,
        client_secret,
        true,
    ) + json_line("refresh_token"@, refresh_token, true) + json_line(
        "redirect_uri"@,
        redirect_uri,
        true,
    ) + json_line("grant_type"@, "refresh_token"@, false) + "    }"@
}

/// The text of the request that trades an authorization code for tokens.
pub open spec fn code_request_text(
    code: Seq<char>,
    client_id: Seq<char>,
    client_secret: Seq<char>,
    redirect_uri: Seq<char>,
) -> Seq<char> {
    "{\n"@ + json_line("code"@, code, true) + json_line("client_id"@, client_id, true) + json_line(
        "client_secret"@,
        client_secret,
        true,
    ) + json_line("redirect_uri"@, redirect_uri, true) + json_line(
        "grant_type"@,
        "authorization_code"@,
        false,
    ) + "    }"@
}

fn push_line(text: &mut String, key: &str, value: &str, comma: bool)
    ensures
        final(text)@ == old(text)@ + json_line(key@, value@, comma),
{
    text.append("        \"");
    text.append(key);
    text.append("\": \"");
    text.append(value);
    if comma {
        text.append("\",\n");
    } else {
        text.append("\"\n");
    }
}

/// Writes the request that trades a refresh token for an access token.
pub fn refresh_request_body(client_id: &str, client_secret: &str, refresh_token: &str, redirect_uri: &str) -> (res: String)
    ensures
        res@ == refresh_request_text(client_id@, client_secret@, refresh_token@, redirect_uri@),
{
    let mut text = String::from_str("{\n");
    push_line(&mut text, "client_id", client_id, true);
    push_line(&mut text, "client_secret", client_secret, true);
    push_line(&mut text, "refresh_token", refresh_token, true);
    push_line(&mut text, "redirect_uri", redirect_uri, true);
    push_line(&mut text, "grant_type", "refresh_token", false);
    text.append("    }");
    text
}

/// Writes the request that trades an authorization code for tokens.
pub fn code_request_body(code: &str, client_id: &str, client_secret: &str, redirect_uri: &str) -> (res: String)
    ensures
        res@ == code_request_text(code@, client_id@, client_secret@, redirect_uri@),
{
    let mut text = String::from_str("{\n");
    push_line(&mut text, "code", code, true);
    push_line(&mut text, "client_id", client_id, true);
    push_line(&mut text, "client_secret", client_secret, true);
    push_line(&mut text, "redirect_uri", redirect_uri, true);
    push_line(&mut text, "grant_type", "authorization_code", false);
    text.append("    }");
    text
}

/// The refresh token to send to the provider, given what the cache holds
/// (`None` when it holds none or could not be read): without one the
/// refresh gives up with the status `500`.
pub fn cached_refresh_token(cached: Option<String>) -> (res: Result<String, u16>)
    ensures
        match cached {
            Some(t) => res matches Ok(r) && r@ == t@,
            None => res == Err::<String, u16>(STATUS_INTERNAL_SERVER_ERROR),
        },
{
    match cached {
        Some(t) => Ok(t),
        None => Err(STATUS_INTERNAL_SERVER_ERROR),
    }
}

/// The outcome of a refresh, given the provider's answer as read (`None`
/// when it could not be read): the access token, or the status `500`.
pub fn refresh_outcome(answer: Option<RefreshTokenResponse>) -> (res: Result<String, u16>)
    ensures
        match answer {
            Some(a) => res matches Ok(t) && t@ == a.access_token@,
            None => res == Err::<String, u16>(STATUS_INTERNAL_SERVER_ERROR),
        },
{
    match answer {
        Some(a) => Ok(a.access_token),
        None => Err(STATUS_INTERNAL_SERVER_ERROR),
    }
}

/// The reply to the provider's redirect, given the status of its answer to
/// the code: `200` with a note when the tokens came (the refresh token is
/// then kept); otherwise `500`, counted against the sender when the
/// provider refused the request (a `4xx` status).
pub fn authorization_code_reply(status: u16) -> (res: Reply)
    ensures
        status == 200 ==> res.status == STATUS_OK && res.guard == Guard::Untouched && (match res.body {
            Body::Text(t) => t@ == "OAuth2 Google token updated! You can close this window and return to the app."@,
            _ => false,
        }),
        status != 200 ==> res.status == STATUS_INTERNAL_SERVER_ERROR && (match res.body {
            Body::Error(e) => e.message@ == "Error trying refreshing OAuth2 Google token!"@ && e.error@
                == "Internal server error raised"@,
            _ => false,
        }) && res.guard == (if 400 <= status < 500 {
            Guard::Counted(None)
        } else {
            Guard::Untouched
        }),
{
    if status == 200 {
        Reply {
            status: STATUS_OK,
            body: Body::Text(
                String::from_str(
                    "OAuth2 Google token updated! You can close this window and return to the app.",
                ),
            ),
            guard: Guard::Untouched,
        }
    } else {
        let mut reply = generic_error_reply(
            STATUS_INTERNAL_SERVER_ERROR,
            "Error trying refreshing OAuth2 Google token!",
            "Internal server error raised",
        );
        if 400 <= status && status < 500 {
            reply.guard = Guard::Counted(None);
        }
        reply
    }
}

/// The lines of the members `ms` as the token requests write them, each but
/// the last followed by a comma.
pub open spec fn member_lines(ms: Seq<(Seq<char>, Seq<char>)>) -> Seq<char>
    decreases ms.len(),
{
    if ms.len() == 0 {
        Seq::empty()
    } else if ms.len() == 1 {
        json_line(ms[0].0, ms[0].1, false)
    } else {
        json_line(ms[0].0, ms[0].1, true) + member_lines(ms.skip(1))
    }
}

/// Names and values that may all stand unescaped in JSON strings.
pub open spec fn plain_members(ms: Seq<(Seq<char>, Seq<char>)>) -> bool {
    forall|i: int| 0 <= i < ms.len() ==> json_plain_text(#[trigger] ms[i].0) && json_plain_text(ms[i].1)
}

/// Lines written for plain members, then the closing brace, read back as
/// those members.
proof fn lemma_read_member_lines(w: Seq<char>, ms: Seq<(Seq<char>, Seq<char>)>, fuel: nat)
    requires
        all_ws(w),
        ms.len() >= 1,
        fuel >= ms.len(),
        plain_members(ms),
    ensures
        read_members(w + member_lines(ms) + "    }"@, fuel) == Some(ms),
    decreases ms.len(),
{
    reveal_strlit("        \"");
    reveal_strlit("\": \"");
    reveal_strlit("\",\n");
    reveal_strlit("\"\n");
    reveal_strlit("    }");
    let k = ms[0].0;
    let v = ms[0].1;
    assert(json_plain_text(k) && json_plain_text(v));
    let last = ms.len() == 1;
    let close: Seq<char> = "    }"@;
    let rest: Seq<char> = if last {
        close
    } else {
        member_lines(ms.skip(1)) + close
    };
    let tail: Seq<char> = if last {
        seq!['\n']
    } else {
        seq![',', '\n']
    };
    let t = w + member_lines(ms) + close;
    let sp8: Seq<char> = seq![' ', ' ', ' ', ' ', ' ', ' ', ' ', ' '];
    let after_v = seq!['"'] + tail + rest;
    let r1 = seq![':', ' ', '"'] + v + after_v;
    assert(t =~= (w + sp8) + (seq!['"'] + (k + seq!['"'] + r1)));
    assert(all_ws(w + sp8));
    lemma_skip_ws_prefix(w + sp8, seq!['"'] + (k + seq!['"'] + r1));
    assert((seq!['"'] + (k + seq!['"'] + r1)).skip(1) =~= k + seq!['"'] + r1);
    lemma_string_rest(k, r1);
    assert(skip_ws(r1) == r1);
    let r2 = r1.skip(1);
    assert(r2 =~= seq![' '] + (seq!['"'] + (v + after_v)));
    assert(all_ws(seq![' ']));
    lemma_skip_ws_prefix(seq![' '], seq!['"'] + (v + after_v));
    assert((seq!['"'] + (v + after_v)).skip(1) =~= v + seq!['"'] + (tail + rest));
    lemma_string_rest(v, tail + rest);
    let r3 = tail + rest;
    if last {
        assert(r3 =~= seq!['\n', ' ', ' ', ' ', ' '] + seq!['}']);
        assert(all_ws(seq!['\n', ' ', ' ', ' ', ' ']));
        lemma_skip_ws_prefix(seq!['\n', ' ', ' ', ' ', ' '], seq!['}']);
        assert(skip_ws(seq!['}']) == seq!['}']);
        assert(seq!['}'].skip(1) =~= Seq::<char>::empty());
        assert(seq![(k, v)] =~= ms);
    } else {
        assert(skip_ws(r3) == r3);
        let r4 = r3.skip(1);
        assert(r4 =~= seq!['\n'] + member_lines(ms.skip(1)) + close);
        assert(all_ws(seq!['\n']));
        assert(plain_members(ms.skip(1))) by {
            assert forall|i: int| 0 <= i < ms.skip(1).len() implies json_plain_text(#[trigger] ms.skip(1)[i].0)
                && json_plain_text(ms.skip(1)[i].1) by {
                assert(ms.skip(1)[i] == ms[i + 1]);
            }
        }
        lemma_read_member_lines(seq!['\n'], ms.skip(1), (fuel - 1) as nat);
        assert(seq![(k, v)] + ms.skip(1) =~= ms);
    }
}

/// The members of the request that trades an authorization code for tokens.
pub open spec fn code_request_members(
    code: Seq<char>,
    client_id: Seq<char>,
    client_secret: Seq<char>,
    redirect_uri: Seq<char>,
) -> Seq<(Seq<char>, Seq<char>)> {
    seq![
        ("code"@, code),
        ("client_id"@, client_id),
        ("client_secret"@, client_secret),
        ("redirect_uri"@, redirect_uri),
        ("grant_type"@, "authorization_code"@),
    ]
}

/// The request that trades an authorization code for tokens, read as JSON,
/// is the object whose `code`, `client_id`, `client_secret` and
/// `redirect_uri` are the values given and whose `grant_type` is
/// `authorization_code` (when the values need no escaping in JSON, which
/// the request does not do).
pub proof fn code_request_reads_as_json(
    code: Seq<char>,
    client_id: Seq<char>,
    client_secret: Seq<char>,
    redirect_uri: Seq<char>,
)
    requires
        json_plain_text(code),
        json_plain_text(client_id),
        json_plain_text(client_secret),
        json_plain_text(redirect_uri),
    ensures
        json_string_object(code_request_text(code, client_id, client_secret, redirect_uri)) == Some(
            code_request_members(code, client_id, client_secret, redirect_uri),
        ),
        member_value(code_request_members(code, client_id, client_secret, redirect_uri), "client_id"@) == Some(
            client_id,
        ),
        member_value(code_request_members(code, client_id, client_secret, redirect_uri), "client_secret"@)
            == Some(client_secret),
        member_value(code_request_members(code, client_id, client_secret, redirect_uri), "code"@) == Some(code),
        member_value(code_request_members(code, client_id, client_secret, redirect_uri), "redirect_uri"@)
            == Some(redirect_uri),
{
    reveal_strlit("code");
    reveal_strlit("client_id");
    reveal_strlit("client_secret");
    reveal_strlit("redirect_uri");
    reveal_strlit("grant_type");
    reveal_strlit("authorization_code");
    reveal_strlit("{\n");
    let ms = code_request_members(code, client_id, client_secret, redirect_uri);
    assert(plain_members(ms)) by {
        assert forall|i: int| 0 <= i < ms.len() implies json_plain_text(#[trigger] ms[i].0) && json_plain_text(
            ms[i].1,
        ) by {
            if i == 0 {
            } else if i == 1 {
            } else if i == 2 {
            } else if i == 3 {
            } else {
            }
        }
    }
    let text = code_request_text(code, client_id, client_secret, redirect_uri);
    let close: Seq<char> = "    }"@;
    reveal_with_fuel(member_lines, 5);
    assert(ms.skip(1).skip(1).skip(1).skip(1) =~= seq![("grant_type"@, "authorization_code"@)]);
    assert(text =~= seq!['{'] + (seq!['\n'] + member_lines(ms) + close));
    assert(skip_ws(text) == text);
    assert(all_ws(seq!['\n']));
    lemma_read_member_lines(seq!['\n'], ms, text.len());
    assert(text.skip(1) =~= seq!['\n'] + member_lines(ms) + close);
    reveal_with_fuel(member_value, 5);
}

/// The members of the request that trades a refresh token for an access
/// token.
pub open spec fn refresh_request_members(
    client_id: Seq<char>,
    client_secret: Seq<char>,
    refresh_token: Seq<char>,
    redirect_uri: Seq<char>,
) -> Seq<(Seq<char>, Seq<char>)> {
    seq![
        ("client_id"@, client_id),
        ("client_secret"@, client_secret),
        ("refresh_token"@, refresh_token),
        ("redirect_uri"@, redirect_uri),
        ("grant_type"@, "refresh_token"@),
    ]
}

/// The request that trades a refresh token for an access token, read as
/// JSON, is the object whose `client_id`, `client_secret`, `refresh_token`
/// and `redirect_uri` are the values given and whose `grant_type` is
/// `refresh_token` (when the values need no escaping in JSON).
pub proof fn refresh_request_reads_as_json(
    client_id: Seq<char>,
    client_secret: Seq<char>,
    refresh_token: Seq<char>,
    redirect_uri: Seq<char>,
)
    requires
        json_plain_text(client_id),
        json_plain_text(client_secret),
        json_plain_text(refresh_token),
        json_plain_text(redirect_uri),
    ensures
        json_string_object(refresh_request_text(client_id, client_secret, refresh_token, redirect_uri)) == Some(
            refresh_request_members(client_id, client_secret, refresh_token, redirect_uri),
        ),
        member_value(refresh_request_members(client_id, client_secret, refresh_token, redirect_uri), "client_id"@)
            == Some(client_id),
        member_value(
            refresh_request_members(client_id, client_secret, refresh_token, redirect_uri),
            "client_secret"@,
        ) == Some(client_secret),
        member_value(
            refresh_request_members(client_id, client_secret, refresh_token, redirect_uri),
            "refresh_token"@,
        ) == Some(refresh_token),
{
    reveal_strlit("client_id");
    reveal_strlit("client_secret");
    reveal_strlit("refresh_token");
    reveal_strlit("redirect_uri");
    reveal_strlit("grant_type");
    reveal_strlit("{\n");
    let ms = refresh_request_members(client_id, client_secret, refresh_token, redirect_uri);
    assert(plain_members(ms)) by {
        assert forall|i: int| 0 <= i < ms.len() implies json_plain_text(#[trigger] ms[i].0) && json_plain_text(
            ms[i].1,
        ) by {
            if i == 0 {
            } else if i == 1 {
            } else if i == 2 {
            } else if i == 3 {
            } else {
            }
        }
    }
    let text = refresh_request_text(client_id, client_secret, refresh_token, redirect_uri);
    let close: Seq<char> = "    }"@;
    reveal_with_fuel(member_lines, 5);
    assert(ms.skip(1).skip(1).skip(1).skip(1) =~= seq![("grant_type"@, "refresh_token"@)]);
    assert(text =~= seq!['{'] + (seq!['\n'] + member_lines(ms) + close));
    assert(skip_ws(text) == text);
    assert(all_ws(seq!['\n']));
    lemma_read_member_lines(seq!['\n'], ms, text.len());
    assert(text.skip(1) =~= seq!['\n'] + member_lines(ms) + close);
    assert("client_secret"@[0] != "refresh_token"@[0]);
    assert("client_id"@.len() != "refresh_token"@.len());
    reveal_with_fuel(member_value, 5);
}

} // verus!
