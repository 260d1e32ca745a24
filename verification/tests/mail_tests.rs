use actix_jwt_api::mail::{
    attachment_file_name, attachment_names, authorization_code_reply, cached_refresh_token, code_request_body, email_send_reply,
    oauth_refresh_failed_reply, refresh_outcome, refresh_request_body, RefreshTokenResponse,
};
use actix_jwt_api::responses::{Body, Guard};

#[test]
fn attachments_are_named_anexo_by_default() {
    assert_eq!(attachment_file_name(&None), "anexo");
    assert_eq!(attachment_file_name(&Some("report.pdf".to_string())), "report.pdf");
}

#[test]
fn send_replies() {
    let r = email_send_reply("Hi", "Body", "to@x.io", Ok(()));
    assert_eq!(r.status, 200);
    assert!(matches!(r.body, Body::EmailSent(ref b) if b.email.title == "Hi" && b.email.content == "Body" && b.email.to == "to@x.io"));
    let r = email_send_reply("Hi", "Body", "to@x.io", Err("relay refused".to_string()));
    assert_eq!(r.status, 502);
    assert!(matches!(r.body, Body::EmailFailed(ref b) if b.error == "relay refused" && b.message == "Error sending email!"));
    assert_eq!(oauth_refresh_failed_reply().status, 500);
}

#[test]
fn token_requests_are_written_as_json() {
    let body = refresh_request_body("id", "secret", "rt", "https://x/cb");
    assert_eq!(
        body,
        "{\n        \"client_id\": \"id\",\n        \"client_secret\": \"secret\",\n        \"refresh_token\": \"rt\",\n        \"redirect_uri\": \"https://x/cb\",\n        \"grant_type\": \"refresh_token\"\n    }"
    );
    let parsed: serde_json::Value = serde_json::from_str(&body).unwrap();
    assert_eq!(parsed["grant_type"], "refresh_token");
    let body = code_request_body("c0de", "id", "secret", "uri");
    let parsed: serde_json::Value = serde_json::from_str(&body).unwrap();
    assert_eq!(parsed["code"], "c0de");
    assert_eq!(parsed["grant_type"], "authorization_code");
}

#[test]
fn refresh_outcomes() {
    let answer = RefreshTokenResponse {
        access_token: "at".to_string(),
        expires_in: 3599,
        scope: "mail".to_string(),
        token_type: "Bearer".to_string(),
        refresh_token_expires_in: 100,
    };
    assert_eq!(refresh_outcome(Some(answer)), Ok("at".to_string()));
    assert_eq!(refresh_outcome(None), Err(500));
}

#[test]
fn authorization_code_replies() {
    let r = authorization_code_reply(200);
    assert_eq!(r.status, 200);
    assert!(matches!(r.body, Body::Text(ref t) if t.starts_with("OAuth2 Google token updated!")));
    let r = authorization_code_reply(401);
    assert_eq!(r.status, 500);
    assert!(matches!(r.guard, Guard::Counted(None)));
    let r = authorization_code_reply(503);
    assert_eq!(r.status, 500);
    assert!(matches!(r.guard, Guard::Untouched));
}

#[test]
fn attachments_keep_the_order_of_the_uploads() {
    let names = attachment_names(&vec![Some("a.pdf".to_string()), None, Some("b.png".to_string())]);
    assert_eq!(names, vec!["a.pdf".to_string(), "anexo".to_string(), "b.png".to_string()]);
    assert!(attachment_names(&vec![]).is_empty());
}

#[test]
fn a_refresh_needs_a_cached_refresh_token() {
    assert_eq!(cached_refresh_token(Some("rt".to_string())), Ok("rt".to_string()));
    assert_eq!(cached_refresh_token(None), Err(500));
}
