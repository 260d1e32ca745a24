//! Status codes, the generic response bodies and the rejections that the
//! middleware layer answers with.

use vstd::prelude::*;
use vstd::string::*;

verus! {

/// `200 OK`.
pub const STATUS_OK: u16 = 200;

/// `400 Bad Request`.
pub const STATUS_BAD_REQUEST: u16 = 400;

/// `401 Unauthorized`.
pub const STATUS_UNAUTHORIZED: u16 = 401;

/// `404 Not Found`.
pub const STATUS_NOT_FOUND: u16 = 404;

/// `409 Conflict`.
pub const STATUS_CONFLICT: u16 = 409;

/// `429 Too Many Requests`.
pub const STATUS_TOO_MANY_REQUESTS: u16 = 429;

/// `500 Internal Server Error`.
pub const STATUS_INTERNAL_SERVER_ERROR: u16 = 500;

/// `502 Bad Gateway`.
pub const STATUS_BAD_GATEWAY: u16 = 502;

/// A body that carries a message only.
pub struct GenericResponse {
    pub message: String,
}

/// A body that carries a message and an error description.
pub struct GenericError {
    pub message: String,
    pub error: String,
}

impl GenericResponse {
    /// The body with the given message.
    pub fn new(message: &str) -> (res: GenericResponse)
        ensures
            res.message@ == message@,
    {
        GenericResponse { message: String::from_str(message) }
    }
}

/// What `{:#?}` writes for a string: the string quoted, with its special
/// characters escaped.
pub uninterp spec fn debug_quoted(s: Seq<char>) -> Seq<char>;

/// A character that a JSON text carries as it is or with a short escape:
/// printable ASCII, newline, tab or carriage return.
pub open spec fn json_safe_char(c: char) -> bool {
    (' ' <= c && c <= '~') || c == '\n' || c == '\t' || c == '\r'
}

/// Every character of `s` is one that a JSON text carries as it is or with
/// a short escape.
pub open spec fn json_safe_text(s: Seq<char>) -> bool {
    forall|i: int| 0 <= i < s.len() ==> json_safe_char(#[trigger] s[i])
}

/// How `Debug` writes a character of such a text: a quote, a backslash, a
/// newline, a tab and a carriage return escaped, any other as it is.
pub open spec fn escaped_char(c: char) -> Seq<char> {
    if c == '"' {
        seq!['\\', '"']
    } else if c == '\\' {
        seq!['\\', '\\']
    } else if c == '\n' {
        seq!['\\', 'n']
    } else if c == '\t' {
        seq!['\\', 't']
    } else if c == '\r' {
        seq!['\\', 'r']
    } else {
        seq![c]
    }
}

/// The characters of `s`, each written as `escaped_char` writes it.
pub open spec fn escaped_text(s: Seq<char>) -> Seq<char>
    decreases s.len(),
{
    if s.len() == 0 {
        Seq::empty()
    } else {
        escaped_char(s[0]) + escaped_text(s.skip(1))
    }
}

/// `s` in double quotes, escaped.
pub open spec fn quoted_text(s: Seq<char>) -> Seq<char> {
    seq!['"'] + escaped_text(s) + seq!['"']
}

/// Writes `s` as `{:#?}` does (std's `Debug` for `str`): for a text of
/// printable ASCII, newlines, tabs and carriage returns, that is the text in
/// double quotes with `"`, `\`, newline, tab and carriage return written as
/// `\"`, `\\`, `\n`, `\t` and `\r` (`str::fmt` escapes with
/// `escape_debug`, quotes included and apostrophes not, and every printable
/// ASCII character is written as it is).
#[verifier::external_body]
fn format_debug_quoted(s: &str) -> (res: String)
    ensures
        res@ == debug_quoted(s@),
        json_safe_text(s@) ==> res@ == quoted_text(s@),
{
    format!("{:#?}", s)
}

/// The text `{ "message":M, "error":E }` where `M` and `E` are the two fields
/// written as `{:#?}` writes a string.
pub open spec fn generic_error_text(message: Seq<char>, error: Seq<char>) -> Seq<char> {
    "{ \"message\":"@ + debug_quoted(message) + ", \"error\":"@ + debug_quoted(error) + " }"@
}

/// The JSON object text `{ "message":M, "error":E }` with the two members
/// written as JSON string literals.
pub open spec fn json_error_text(message: Seq<char>, error: Seq<char>) -> Seq<char> {
    "{ \"message\":"@ + quoted_text(message) + ", \"error\":"@ + quoted_text(error) + " }"@
}

/// The character that the JSON short escape `\x` stands for (RFC 8259).
pub open spec fn json_short_escape(x: char) -> Option<char> {
    if x == '"' {
        Some('"')
    } else if x == '\\' {
        Some('\\')
    } else if x == '/' {
        Some('/')
    } else if x == 'b' {
        Some('\u{8}')
    } else if x == 'f' {
        Some('\u{c}')
    } else if x == 'n' {
        Some('\n')
    } else if x == 'r' {
        Some('\r')
    } else if x == 't' {
        Some('\t')
    } else {
        None
    }
}

/// A character that may stand unescaped in a JSON string: not a quote, not
/// a backslash, not a control character.
pub open spec fn json_plain_char(c: char) -> bool {
    c != '"' && c != '\\' && ' ' <= c
}

/// The characters that the body of a JSON string literal stands for: an
/// unescaped character stands for itself, except a quote or a control
/// character, which cannot stand there; a short escape stands for its
/// character. (`\u` escapes are not read: a body with one reads as `None`.)
pub open spec fn json_unescape(body: Seq<char>) -> Option<Seq<char>>
    decreases body.len(),
{
    if body.len() == 0 {
        Some(Seq::empty())
    } else if body[0] == '\\' {
        if body.len() < 2 {
            None
        } else {
            match (json_short_escape(body[1]), json_unescape(body.skip(2))) {
                (Some(c), Some(rest)) => Some(seq![c] + rest),
                _ => None,
            }
        }
    } else if !json_plain_char(body[0]) {
        None
    } else {
        match json_unescape(body.skip(1)) {
            Some(rest) => Some(seq![body[0]] + rest),
            None => None,
        }
    }
}

/// The string that a JSON string literal stands for.
pub open spec fn json_string_value(literal: Seq<char>) -> Option<Seq<char>> {
    if literal.len() >= 2 && literal[0] == '"' && literal[literal.len() - 1] == '"' {
        json_unescape(literal.subrange(1, literal.len() - 1))
    } else {
        None
    }
}

/// A character that JSON skips between tokens.
pub open spec fn json_ws(c: char) -> bool {
    c == ' ' || c == '\n' || c == '\t' || c == '\r'
}

/// `t` without its leading whitespace.
pub open spec fn skip_ws(t: Seq<char>) -> Seq<char>
    decreases t.len(),
{
    if t.len() > 0 && json_ws(t[0]) {
        skip_ws(t.skip(1))
    } else {
        t
    }
}

/// The contents of a JSON string literal without escapes, read right after
/// its opening quote, and what follows its closing quote.
pub open spec fn string_rest(t: Seq<char>) -> Option<(Seq<char>, Seq<char>)>
    decreases t.len(),
{
    if t.len() == 0 {
        None
    } else if t[0] == '"' {
        Some((Seq::empty(), t.skip(1)))
    } else if !json_plain_char(t[0]) {
        None
    } else {
        match string_rest(t.skip(1)) {
            Some((s, r)) => Some((seq![t[0]] + s, r)),
            None => None,
        }
    }
}

/// A string literal without escapes after optional whitespace at the front
/// of `t`: its contents and what follows it.
pub open spec fn read_string(t: Seq<char>) -> Option<(Seq<char>, Seq<char>)> {
    let u = skip_ws(t);
    if u.len() > 0 && u[0] == '"' {
        string_rest(u.skip(1))
    } else {
        None
    }
}

/// The punctuation `c` after optional whitespace at the front of `t`: what
/// follows it.
pub open spec fn read_punct(t: Seq<char>, c: char) -> Option<Seq<char>> {
    let u = skip_ws(t);
    if u.len() > 0 && u[0] == c {
        Some(u.skip(1))
    } else {
        None
    }
}

/// The members, in order, of the rest of a JSON object after its `{`, each a
/// name and a string value without escapes, up to its `}` and the end of the
/// text (at most `fuel` members are read).
pub open spec fn read_members(t: Seq<char>, fuel: nat) -> Option<Seq<(Seq<char>, Seq<char>)>>
    decreases fuel,
{
    if fuel == 0 {
        None
    } else {
        match read_string(t) {
            None => None,
            Some((k, r1)) => match read_punct(r1, ':') {
                None => None,
                Some(r2) => match read_string(r2) {
                    None => None,
                    Some((v, r3)) => match read_punct(r3, ',') {
                        Some(r4) => match read_members(r4, (fuel - 1) as nat) {
                            Some(ms) => Some(seq![(k, v)] + ms),
                            None => None,
                        },
                        None => match read_punct(r3, '}') {
                            Some(r5) => if skip_ws(r5).len() == 0 {
                                Some(seq![(k, v)])
                            } else {
                                None
                            },
                            None => None,
                        },
                    },
                },
            },
        }
    }
}

/// The members, in order, of a JSON text that is an object of one or more
/// members whose values are strings without escapes; `None` for any other
/// text.
pub open spec fn json_string_object(t: Seq<char>) -> Option<Seq<(Seq<char>, Seq<char>)>> {
    match read_punct(t, '{') {
        Some(r) => read_members(r, t.len()),
        None => None,
    }
}

/// The value of the first member named `name`.
pub open spec fn member_value(members: Seq<(Seq<char>, Seq<char>)>, name: Seq<char>) -> Option<Seq<char>>
    decreases members.len(),
{
    if members.len() == 0 {
        None
    } else if members[0].0 == name {
        Some(members[0].1)
    } else {
        member_value(members.skip(1), name)
    }
}

/// Every character of `w` is whitespace.
pub open spec fn all_ws(w: Seq<char>) -> bool {
    forall|i: int| 0 <= i < w.len() ==> json_ws(#[trigger] w[i])
}

/// Every character of `s` may stand unescaped in a JSON string.
pub open spec fn json_plain_text(s: Seq<char>) -> bool {
    forall|i: int| 0 <= i < s.len() ==> json_plain_char(#[trigger] s[i])
}

/// Leading whitespace is skipped whatever it is.
pub proof fn lemma_skip_ws_prefix(w: Seq<char>, t: Seq<char>)
    requires
        all_ws(w),
    ensures
        skip_ws(w + t) == skip_ws(t),
    decreases w.len(),
{
    if w.len() > 0 {
        assert((w + t).skip(1) =~= w.skip(1) + t);
        lemma_skip_ws_prefix(w.skip(1), t);
    } else {
        assert(w + t =~= t);
    }
}

/// A string literal's contents are read up to its closing quote.
pub proof fn lemma_string_rest(v: Seq<char>, r: Seq<char>)
    requires
        json_plain_text(v),
    ensures
        string_rest(v + seq!['"'] + r) == Some((v, r)),
    decreases v.len(),
{
    let t = v + seq!['"'] + r;
    if v.len() == 0 {
        assert(t.skip(1) =~= r);
    } else {
        assert(t.skip(1) =~= v.skip(1) + seq!['"'] + r);
        lemma_string_rest(v.skip(1), r);
        assert(seq![v[0]] + v.skip(1) =~= v);
    }
}

/// The escaped body reads back as the text.
proof fn lemma_unescape_escaped(s: Seq<char>)
    requires
        json_safe_text(s),
    ensures
        json_unescape(escaped_text(s)) == Some(s),
    decreases s.len(),
{
    if s.len() > 0 {
        let rest = s.skip(1);
        assert forall|i: int| 0 <= i < rest.len() implies json_safe_char(#[trigger] rest[i]) by {
            assert(rest[i] == s[i + 1]);
        }
        lemma_unescape_escaped(rest);
        let e = escaped_char(s[0]);
        let body = escaped_text(s);
        assert(body == e + escaped_text(rest));
        assert(json_safe_char(s[0]));
        if e.len() == 2 {
            assert(body.skip(2) =~= escaped_text(rest));
        } else {
            assert(body.skip(1) =~= escaped_text(rest));
        }
        assert(seq![s[0]] + rest =~= s);
    }
}

/// A quoted text of printable ASCII, newlines, tabs and carriage returns is
/// a JSON string literal that stands for the text.
pub proof fn quoted_text_is_json_string(s: Seq<char>)
    requires
        json_safe_text(s),
    ensures
        json_string_value(quoted_text(s)) == Some(s),
{
    lemma_unescape_escaped(s);
    let q = quoted_text(s);
    assert(q.subrange(1, q.len() - 1) =~= escaped_text(s));
}

impl GenericError {
    /// The body with the given message and error description.
    pub fn new(message: &str, error: &str) -> (res: GenericError)
        ensures
            res.message@ == message@,
            res.error@ == error@,
    {
        GenericError { message: String::from_str(message), error: String::from_str(error) }
    }

    /// The text that this error displays as.
    pub fn to_display_string(&self) -> (res: String)
        ensures
            res@ == generic_error_text(self.message@, self.error@),
            json_safe_text(self.message@) && json_safe_text(self.error@) ==> res@ == json_error_text(
                self.message@,
                self.error@,
            ),
    {
        let mut text = String::from_str("{ \"message\":");
        let message = format_debug_quoted(self.message.as_str());
        text.append(message.as_str());
        text.append(", \"error\":");
        let error = format_debug_quoted(self.error.as_str());
        text.append(error.as_str());
        text.append(" }");
        text
    }
}

/// How a rejected request counts against the address it came from.
pub enum BruteForceFlag {
    /// The rejection does not count.
    NotCounted,
    /// The rejection counts, with the weight given by the caller, if any.
    Counted(Option<i16>),
}

/// A request that a middleware refused: the status, the body and whether
/// the refusal counts as a failed attempt of the sender.
pub struct Rejection {
    pub status: u16,
    pub body: GenericError,
    pub brute_force: BruteForceFlag,
}

/// The flag that an optional weight asks for.
pub open spec fn flag_for(checked_brute_force: Option<i16>) -> BruteForceFlag {
    match checked_brute_force {
        Some(points) => BruteForceFlag::Counted(Some(points)),
        None => BruteForceFlag::NotCounted,
    }
}

/// The rejection with `status` whose body holds `message` and `error`.
pub open spec fn is_rejection(
    r: Rejection,
    status: u16,
    error: Seq<char>,
    message: Seq<char>,
    flag: BruteForceFlag,
) -> bool {
    &&& r.status == status
    &&& r.body.message@ == message
    &&& r.body.error@ == error
    &&& r.brute_force == flag
}

fn rejection(status: u16, error: &str, message: &str, flag: BruteForceFlag) -> (res: Rejection)
    ensures
        is_rejection(res, status, error@, message@, flag),
{
    Rejection { status, body: GenericError::new(message, error), brute_force: flag }
}

fn flag_of(checked_brute_force: Option<i16>) -> (res: BruteForceFlag)
    ensures
        res == flag_for(checked_brute_force),
{
    match checked_brute_force {
        Some(points) => BruteForceFlag::Counted(Some(points)),
        None => BruteForceFlag::NotCounted,
    }
}

/// A `400` refusal; when `checked_brute_force` holds a weight the refusal
/// counts against the sender.
pub fn bad_request_response(error: &str, message: &str, checked_brute_force: Option<i16>) -> (res:
    Rejection)
    ensures
        is_rejection(res, STATUS_BAD_REQUEST, error@, message@, flag_for(checked_brute_force)),
{
    rejection(STATUS_BAD_REQUEST, error, message, flag_of(checked_brute_force))
}

/// A `401` refusal; when `checked_brute_force` holds a weight the refusal
/// counts against the sender.
pub fn unauthorized_response(error: &str, message: &str, checked_brute_force: Option<i16>) -> (res:
    Rejection)
    ensures
        is_rejection(res, STATUS_UNAUTHORIZED, error@, message@, flag_for(checked_brute_force)),
{
    rejection(STATUS_UNAUTHORIZED, error, message, flag_of(checked_brute_force))
}

/// A `500` refusal, which never counts against the sender.
pub fn internal_server_error_response(error: &str, message: &str) -> (res: Rejection)
    ensures
        is_rejection(res, STATUS_INTERNAL_SERVER_ERROR, error@, message@, BruteForceFlag::NotCounted),
{
    rejection(STATUS_INTERNAL_SERVER_ERROR, error, message, BruteForceFlag::NotCounted)
}

/// A `429` refusal, which never counts against the sender.
pub fn too_many_requests_error_response(error: &str, message: &str) -> (res: Rejection)
    ensures
        is_rejection(res, STATUS_TOO_MANY_REQUESTS, error@, message@, BruteForceFlag::NotCounted),
{
    rejection(STATUS_TOO_MANY_REQUESTS, error, message, BruteForceFlag::NotCounted)
}

} // verus!
