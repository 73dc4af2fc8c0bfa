//! Who is asking: the authenticated user, the token that names one, and the
//! rules that bar one.

use vstd::prelude::*;
use vstd::string::StrSliceExecFns;

verus! {

/// How long an issued token is good for, in seconds (one day).
pub const TOKEN_LIFETIME: usize = 86_400;

/// The status of every refusal to authenticate.
pub const UNAUTHORIZED: u16 = 401;

/// The code that the identity provider hands back to the callback.
pub struct GithubCallback {
    pub code: String,
}

/// What a token claims: whom it names, until when it is good, and when it
/// was issued, in seconds of the calendar.
pub struct TokenClaims {
    pub sub: String,
    pub exp: usize,
    pub iat: usize,
}

/// The identity provider's answer to the code.
pub struct GithubTokenResponse {
    pub access_token: String,
}

/// A user as the identity provider knows one.
pub struct GithubUser {
    pub id: i64,
    pub login: String,
}

/// One of a user's mail addresses with the identity provider.
pub struct GithubEmail {
    pub email: String,
    pub primary: bool,
    pub verified: bool,
}

/// Why a request was not authenticated.
#[derive(Debug, Clone, Copy, PartialEq, Eq, Structural)]
pub enum AuthError {
    InvalidToken,
    MissingToken,
    TokenExpired,
}

impl AuthError {
    /// The words for the requester.
    pub fn message(&self) -> (text: &'static str)
        ensures
            text@ == match *self {
                AuthError::InvalidToken => "Invalid token"@,
                AuthError::MissingToken => "Missing token"@,
                AuthError::TokenExpired => "Token expired"@,
            },
    {
        match self {
            AuthError::InvalidToken => "Invalid token",
            AuthError::MissingToken => "Missing token",
            AuthError::TokenExpired => "Token expired",
        }
    }

    /// The status for the requester: always unauthorized.
    pub fn status(&self) -> (status: u16)
        ensures
            status == UNAUTHORIZED,
    {
        UNAUTHORIZED
    }
}

/// A requester whose identity the token check has accepted.
#[derive(Debug, Clone)]
pub struct AuthUser {
    pub username: String,
}

/// What putting a text into lower case gives.
pub uninterp spec fn lowercased(text: Seq<char>) -> Seq<char>;

/// `str::to_lowercase`: the text with each character in its lower case.
#[verifier::external_body]
pub(crate) fn lowercase(text: &str) -> (lower: String)
    ensures
        lower@ == lowercased(text@),
{
    text.to_lowercase()
}

/// Whether a character is white space: one of the characters with the
/// Unicode property of that name. These are the controls from tab to
/// carriage return, the space, the next-line control, the no-break space,
/// the ogham space mark, the spaces from en quad to hair space, the line and
/// paragraph separators, the narrow no-break space, the medium mathematical
/// space and the ideographic space.
pub open spec fn is_space(c: char) -> bool {
    let n = c as u32;
    0x09 <= n <= 0x0d || n == 0x20 || n == 0x85 || n == 0xa0 || n == 0x1680 || 0x2000 <= n
        <= 0x200a || n == 0x2028 || n == 0x2029 || n == 0x202f || n == 0x205f || n == 0x3000
}

/// `char::is_whitespace`: whether the character has the Unicode property of
/// white space.
#[verifier::external_body]
fn is_whitespace(c: char) -> (space: bool)
    ensures
        space == is_space(c),
{
    c.is_whitespace()
}

/// Where the line that starts at `from` ends: at the next line feed, or at
/// the end of the text.
pub open spec fn line_end(text: Seq<char>, from: int) -> int
    decreases text.len() - from,
{
    if from < 0 || from >= text.len() {
        text.len() as int
    } else if text[from] == '\n' {
        from
    } else {
        line_end(text, from + 1)
    }
}

/// Where what is left of `text[from..to]` starts once the white space at its
/// front is taken off.
pub open spec fn content_start(text: Seq<char>, from: int, to: int) -> int
    decreases to - from,
{
    if from >= to {
        to
    } else if is_space(text[from]) {
        content_start(text, from + 1, to)
    } else {
        from
    }
}

/// Where what is left of `text[from..to]` ends once the white space at its
/// end is taken off.
pub open spec fn content_end(text: Seq<char>, from: int, to: int) -> int
    decreases to - from,
{
    if from >= to {
        from
    } else if is_space(text[to - 1]) {
        content_end(text, from, to - 1)
    } else {
        to
    }
}

/// `text[from..to]` without the white space at its front and its end.
pub open spec fn trimmed(text: Seq<char>, from: int, to: int) -> Seq<char> {
    let start = content_start(text, from, to);
    text.subrange(start, content_end(text, start, to))
}

/// The entries of a list file from `from` on: its lines, each without the
/// white space around it, and without the lines that are empty then.
pub open spec fn entries_from(text: Seq<char>, from: int) -> Seq<Seq<char>>
    decreases text.len() - from,
{
    if from < 0 || from >= text.len() {
        Seq::empty()
    } else {
        let end = line_end(text, from);
        let entry = trimmed(text, from, end);
        let rest = if from <= end < text.len() {
            entries_from(text, end + 1)
        } else {
            Seq::empty()
        };
        if entry.len() > 0 {
            seq![entry] + rest
        } else {
            rest
        }
    }
}

/// The entries of a list file.
pub open spec fn entries(text: Seq<char>) -> Seq<Seq<char>> {
    entries_from(text, 0)
}

/// The texts of a list.
pub open spec fn texts(list: Seq<String>) -> Seq<Seq<char>> {
    list.map_values(|s: String| s@)
}

/// Reads a list file: one entry to a line, white space around an entry and
/// empty lines left out.
pub fn parse_list(contents: &str) -> (list: Vec<String>)
    ensures
        texts(list@) == entries(contents@),
{
    let ghost text = contents@;
    let n = contents.unicode_len();
    let mut list: Vec<String> = Vec::new();
    let mut from: usize = 0;
    proof {
        assert(texts(list@) =~= Seq::<Seq<char>>::empty());
    }
    while from < n
        invariant
            text == contents@,
            n == text.len(),
            from <= n,
            texts(list@) + entries_from(text, from as int) == entries(text),
        decreases n - from,
    {
        let mut end: usize = from;
        while end < n && contents.get_char(end) != '\n'
            invariant
                text == contents@,
                n == text.len(),
                from <= end <= n,
                line_end(text, end as int) == line_end(text, from as int),
            decreases n - end,
        {
            end = end + 1;
        }
        let mut start: usize = from;
        while start < end && is_whitespace(contents.get_char(start))
            invariant
                text == contents@,
                n == text.len(),
                from <= start <= end <= n,
                content_start(text, start as int, end as int) == content_start(
                    text,
                    from as int,
                    end as int,
                ),
            decreases end - start,
        {
            start = start + 1;
        }
        let mut stop: usize = end;
        while start < stop && is_whitespace(contents.get_char(stop - 1))
            invariant
                text == contents@,
                n == text.len(),
                start <= stop <= end <= n,
                content_end(text, start as int, stop as int) == content_end(
                    text,
                    start as int,
                    end as int,
                ),
            decreases stop - start,
        {
            stop = stop - 1;
        }
        proof {
            assert(line_end(text, from as int) == end);
            assert(content_start(text, from as int, end as int) == start);
            assert(content_end(text, start as int, end as int) == stop);
            assert(trimmed(text, from as int, end as int) == text.subrange(start as int, stop as int));
        }
        let ghost before = list@;
        if start < stop {
            let entry = contents.substring_char(start, stop).to_owned();
            list.push(entry);
            proof {
                assert(texts(list@) =~= texts(before) + seq![entry@]);
                assert(texts(list@) + entries_from(text, end + 1) =~= texts(before) + (seq![entry@]
                    + entries_from(text, end + 1)));
            }
        }
        from = if end < n {
            end + 1
        } else {
            n
        };
    }
    proof {
        assert(entries_from(text, from as int) =~= Seq::<Seq<char>>::empty());
        assert(texts(list@) + Seq::<Seq<char>>::empty() =~= texts(list@));
    }
    list
}

/// Where the host of a mail address starts: behind its last `@`, or at the
/// front where it has none.
pub open spec fn host_start(email: Seq<char>) -> int
    decreases email.len(),
{
    if email.len() == 0 {
        0
    } else if email.last() == '@' {
        email.len() as int
    } else {
        host_start(email.drop_last())
    }
}

/// The host of a mail address: what stands behind its last `@`; the whole
/// text where it has none.
pub open spec fn host_of(email: Seq<char>) -> Seq<char> {
    email.subrange(host_start(email), email.len() as int)
}

/// Whether the list holds the text.
pub open spec fn lists(list: Seq<String>, text: Seq<char>) -> bool {
    exists|i: int| 0 <= i < list.len() && (#[trigger] list[i])@ == text
}

/// The rule that bars a user. A user on the white list is never barred; any
/// other is barred when the host of the mail address, in lower case, is a
/// banned domain, or when the address itself is a banned user.
pub open spec fn banned(
    email: Seq<char>,
    whitelisted: Seq<String>,
    banned_domains: Seq<String>,
    banned_users: Seq<String>,
) -> bool {
    !lists(whitelisted, email) && (lists(banned_domains, lowercased(host_of(email))) || lists(
        banned_users,
        email,
    ))
}

/// Finds the host of a mail address.
fn host(email: &str) -> (host: &str)
    ensures
        host@ == host_of(email@),
{
    let n = email.unicode_len();
    let mut start: usize = 0;
    let mut i: usize = 0;
    while i < n
        invariant
            n == email@.len(),
            i <= n,
            start <= i,
            start == host_start(email@.take(i as int)),
        decreases n - i,
    {
        let c = email.get_char(i);
        proof {
            assert(email@.take(i + 1).drop_last() =~= email@.take(i as int));
            assert(email@.take(i + 1).last() == c);
        }
        if c == '@' {
            start = i + 1;
        }
        i = i + 1;
    }
    proof {
        assert(email@.take(n as int) =~= email@);
    }
    email.substring_char(start, n)
}

/// Whether the list holds the text.
fn contains(list: &Vec<String>, text: &String) -> (found: bool)
    ensures
        found == lists(list@, text@),
{
    let mut i: usize = 0;
    while i < list.len()
        invariant
            i <= list.len(),
            forall|j: int| 0 <= j < i ==> (#[trigger] list@[j])@ != text@,
        decreases list.len() - i,
    {
        if list[i] == *text {
            return true;
        }
        i = i + 1;
    }
    false
}

/// Decides whether a user is barred, given the three lists.
pub fn is_banned(
    email: &String,
    whitelisted_users: &Vec<String>,
    banned_domains: &Vec<String>,
    banned_users: &Vec<String>,
) -> (barred: bool)
    ensures
        barred == banned(email@, whitelisted_users@, banned_domains@, banned_users@),
{
    if contains(whitelisted_users, email) {
        return false;
    }
    let user_host = lowercase(host(email.as_str()));
    if contains(banned_domains, &user_host) {
        return true;
    }
    contains(banned_users, email)
}

/// What the token check says, in the order in which it looks: an empty token
/// is missing, one that does not decode is invalid, one that is past its time
/// has expired, and a barred user is told the same.
pub open spec fn token_fault(
    token: Seq<char>,
    claims: Option<TokenClaims>,
    now: usize,
    whitelisted: Seq<String>,
    banned_domains: Seq<String>,
    banned_users: Seq<String>,
) -> Option<AuthError> {
    if token.len() == 0 {
        Some(AuthError::MissingToken)
    } else if claims is None {
        Some(AuthError::InvalidToken)
    } else if claims.unwrap().exp < now {
        Some(AuthError::TokenExpired)
    } else if banned(claims.unwrap().sub@, whitelisted, banned_domains, banned_users) {
        Some(AuthError::TokenExpired)
    } else {
        None
    }
}

/// Decides whether a request is authenticated. `claims` is what decoding the
/// token gave, or none where it did not decode; `now` is the time in seconds
/// of the calendar. A token that passes names the user.
pub fn authenticate(
    token: &str,
    claims: Option<TokenClaims>,
    now: usize,
    whitelisted_users: &Vec<String>,
    banned_domains: &Vec<String>,
    banned_users: &Vec<String>,
) -> (user: Result<AuthUser, AuthError>)
    ensures
        match user {
            Ok(u) => token_fault(
                token@,
                claims,
                now,
                whitelisted_users@,
                banned_domains@,
                banned_users@,
            ) is None && u.username@ == claims.unwrap().sub@,
            Err(e) => token_fault(
                token@,
                claims,
                now,
                whitelisted_users@,
                banned_domains@,
                banned_users@,
            ) == Some(e),
        },
{
    if token.is_empty() {
        return Err(AuthError::MissingToken);
    }
    match claims {
        None => Err(AuthError::InvalidToken),
        Some(claims) => {
            if claims.exp < now {
                Err(AuthError::TokenExpired)
            } else if is_banned(&claims.sub, whitelisted_users, banned_domains, banned_users) {
                Err(AuthError::TokenExpired)
            } else {
                Ok(AuthUser { username: claims.sub })
            }
        },
    }
}

/// The place of the first mail address that is both primary and verified.
pub fn primary_email(emails: &Vec<GithubEmail>) -> (place: Option<usize>)
    ensures
        match place {
            Some(i) => i < emails@.len() && emails@[i as int].primary && emails@[i as int].verified
                && forall|j: int| 0 <= j < i ==> !((#[trigger] emails@[j]).primary && emails@[j].verified),
            None => forall|j: int|
                0 <= j < emails@.len() ==> !((#[trigger] emails@[j]).primary && emails@[j].verified),
        },
{
    let mut i: usize = 0;
    while i < emails.len()
        invariant
            i <= emails.len(),
            forall|j: int| 0 <= j < i ==> !((#[trigger] emails@[j]).primary && emails@[j].verified),
        decreases emails.len() - i,
    {
        if emails[i].primary && emails[i].verified {
            return Some(i);
        }
        i = i + 1;
    }
    None
}

/// The claims of a token issued at `now` for `sub`: good for one day.
pub fn issue_claims(sub: String, now: usize) -> (claims: TokenClaims)
    requires
        now + TOKEN_LIFETIME <= usize::MAX,
    ensures
        claims.sub == sub,
        claims.iat == now,
        claims.exp == now + TOKEN_LIFETIME,
{
    TokenClaims { sub, exp: now + TOKEN_LIFETIME, iat: now }
}

} // verus!
