//! Password hashing, the session cookie, and the login form.
use vstd::prelude::*;
use vstd::utf8::{decode_utf8, encode_utf8, valid_utf8};

use crate::portal::{generate_login_html, login_page, opt_view};
use crate::requests::percent_decode_bytes;
use crate::text::{
    chars_of,
    find_char,
    find_char_between,
    hex_digit,
    lemma_find_char,
    lemma_find_char_at,
    range_equals,
    split_on,
    string_of_range,
    trim,
    trim_end,
    trim_range,
    trim_start,
};

verus! {

// ─── Hashing ──────────────────────────────────────────────────────────

/// The SHA-256 digest of `data`, as the `sha2` crate computes it.
pub uninterp spec fn sha256(data: Seq<u8>) -> Seq<u8>;

/// `<Sha256 as Digest>::digest` from `sha2`: the digest is named, not
/// computed here; its length, 32 bytes, is the output size of SHA-256.
#[verifier::external_body]
pub(crate) fn sha256_digest(data: &[u8]) -> (digest: Vec<u8>)
    ensures
        digest@ == sha256(data@),
        digest@.len() == 32,
{
    <sha2::Sha256 as sha2::Digest>::digest(data).to_vec()
}

/// Lowercase hexadecimal notation of `data`, two digits per byte, high
/// nibble first.
pub open spec fn hex_lower(data: Seq<u8>) -> Seq<char>
    decreases data.len(),
{
    if data.len() == 0 {
        seq![]
    } else {
        hex_lower(data.drop_last()) + seq![
            hex_digit((data.last() / 16) as nat),
            hex_digit((data.last() % 16) as nat),
        ]
    }
}

/// `hex::encode` from the `hex` crate, which writes each byte as two
/// lowercase hexadecimal digits, high nibble first.
#[verifier::external_body]
pub(crate) fn hex_encode(data: &[u8]) -> (s: String)
    ensures
        s@ == hex_lower(data@),
{
    hex::encode(data)
}

/// The stored form of a password: the lowercase hex notation of the SHA-256
/// digest of its UTF-8 bytes.
pub open spec fn password_digest_hex(password: Seq<char>) -> Seq<char> {
    hex_lower(sha256(encode_utf8(password)))
}

/// A lowercase hexadecimal digit.
pub open spec fn is_hex_char(c: char) -> bool {
    ('0' <= c <= '9') || ('a' <= c <= 'f')
}

/// The shape of every stored password hash: 64 lowercase hex digits.
pub open spec fn is_password_hash(h: Seq<char>) -> bool {
    &&& h.len() == 64
    &&& forall|k: int| 0 <= k < h.len() ==> is_hex_char(#[trigger] h[k])
}

/// Hex notation has two digits per byte, all of them hexadecimal.
pub proof fn lemma_hex_lower_shape(data: Seq<u8>)
    ensures
        hex_lower(data).len() == 2 * data.len(),
        forall|k: int| 0 <= k < hex_lower(data).len() ==> is_hex_char(#[trigger] hex_lower(data)[k]),
    decreases data.len(),
{
    if data.len() > 0 {
        lemma_hex_lower_shape(data.drop_last());
        let h = hex_lower(data);
        let front = hex_lower(data.drop_last());
        let hi = (data.last() / 16) as nat;
        let lo = (data.last() % 16) as nat;
        assert forall|k: int| 0 <= k < h.len() implies is_hex_char(#[trigger] h[k]) by {
            if k < front.len() {
                assert(h[k] == front[k]);
            } else if k == front.len() {
                assert(h[k] == hex_digit(hi));
            } else {
                assert(h[k] == hex_digit(lo));
            }
        }
    }
}

/// Hashes a string with SHA-256 and returns the digest in lowercase hex:
/// always 64 hex digits.
pub fn sha256_hex(input: &str) -> (r: String)
    ensures
        r@ == password_digest_hex(input@),
        is_password_hash(r@),
{
    let digest = sha256_digest(input.as_bytes());
    proof {
        lemma_hex_lower_shape(digest@);
    }
    hex_encode(digest.as_slice())
}

/// The password hash a share is started with: the hash of a non-empty
/// password, or empty (no password) when none or an empty one is given.
pub open spec fn stored_password_hash(password: Option<Seq<char>>) -> Seq<char> {
    match password {
        Some(p) => if p.len() > 0 {
            password_digest_hex(p)
        } else {
            seq![]
        },
        None => seq![],
    }
}

/// Computes the password hash a share is started with.
pub fn password_hash_for(password: Option<&str>) -> (h: String)
    ensures
        h@ == stored_password_hash(opt_view(password)),
        h@.len() == 0 || is_password_hash(h@),
{
    match password {
        Some(pwd) => {
            if !pwd.is_empty() {
                sha256_hex(pwd)
            } else {
                String::new()
            }
        },
        None => String::new(),
    }
}

// ─── Cookies ──────────────────────────────────────────────────────────

/// Name of the cookie that carries a browser's session.
pub const SESSION_COOKIE: &'static str = "thlauh_session";

/// The value of cookie `name` among the `;`-separated pieces of a `Cookie`
/// header. The pieces are read in order: a piece whose name (the text before
/// its first `=`, trimmed) is `name` gives its value (the text after that `=`,
/// trimmed); a piece without `=` ends the search with no value.
pub open spec fn cookie_lookup(pieces: Seq<Seq<char>>, name: Seq<char>) -> Option<Seq<char>>
    decreases pieces.len(),
{
    if pieces.len() == 0 {
        None
    } else {
        let piece = pieces[0];
        let eq = find_char(piece, '=');
        if eq >= piece.len() {
            None
        } else if trim(piece.take(eq as int)) == name {
            Some(trim(piece.skip((eq + 1) as int)))
        } else {
            cookie_lookup(pieces.drop_first(), name)
        }
    }
}

/// The value of cookie `name` in an optional `Cookie` header.
pub open spec fn cookie_value(header: Option<Seq<char>>, name: Seq<char>) -> Option<Seq<char>> {
    match header {
        Some(h) => cookie_lookup(split_on(h, ';'), name),
        None => None,
    }
}

/// Finds the value of cookie `name` in the `Cookie` header, if the request
/// has one that is readable text.
pub fn get_cookie(cookie_header: Option<&str>, name: &str) -> (r: Option<String>)
    ensures
        opt_string_view(r) == cookie_value(opt_view(cookie_header), name@),
{
    let header = match cookie_header {
        Some(h) => h,
        None => return None,
    };
    let s = chars_of(header);
    let name_chars = chars_of(name);
    let mut i: usize = 0;
    assert(s@.skip(0) =~= s@);
    loop
        invariant
            i <= s@.len(),
            s@ == header@,
            name_chars@ == name@,
            cookie_value(opt_view(cookie_header), name@) == cookie_lookup(
                split_on(s@.skip(i as int), ';'),
                name@,
            ),
        decreases s@.len() - i,
    {
        let j = find_char_between(&s, i, s.len(), ';');
        let ghost rest = s@.skip(i as int);
        proof {
            assert(s@.subrange(i as int, s@.len() as int) =~= rest);
            lemma_find_char(rest, ';');
        }
        let ghost piece = rest.take(j - i);
        assert(piece =~= s@.subrange(i as int, j as int));
        let ghost pieces = split_on(rest, ';');
        proof {
            if j == s.len() {
                assert(rest.take(j - i) =~= rest);
                assert(pieces == seq![rest]);
            } else {
                assert(rest.skip(j - i + 1) =~= s@.skip(j + 1));
                assert(pieces == seq![piece] + split_on(s@.skip(j + 1), ';'));
                assert(pieces.drop_first() =~= split_on(s@.skip(j + 1), ';'));
            }
            assert(pieces[0] == piece);
        }
        let eq = find_char_between(&s, i, j, '=');
        assert(find_char(piece, '=') == eq - i);
        if eq == j {
            return None;
        }
        let (key_lo, key_hi) = trim_range(&s, i, eq);
        proof {
            assert(s@.subrange(i as int, eq as int) =~= piece.take(eq - i));
            assert(s@.subrange(key_lo as int, key_hi as int) == trim(piece.take(eq - i)));
            assert(name_chars@ == name@);
        }
        if range_equals(&s, key_lo, key_hi, &name_chars) {
            let (val_lo, val_hi) = trim_range(&s, eq + 1, j);
            assert(s@.subrange(eq + 1, j as int) =~= piece.skip(eq - i + 1));
            assert(trim(piece.take(eq - i)) == name@);
            assert(cookie_lookup(pieces, name@) == Some(trim(piece.skip(eq - i + 1))));
            return Some(string_of_range(&s, val_lo, val_hi));
        }
        assert(trim(piece.take(eq - i)) != name@);
        assert(cookie_lookup(pieces, name@) == cookie_lookup(pieces.drop_first(), name@));
        if j == s.len() {
            assert(pieces.drop_first() =~= Seq::<Seq<char>>::empty());
            return None;
        }
        i = j + 1;
    }
}

/// The view of an optional string.
pub open spec fn opt_string_view(s: Option<String>) -> Option<Seq<char>> {
    match s {
        Some(t) => Some(t@),
        None => None,
    }
}

// ─── Sessions ─────────────────────────────────────────────────────────

/// A request carries a valid session: the share has no password, or the
/// request's session cookie holds the password hash.
pub open spec fn session_valid(password_hash: Seq<char>, cookie_header: Option<Seq<char>>) -> bool {
    password_hash.len() == 0 || cookie_value(cookie_header, SESSION_COOKIE@) == Some(password_hash)
}

/// Decides [`session_valid`] for a request.
pub fn session_is_valid(password_hash: &str, cookie_header: Option<&str>) -> (ok: bool)
    ensures
        ok == session_valid(password_hash@, opt_view(cookie_header)),
{
    if password_hash.is_empty() {
        return true;
    }
    match get_cookie(cookie_header, SESSION_COOKIE) {
        Some(token) => token == password_hash.to_string(),
        None => false,
    }
}

/// The `Set-Cookie` value that starts a session: the cookie holds the
/// password hash, for the whole site, hidden from scripts, for a year.
pub open spec fn session_set_cookie(password_hash: Seq<char>) -> Seq<char> {
    SESSION_COOKIE@ + "="@ + password_hash + "; Path=/; HttpOnly; Max-Age=31536000"@
}

/// Builds the `Set-Cookie` value that starts a session.
pub fn session_cookie_header(password_hash: &str) -> (r: String)
    ensures
        r@ == session_set_cookie(password_hash@),
{
    let mut r = SESSION_COOKIE.to_string();
    r.append("=");
    r.append(password_hash);
    r.append("; Path=/; HttpOnly; Max-Age=31536000");
    r
}

/// A browser that got the session cookie for a share's password hash, and
/// sends it back as `thlauh_session=<hash>`, has a valid session.
pub proof fn law_session_cookie_accepted(password_hash: Seq<char>)
    requires
        is_password_hash(password_hash),
    ensures
        session_valid(password_hash, Some(SESSION_COOKIE@ + "="@ + password_hash)),
{
    reveal_strlit("thlauh_session");
    reveal_strlit("=");
    let name = SESSION_COOKIE@;
    let h = name + "="@ + password_hash;
    assert(name.len() == 14);
    assert forall|k: int| 0 <= k < h.len() implies h[k] != ';' by {
        if k >= 15 {
            assert(h[k] == password_hash[k - 15]);
            assert(is_hex_char(password_hash[k - 15]));
        }
    }
    lemma_find_char_at(h, ';', h.len() as int);
    assert(split_on(h, ';') == seq![h]);
    assert forall|k: int| 0 <= k < 14 implies h[k] != '=' by {}
    lemma_find_char_at(h, '=', 14);
    assert(h.take(14) =~= name);
    assert(trim_start(name) == name);
    assert(trim_end(name) == name);
    assert(h.skip(15) =~= password_hash);
    assert(is_hex_char(password_hash[0]));
    assert(trim_start(password_hash) == password_hash);
    assert(is_hex_char(password_hash.last()));
    assert(trim_end(password_hash) == password_hash);
    assert(seq![h][0] == h);
}

// ─── Login form ───────────────────────────────────────────────────────

/// What a login attempt leads to.
pub enum LoginOutcome {
    /// The password is right: redirect to `location` (the portal's root),
    /// starting a session with this `Set-Cookie` value.
    Accepted { location: String, set_cookie: String },
    /// The password is wrong: show this login page.
    Rejected { page: String },
}

/// The submitted password matches the share's password hash.
pub open spec fn login_accepted(submitted: Seq<char>, password_hash: Seq<char>) -> bool {
    password_digest_hex(submitted) == password_hash
}

/// `r` is the outcome of logging in with `submitted` on a share with
/// `password_hash`: a session cookie when the password matches, otherwise the
/// login page with the error "Invalid password".
pub open spec fn is_login_outcome(
    r: LoginOutcome,
    submitted: Seq<char>,
    password_hash: Seq<char>,
    theme: Seq<char>,
) -> bool {
    match r {
        LoginOutcome::Accepted { location, set_cookie } => {
            &&& login_accepted(submitted, password_hash)
            &&& location@ == "/"@
            &&& set_cookie@ == session_set_cookie(password_hash)
        },
        LoginOutcome::Rejected { page } => {
            &&& !login_accepted(submitted, password_hash)
            &&& page@ == login_page(theme, Some("Invalid password"@))
        },
    }
}

/// Checks a submitted password against the share's password hash. A share
/// without password (empty hash) accepts no login.
pub fn check_login_password(submitted: &str, password_hash: &str, theme: &str) -> (r: LoginOutcome)
    ensures
        is_login_outcome(r, submitted@, password_hash@, theme@),
        password_hash@.len() == 0 ==> r is Rejected,
{
    let hashed = sha256_hex(submitted);
    if hashed == password_hash.to_string() {
        LoginOutcome::Accepted {
            location: "/".to_string(),
            set_cookie: session_cookie_header(password_hash),
        }
    } else {
        LoginOutcome::Rejected { page: generate_login_html(theme, Some("Invalid password")) }
    }
}

/// Posting the password a share was started with logs in.
pub proof fn law_login_with_share_password(password: Seq<char>)
    requires
        password.len() > 0,
    ensures
        login_accepted(password, stored_password_hash(Some(password))),
{
}

/// The text of a byte string as `String::from_utf8_lossy` reads it, invalid
/// sequences replaced by U+FFFD.
pub uninterp spec fn utf8_lossy(bytes: Seq<u8>) -> Seq<char>;

/// `String::from_utf8_lossy` from std. The replacement of invalid sequences is
/// not written out; on valid UTF-8 the text is the decoded bytes, as the
/// documentation says.
#[verifier::external_body]
pub(crate) fn utf8_lossy_string(bytes: &[u8]) -> (s: String)
    ensures
        s@ == utf8_lossy(bytes@),
        valid_utf8(bytes@) ==> s@ == decode_utf8(bytes@),
{
    String::from_utf8_lossy(bytes).into_owned()
}

/// Index of the first `b` in `s`, or the length of `s` where there is none.
pub open spec fn find_byte(s: Seq<u8>, b: u8) -> nat
    decreases s.len(),
{
    if s.len() == 0 || s[0] == b {
        0
    } else {
        1 + find_byte(s.drop_first(), b)
    }
}

/// A name or value of a form body as text: `+` read as a space, then
/// percent-decoded, then read as UTF-8 with invalid sequences replaced.
pub open spec fn form_decode(b: Seq<u8>) -> Seq<char> {
    utf8_lossy(
        percent_decode_bytes(
            b.map_values(
                |x: u8|
                    if x == 43 {
                        32u8
                    } else {
                        x
                    },
            ),
        ),
    )
}

/// One `name=value` piece of a form body, split at its first `=`; without
/// `=`, the value is empty.
pub open spec fn form_pair(piece: Seq<u8>) -> (Seq<char>, Seq<char>) {
    let i = find_byte(piece, 61);
    if i < piece.len() {
        (form_decode(piece.take(i as int)), form_decode(piece.skip((i + 1) as int)))
    } else {
        (form_decode(piece), form_decode(seq![]))
    }
}

/// The name/value pairs of an `application/x-www-form-urlencoded` body, as
/// `form_urlencoded::parse` yields them: the pieces between `&`, empty ones
/// skipped, each decoded as a pair.
pub open spec fn form_pairs(body: Seq<u8>) -> Seq<(Seq<char>, Seq<char>)>
    decreases body.len(),
{
    if body.len() == 0 {
        seq![]
    } else {
        let i = find_byte(body, 38);
        let rest = if i < body.len() {
            body.skip((i + 1) as int)
        } else {
            seq![]
        };
        let piece = body.take(i as int);
        if piece.len() == 0 {
            form_pairs(rest)
        } else {
            seq![form_pair(piece)] + form_pairs(rest)
        }
    }
}

/// `form_urlencoded::parse`, its pairs collected in order as owned strings.
#[verifier::external_body]
pub(crate) fn parse_form(body: &[u8]) -> (pairs: Vec<(String, String)>)
    ensures
        pairs@.len() == form_pairs(body@).len(),
        forall|k: int|
            0 <= k < pairs@.len() ==> (#[trigger] pairs@[k]).0@ == form_pairs(body@)[k].0
                && pairs@[k].1@ == form_pairs(body@)[k].1,
{
    form_urlencoded::parse(body).into_owned().collect()
}

/// The value of the last pair named `key`: collecting the pairs into a map
/// keeps the last value of each name.
pub open spec fn last_value(pairs: Seq<(Seq<char>, Seq<char>)>, key: Seq<char>) -> Option<Seq<char>>
    decreases pairs.len(),
{
    if pairs.len() == 0 {
        None
    } else if pairs.last().0 == key {
        Some(pairs.last().1)
    } else {
        last_value(pairs.drop_last(), key)
    }
}

/// The password a login form submits: the last `password` field of the body
/// read as text, or empty when there is none.
pub open spec fn submitted_password(body: Seq<u8>) -> Seq<char> {
    match last_value(form_pairs(encode_utf8(utf8_lossy(body))), "password"@) {
        Some(p) => p,
        None => seq![],
    }
}

/// The last value of `key` in parsed form pairs, or empty.
pub fn form_value_or_empty(pairs: &Vec<(String, String)>, key: &str) -> (r: String)
    ensures
        r@ == (match last_value(pairs@.map_values(|p: (String, String)| (p.0@, p.1@)), key@) {
            Some(v) => v,
            None => seq![],
        }),
{
    let ghost views = pairs@.map_values(|p: (String, String)| (p.0@, p.1@));
    let key_string = key.to_string();
    let mut i = pairs.len();
    assert(views.take(i as int) =~= views);
    while i > 0
        invariant
            i <= pairs@.len(),
            key_string@ == key@,
            views == pairs@.map_values(|p: (String, String)| (p.0@, p.1@)),
            last_value(views, key@) == last_value(views.take(i as int), key@),
        decreases i,
    {
        let ghost t = views.take(i as int);
        assert(t.last() == views[i - 1]);
        assert(t.drop_last() =~= views.take(i - 1));
        if pairs[i - 1].0 == key_string {
            return pairs[i - 1].1.clone();
        }
        i = i - 1;
    }
    assert(views.take(0) =~= Seq::<(Seq<char>, Seq<char>)>::empty());
    String::new()
}

/// Handles a submitted login form: reads the body as text, takes its last
/// `password` field (empty when missing) and checks it against the share's
/// password hash.
pub fn login_attempt(body: &[u8], password_hash: &str, theme: &str) -> (r: LoginOutcome)
    ensures
        is_login_outcome(r, submitted_password(body@), password_hash@, theme@),
{
    let text = utf8_lossy_string(body);
    let pairs = parse_form(text.as_str().as_bytes());
    proof {
        let views = pairs@.map_values(|p: (String, String)| (p.0@, p.1@));
        assert(views =~= form_pairs(encode_utf8(utf8_lossy(body@))));
    }
    let submitted = form_value_or_empty(&pairs, "password");
    check_login_password(submitted.as_str(), password_hash, theme)
}

} // verus!
