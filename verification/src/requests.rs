//! What the sharing server does with a request, decided from the request's
//! plain values; the server itself reads files and sends the answers.
use vstd::prelude::*;
use vstd::utf8::{
    decode_utf8,
    encode_utf8,
    encode_utf8_decode_utf8,
    encode_utf8_valid_utf8,
    is_ascii_chars,
    is_ascii_chars_encode_utf8,
    valid_utf8,
};

use crate::auth::{
    cookie_value,
    session_cookie_header,
    SESSION_COOKIE,
    session_is_valid,
    session_set_cookie,
    session_valid,
    utf8_lossy,
    utf8_lossy_string,
};
use crate::messages::{
    download_complete_json,
    download_complete_message,
    download_start_json,
    download_start_message,
    upload_complete_json,
    upload_complete_message,
    upload_start_json,
    upload_start_message,
};
use crate::mime::{get_mime_type, lowered_extension, mime_for_extension, same_text};
use crate::portal::{
    breadcrumb_html,
    directory_page,
    file_items_to_json,
    files_json,
    generate_directory_html,
    generate_login_html,
    json_quoted,
    login_page,
    opt_view,
    FileItem,
};
use crate::text::{
    chars_of,
    decimal,
    range_equals,
    string_of_range,
    u64_to_decimal,
};

verus! {

// ─── Request paths ────────────────────────────────────────────────────

/// Value of an ASCII hexadecimal digit, either case.
pub open spec fn hex_value(b: u8) -> Option<u8> {
    if 48 <= b <= 57 {
        Some((b - 48) as u8)
    } else if 97 <= b <= 102 {
        Some((b - 87) as u8)
    } else if 65 <= b <= 70 {
        Some((b - 55) as u8)
    } else {
        None
    }
}

/// Percent-decoding: `%` followed by two hexadecimal digits becomes the byte
/// they spell; every other byte stands for itself.
pub open spec fn percent_decode_bytes(s: Seq<u8>) -> Seq<u8>
    decreases s.len(),
{
    if s.len() == 0 {
        seq![]
    } else if s[0] == 37 && s.len() >= 3 && hex_value(s[1]) is Some && hex_value(s[2]) is Some {
        seq![(hex_value(s[1])->0 * 16 + hex_value(s[2])->0) as u8] + percent_decode_bytes(
            s.skip(3),
        )
    } else {
        seq![s[0]] + percent_decode_bytes(s.drop_first())
    }
}

/// `percent_encoding::percent_decode_str`, its bytes collected: the contract
/// is the decoding that the crate's iterator performs.
#[verifier::external_body]
pub(crate) fn percent_decode(input: &str) -> (bytes: Vec<u8>)
    ensures
        bytes@ == percent_decode_bytes(encode_utf8(input@)),
{
    percent_encoding::percent_decode_str(input).collect()
}

/// A request path as the server reads it: percent-decoded, then read as
/// UTF-8 text with invalid sequences replaced.
pub open spec fn decoded_path(uri_path: Seq<char>) -> Seq<char> {
    utf8_lossy(percent_decode_bytes(encode_utf8(uri_path)))
}

/// Decodes the path of a request URI. When the decoded bytes are valid
/// UTF-8, the path is the text they encode.
pub fn decode_request_path(uri_path: &str) -> (p: String)
    ensures
        p@ == decoded_path(uri_path@),
        valid_utf8(percent_decode_bytes(encode_utf8(uri_path@))) ==> p@ == decode_utf8(
            percent_decode_bytes(encode_utf8(uri_path@)),
        ),
{
    let bytes = percent_decode(uri_path);
    utf8_lossy_string(bytes.as_slice())
}

/// Bytes without a `%` are left as they are by percent-decoding.
pub proof fn lemma_percent_decode_plain(b: Seq<u8>)
    requires
        forall|i: int| 0 <= i < b.len() ==> b[i] != 37,
    ensures
        percent_decode_bytes(b) == b,
    decreases b.len(),
{
    if b.len() > 0 {
        lemma_percent_decode_plain(b.drop_first());
        assert(seq![b[0]] + b.drop_first() =~= b);
    }
}

/// An ASCII request path without `%` is read as it stands.
pub proof fn law_plain_path_decodes_to_itself(uri_path: Seq<char>)
    requires
        is_ascii_chars(uri_path),
        !uri_path.contains('%'),
    ensures
        valid_utf8(percent_decode_bytes(encode_utf8(uri_path))),
        decode_utf8(percent_decode_bytes(encode_utf8(uri_path))) == uri_path,
{
    broadcast use is_ascii_chars_encode_utf8, encode_utf8_valid_utf8, encode_utf8_decode_utf8;

    let b = encode_utf8(uri_path);
    assert forall|i: int| 0 <= i < b.len() implies b[i] != 37 by {
        assert(uri_path[i] as u8 == b[i]);
        assert(uri_path[i] != '%');
    }
    lemma_percent_decode_plain(b);
}

/// `s` without its leading `/` characters.
pub open spec fn strip_leading_slashes(s: Seq<char>) -> Seq<char>
    decreases s.len(),
{
    if s.len() > 0 && s[0] == '/' {
        strip_leading_slashes(s.drop_first())
    } else {
        s
    }
}

/// `str::trim_start_matches('/')`.
pub fn trim_leading_slashes(s: &str) -> (r: String)
    ensures
        r@ == strip_leading_slashes(s@),
{
    let c = chars_of(s);
    let mut i: usize = 0;
    assert(c@.skip(0) =~= c@);
    while i < c.len() && c[i] == '/'
        invariant
            i <= c@.len(),
            c@ == s@,
            strip_leading_slashes(s@) == strip_leading_slashes(c@.skip(i as int)),
        decreases c@.len() - i,
    {
        assert(c@.skip(i as int).drop_first() =~= c@.skip(i + 1));
        i = i + 1;
    }
    assert(c@.subrange(i as int, c@.len() as int) =~= c@.skip(i as int));
    string_of_range(&c, i, c.len())
}

/// A directory path joined with a relative path, as `Path::join` does it.
pub uninterp spec fn path_join(base: Seq<char>, rest: Seq<char>) -> Seq<char>;

/// `Path::join` from std, the result read back as text. How std joins
/// components is not written out: the result is named as a function of the
/// two paths.
#[verifier::external_body]
pub(crate) fn join_path(base: &str, rest: &str) -> (r: String)
    ensures
        r@ == path_join(base@, rest@),
{
    std::path::Path::new(base).join(rest).to_string_lossy().into_owned()
}

/// Whether a path starts with the components of another, as
/// `Path::starts_with` decides it.
pub uninterp spec fn path_starts_with(path: Seq<char>, base: Seq<char>) -> bool;

/// `Path::starts_with` from std, named as a function of the two paths.
#[verifier::external_body]
pub(crate) fn path_has_prefix(path: &str, base: &str) -> (b: bool)
    ensures
        b == path_starts_with(path@, base@),
{
    std::path::Path::new(path).starts_with(base)
}

/// The last component of a path, as `Path::file_name` gives it (then read as
/// UTF-8).
pub uninterp spec fn path_file_name(path: Seq<char>) -> Option<Seq<char>>;

/// `Path::file_name` from std, named as a function of the path.
#[verifier::external_body]
pub(crate) fn file_name_of(path: &str) -> (name: Option<String>)
    ensures
        match name {
            Some(n) => path_file_name(path@) == Some(n@),
            None => path_file_name(path@) == None::<Seq<char>>,
        },
{
    match std::path::Path::new(path).file_name() {
        Some(n) => n.to_str().map(str::to_string),
        None => None,
    }
}

/// The file system path a request path names inside the share.
pub open spec fn shared_file_path(shared_path: Seq<char>, raw_path: Seq<char>) -> Seq<char> {
    path_join(shared_path, strip_leading_slashes(raw_path))
}

/// Whether `std::path::is_separator` accepts `c` on the platform the library
/// is built for.
pub uninterp spec fn platform_separator(c: char) -> bool;

/// Whether `c` separates path components: `/` on every platform, and `\`
/// where the platform takes it as a separator too (Windows).
pub open spec fn path_separator(c: char) -> bool {
    c == '/' || (c == '\\' && platform_separator('\\'))
}

/// `std::path::is_separator`. Whether `\` is a separator depends on the
/// platform and is named; that `/` is one on every platform and no other
/// character is one but `\`, as std's path documentation says, is stated.
#[verifier::external_body]
pub(crate) fn is_path_separator(c: char) -> (b: bool)
    ensures
        b == platform_separator(c),
        b == path_separator(c),
{
    std::path::is_separator(c)
}

/// Index of the first separator in `s`, or the length of `s` where there is
/// none.
pub open spec fn find_separator(s: Seq<char>) -> nat
    decreases s.len(),
{
    if s.len() == 0 || path_separator(s[0]) {
        0
    } else {
        1 + find_separator(s.drop_first())
    }
}

/// The components of a relative path, as the platform reads them: the
/// pieces between separators, empty ones included.
pub open spec fn path_components(s: Seq<char>) -> Seq<Seq<char>>
    decreases s.len(),
{
    let i = find_separator(s);
    if i >= s.len() {
        seq![s]
    } else {
        seq![s.take(i as int)] + path_components(s.skip((i + 1) as int))
    }
}

/// The first separator is found by scanning for a position with no earlier
/// separator.
proof fn lemma_find_separator_at(s: Seq<char>, i: int)
    requires
        0 <= i <= s.len(),
        forall|k: int| 0 <= k < i ==> !path_separator(s[k]),
        i == s.len() || path_separator(s[i]),
    ensures
        find_separator(s) == i,
    decreases s.len(),
{
    if s.len() > 0 && !path_separator(s[0]) {
        assert forall|k: int| 0 <= k < i - 1 implies !path_separator(s.drop_first()[k]) by {
            assert(s.drop_first()[k] == s[k + 1]);
        }
        lemma_find_separator_at(s.drop_first(), i - 1);
    }
}

/// Index of the first separator in `s[from..]`, or the length of `s`.
fn find_separator_from(s: &Vec<char>, from: usize) -> (i: usize)
    requires
        from <= s@.len(),
    ensures
        from <= i <= s@.len(),
        i - from == find_separator(s@.skip(from as int)),
{
    let mut i = from;
    while i < s.len() && !is_path_separator(s[i])
        invariant
            from <= i <= s@.len(),
            forall|k: int| from <= k < i ==> !path_separator(s@[k]),
        decreases s@.len() - i,
    {
        i = i + 1;
    }
    proof {
        let t = s@.skip(from as int);
        assert forall|k: int| 0 <= k < i - from implies !path_separator(t[k]) by {
            assert(t[k] == s@[k + from]);
        }
        lemma_find_separator_at(t, i - from);
    }
    i
}

/// Whether walking the components `parts` from `depth` levels below the
/// share's directory climbs above it: `.` and empty components stay where
/// they are, `..` goes up one level, and any other component down one.
pub open spec fn climbs_out(parts: Seq<Seq<char>>, depth: nat) -> bool
    decreases parts.len(),
{
    if parts.len() == 0 {
        false
    } else if parts[0] == ".."@ {
        depth == 0 || climbs_out(parts.drop_first(), (depth - 1) as nat)
    } else if parts[0] == "."@ || parts[0].len() == 0 {
        climbs_out(parts.drop_first(), depth)
    } else {
        climbs_out(parts.drop_first(), depth + 1)
    }
}

/// The relative path `rel`, its `.` and `..` components resolved lexically,
/// names something outside the directory it is taken from.
pub open spec fn leaves_share(rel: Seq<char>) -> bool {
    climbs_out(path_components(rel), 0)
}

/// Decides whether a relative path climbs out of the directory it is taken
/// from.
pub fn path_leaves_share(rel: &str) -> (b: bool)
    ensures
        b == leaves_share(rel@),
{
    proof {
        reveal_strlit(".");
        reveal_strlit("..");
    }
    let c = chars_of(rel);
    let dot = chars_of(".");
    let dot_dot = chars_of("..");
    let n = c.len();
    let mut from: usize = 0;
    let mut depth: usize = 0;
    assert(c@.skip(0) =~= c@);
    loop
        invariant
            from <= n == c@.len(),
            depth <= from,
            c@ == rel@,
            dot@ == "."@,
            dot_dot@ == ".."@,
            leaves_share(rel@) == climbs_out(path_components(c@.skip(from as int)), depth as nat),
        decreases n - from,
    {
        let i = find_separator_from(&c, from);
        let ghost t = c@.skip(from as int);
        let ghost piece = c@.subrange(from as int, i as int);
        let ghost rest = if i < n {
            path_components(c@.skip(i + 1))
        } else {
            Seq::<Seq<char>>::empty()
        };
        proof {
            if i < n {
                assert(t.take(i - from) =~= piece);
                assert(t.skip(i - from + 1) =~= c@.skip(i + 1));
            } else {
                assert(t =~= piece);
            }
            assert(path_components(t) =~= seq![piece] + rest);
            assert((seq![piece] + rest).drop_first() =~= rest);
            assert(!climbs_out(Seq::<Seq<char>>::empty(), depth as nat));
            assert(depth > 0 ==> !climbs_out(Seq::<Seq<char>>::empty(), (depth - 1) as nat));
            assert(!climbs_out(Seq::<Seq<char>>::empty(), (depth + 1) as nat));
        }
        if range_equals(&c, from, i, &dot_dot) {
            if depth == 0 {
                return true;
            }
            depth = depth - 1;
        } else if i == from || range_equals(&c, from, i, &dot) {
        } else {
            depth = depth + 1;
        }
        if i == n {
            return false;
        }
        from = i + 1;
    }
}

// ─── GET ──────────────────────────────────────────────────────────────

/// What to do with a GET request before any file is looked at.
pub enum GetDecision {
    /// The right token was given: redirect to `location`, starting a session.
    Redirect { location: String, set_cookie: String },
    /// No valid session: show the login page.
    LoginPage { html: String },
    /// The path leads out of the shared directory: "Access denied".
    Forbidden,
    /// Serve what lies at `file_path`.
    Resolve { file_path: String },
}

/// `r` is the decision for a GET request of the decoded path `raw_path` on a
/// share of `shared_path` with `password_hash`: a password-protected share
/// trades the right `token` for a session and shows the login page to a
/// request without a session; then a path outside the share is refused: one
/// whose `..` components, resolved lexically, climb above the shared
/// directory, or whose joined path does not start with the shared directory.
pub open spec fn is_get_decision(
    r: GetDecision,
    shared_path: Seq<char>,
    password_hash: Seq<char>,
    theme: Seq<char>,
    token: Option<Seq<char>>,
    cookie_header: Option<Seq<char>>,
    raw_path: Seq<char>,
) -> bool {
    let file_path = shared_file_path(shared_path, raw_path);
    if password_hash.len() > 0 && token == Some(password_hash) {
        r matches GetDecision::Redirect { location, set_cookie } && location@ == raw_path
            && set_cookie@ == session_set_cookie(password_hash)
    } else if !session_valid(password_hash, cookie_header) {
        r matches GetDecision::LoginPage { html } && html@ == login_page(theme, None)
    } else if leaves_share(strip_leading_slashes(raw_path)) || !path_starts_with(
        file_path,
        shared_path,
    ) {
        r is Forbidden
    } else {
        r matches GetDecision::Resolve { file_path: p } && p@ == file_path
    }
}

/// Decides what to do with a GET request.
pub fn decide_get(
    shared_path: &str,
    password_hash: &str,
    theme: &str,
    token: Option<&str>,
    cookie_header: Option<&str>,
    raw_path: &str,
) -> (r: GetDecision)
    ensures
        is_get_decision(
            r,
            shared_path@,
            password_hash@,
            theme@,
            opt_view(token),
            opt_view(cookie_header),
            raw_path@,
        ),
{
    if !password_hash.is_empty() {
        if let Some(t) = token {
            if same_text(t, password_hash) {
                return GetDecision::Redirect {
                    location: raw_path.to_string(),
                    set_cookie: session_cookie_header(password_hash),
                };
            }
        }
    }
    if !session_is_valid(password_hash, cookie_header) {
        return GetDecision::LoginPage { html: generate_login_html(theme, None) };
    }
    let suffix = trim_leading_slashes(raw_path);
    if path_leaves_share(suffix.as_str()) {
        return GetDecision::Forbidden;
    }
    let file_path = join_path(shared_path, suffix.as_str());
    if !path_has_prefix(file_path.as_str(), shared_path) {
        return GetDecision::Forbidden;
    }
    GetDecision::Resolve { file_path }
}

/// A share without password answers every GET request without asking for a
/// login: the request is served, or refused when its path leaves the share.
pub proof fn law_open_share_asks_no_login(
    r: GetDecision,
    shared_path: Seq<char>,
    theme: Seq<char>,
    token: Option<Seq<char>>,
    cookie_header: Option<Seq<char>>,
    raw_path: Seq<char>,
)
    requires
        is_get_decision(r, shared_path, seq![], theme, token, cookie_header, raw_path),
    ensures
        r is Forbidden || r is Resolve,
{
}

/// Every path the server resolves stays inside the share: its `..`
/// components, resolved lexically, never climb above the shared directory,
/// and the joined path starts with the shared directory.
pub proof fn law_resolved_paths_stay_in_share(
    r: GetDecision,
    shared_path: Seq<char>,
    password_hash: Seq<char>,
    theme: Seq<char>,
    token: Option<Seq<char>>,
    cookie_header: Option<Seq<char>>,
    raw_path: Seq<char>,
)
    requires
        is_get_decision(r, shared_path, password_hash, theme, token, cookie_header, raw_path),
    ensures
        r matches GetDecision::Resolve { file_path } ==> {
            &&& !leaves_share(strip_leading_slashes(raw_path))
            &&& file_path@ == shared_file_path(shared_path, raw_path)
            &&& path_starts_with(file_path@, shared_path)
        },
{
}

/// A relative path whose first component is `..` names something outside
/// the directory it is taken from.
pub proof fn lemma_parent_first_leaves(rest: Seq<char>)
    requires
        rest.len() == 0 || path_separator(rest[0]),
    ensures
        leaves_share(".."@ + rest),
{
    reveal_strlit("..");
    let s = ".."@ + rest;
    lemma_find_separator_at(s, 2);
    assert(s.take(2) =~= ".."@);
    if rest.len() == 0 {
        assert(s =~= ".."@);
    }
}

/// A request that gets past the login checks is refused when its path, past
/// its leading slashes, starts with the component `..`: the share's parent is
/// never served.
pub proof fn law_parent_path_refused(
    r: GetDecision,
    shared_path: Seq<char>,
    password_hash: Seq<char>,
    theme: Seq<char>,
    token: Option<Seq<char>>,
    cookie_header: Option<Seq<char>>,
    raw_path: Seq<char>,
    rest: Seq<char>,
)
    requires
        is_get_decision(r, shared_path, password_hash, theme, token, cookie_header, raw_path),
        strip_leading_slashes(raw_path) == ".."@ + rest,
        rest.len() == 0 || path_separator(rest[0]),
        !(r is Redirect),
        !(r is LoginPage),
    ensures
        r is Forbidden,
{
    lemma_parent_first_leaves(rest);
}

/// A password-protected share trades the right token for a session on any
/// path, and shows the login page to a request with neither a matching token
/// nor a session.
pub proof fn law_protected_share_needs_session(
    r: GetDecision,
    shared_path: Seq<char>,
    password_hash: Seq<char>,
    theme: Seq<char>,
    token: Option<Seq<char>>,
    cookie_header: Option<Seq<char>>,
    raw_path: Seq<char>,
)
    requires
        password_hash.len() > 0,
        is_get_decision(r, shared_path, password_hash, theme, token, cookie_header, raw_path),
    ensures
        token == Some(password_hash) ==> r is Redirect,
        token != Some(password_hash) && cookie_value(cookie_header, SESSION_COOKIE@) != Some(
            password_hash,
        ) ==> r is LoginPage,
{
}

/// Whether an optional query value is `true`.
pub open spec fn flag_set(flag: Option<Seq<char>>) -> bool {
    flag == Some("true"@)
}

/// Decides whether an optional query value is `true`.
pub fn flag_is_true(flag: Option<&str>) -> (b: bool)
    ensures
        b == flag_set(opt_view(flag)),
{
    match flag {
        Some(f) => same_text(f, "true"),
        None => false,
    }
}

/// The body of the answer for a directory.
pub enum DirectoryBody {
    /// The listing as JSON, served as `application/json; charset=utf-8`.
    Json(String),
    /// The portal page.
    Html(String),
}

/// Answers a request for a directory with its listing: as JSON when the query
/// asks `json=true`, otherwise as the portal page.
pub fn directory_response(
    files: &[FileItem],
    json_flag: Option<&str>,
    dir_path: &str,
    raw_path: &str,
    theme: &str,
) -> (r: DirectoryBody)
    ensures
        flag_set(opt_view(json_flag)) ==> (r matches DirectoryBody::Json(j) && j@ == files_json(
            files@,
        )),
        !flag_set(opt_view(json_flag)) ==> (r matches DirectoryBody::Html(h) && h@
            == directory_page(
            theme@,
            breadcrumb_html(raw_path@),
            files@.len(),
            json_quoted(raw_path@),
            files_json(files@),
        )),
{
    if flag_is_true(json_flag) {
        DirectoryBody::Json(file_items_to_json(files))
    } else {
        DirectoryBody::Html(generate_directory_html(dir_path, raw_path, files, theme))
    }
}

/// How a file is sent.
pub struct FileAnswer {
    /// `Content-Type`.
    pub content_type: String,
    /// `Content-Length`.
    pub content_length: String,
    /// `Content-Disposition`, for downloads.
    pub content_disposition: Option<String>,
    /// Message to broadcast when the download starts.
    pub start_message: Option<String>,
    /// Message to broadcast once the download is under way.
    pub complete_message: Option<String>,
}

/// The name under which a file is downloaded: its last path component, or
/// `file`.
pub open spec fn download_name(file_path: Seq<char>) -> Seq<char> {
    match path_file_name(file_path) {
        Some(n) => n,
        None => "file"@,
    }
}

/// Decides how to send a file of `file_size` bytes: a preview is sent inline
/// under the type of its extension, with no message; otherwise it is a
/// download of bytes named after the file, announced to connected browsers.
pub fn file_response(file_path: &str, file_size: u64, preview_flag: Option<&str>) -> (r: FileAnswer)
    ensures
        r.content_length@ == decimal(file_size as nat),
        flag_set(opt_view(preview_flag)) ==> {
            &&& r.content_type@ == mime_for_extension(lowered_extension(file_path@))
            &&& r.content_disposition is None
            &&& r.start_message is None
            &&& r.complete_message is None
        },
        !flag_set(opt_view(preview_flag)) ==> {
            &&& r.content_type@ == "application/octet-stream"@
            &&& r.content_disposition matches Some(d) && d@ == "attachment; filename=\""@
                + download_name(file_path@) + "\""@
            &&& r.start_message matches Some(m) && m@ == download_start_json(
                download_name(file_path@),
                file_size as nat,
            )
            &&& r.complete_message matches Some(m) && m@ == download_complete_json(
                download_name(file_path@),
            )
        },
{
    let length = u64_to_decimal(file_size);
    if flag_is_true(preview_flag) {
        return FileAnswer {
            content_type: get_mime_type(file_path).to_string(),
            content_length: length,
            content_disposition: None,
            start_message: None,
            complete_message: None,
        };
    }
    let name = match file_name_of(file_path) {
        Some(n) => n,
        None => "file".to_string(),
    };
    let mut disposition = "attachment; filename=\"".to_string();
    disposition.append(name.as_str());
    disposition.append("\"");
    FileAnswer {
        content_type: "application/octet-stream".to_string(),
        content_length: length,
        content_disposition: Some(disposition),
        start_message: Some(download_start_message(name.as_str(), file_size)),
        complete_message: Some(download_complete_message(name.as_str())),
    }
}

// ─── POST ─────────────────────────────────────────────────────────────

/// What to do with a POST request before its body is read.
pub enum PostDecision {
    /// A login form: check its password.
    Login,
    /// No valid session: show the login page.
    LoginPage { html: String },
    /// Store the uploaded files in `upload_dir`.
    Upload { upload_dir: String },
}

/// `r` is the decision for a POST of the decoded path `raw_path`: `/login`
/// is the login form; otherwise a session is needed, and the files go to the
/// directory the path names.
pub open spec fn is_post_decision(
    r: PostDecision,
    shared_path: Seq<char>,
    password_hash: Seq<char>,
    theme: Seq<char>,
    cookie_header: Option<Seq<char>>,
    raw_path: Seq<char>,
) -> bool {
    if raw_path == "/login"@ {
        r is Login
    } else if !session_valid(password_hash, cookie_header) {
        r matches PostDecision::LoginPage { html } && html@ == login_page(theme, None)
    } else {
        r matches PostDecision::Upload { upload_dir } && upload_dir@ == shared_file_path(
            shared_path,
            raw_path,
        )
    }
}

/// Decides what to do with a POST request.
pub fn decide_post(
    shared_path: &str,
    password_hash: &str,
    theme: &str,
    cookie_header: Option<&str>,
    raw_path: &str,
) -> (r: PostDecision)
    ensures
        is_post_decision(
            r,
            shared_path@,
            password_hash@,
            theme@,
            opt_view(cookie_header),
            raw_path@,
        ),
{
    if same_text(raw_path, "/login") {
        return PostDecision::Login;
    }
    if !session_is_valid(password_hash, cookie_header) {
        return PostDecision::LoginPage { html: generate_login_html(theme, None) };
    }
    let suffix = trim_leading_slashes(raw_path);
    PostDecision::Upload { upload_dir: join_path(shared_path, suffix.as_str()) }
}

/// A share without password takes uploads without a session; only `/login`
/// is treated as a login form.
pub proof fn law_open_share_posts_need_no_session(
    r: PostDecision,
    shared_path: Seq<char>,
    theme: Seq<char>,
    cookie_header: Option<Seq<char>>,
    raw_path: Seq<char>,
)
    requires
        is_post_decision(r, shared_path, seq![], theme, cookie_header, raw_path),
    ensures
        r is Login || r is Upload,
{
}

/// On a password-protected share, a POST other than `/login` is stored into
/// the folder its path names inside the share exactly when the request
/// carries the share's session cookie (`thlauh_session` equal to the password
/// hash); without it the login page is shown.
pub proof fn law_session_cookie_allows_upload(
    r: PostDecision,
    shared_path: Seq<char>,
    password_hash: Seq<char>,
    theme: Seq<char>,
    cookie_header: Option<Seq<char>>,
    raw_path: Seq<char>,
)
    requires
        is_post_decision(r, shared_path, password_hash, theme, cookie_header, raw_path),
        password_hash.len() > 0,
        raw_path != "/login"@,
    ensures
        cookie_value(cookie_header, SESSION_COOKIE@) == Some(password_hash) ==> (r matches PostDecision::Upload {
            upload_dir,
        } && upload_dir@ == path_join(shared_path, strip_leading_slashes(raw_path))),
        cookie_value(cookie_header, SESSION_COOKIE@) != Some(password_hash) ==> (r matches PostDecision::LoginPage {
            html,
        } && html@ == login_page(theme, None)),
{
}

/// A GET that carries the share's session cookie never gets the login page.
pub proof fn law_session_cookie_skips_login_page(
    r: GetDecision,
    shared_path: Seq<char>,
    password_hash: Seq<char>,
    theme: Seq<char>,
    token: Option<Seq<char>>,
    cookie_header: Option<Seq<char>>,
    raw_path: Seq<char>,
)
    requires
        is_get_decision(r, shared_path, password_hash, theme, token, cookie_header, raw_path),
        cookie_value(cookie_header, SESSION_COOKIE@) == Some(password_hash),
    ensures
        !(r is LoginPage),
{
}

/// Whether a `Content-Type` announces multipart form data (an unreadable or
/// missing header counts as empty).
pub fn is_multipart(content_type: Option<&str>) -> (b: bool)
    ensures
        b == (match opt_view(content_type) {
            Some(t) => t.len() >= 19 && t.take(19) == "multipart/form-data"@,
            None => false,
        }),
{
    match content_type {
        Some(t) => {
            let c = chars_of(t);
            let prefix = chars_of("multipart/form-data");
            proof {
                reveal_strlit("multipart/form-data");
                assert(prefix@.len() == 19);
            }
            if c.len() < prefix.len() {
                return false;
            }
            let mut k: usize = 0;
            while k < prefix.len()
                invariant
                    content_type == Some(t),
                    prefix@ == "multipart/form-data"@,
                    prefix@.len() == 19,
                    c@ == t@,
                    c@.len() >= 19,
                    k <= 19,
                    forall|m: int| 0 <= m < k ==> c@[m] == prefix@[m],
                decreases 19 - k,
            {
                if c[k] != prefix[k] {
                    assert(c@.take(19)[k as int] != prefix@[k as int]);
                    assert(c@.take(19) != prefix@);
                    return false;
                }
                k = k + 1;
            }
            assert(c@.take(19) =~= prefix@);
            true
        },
        None => false,
    }
}

/// Bookkeeping of one upload request, field by field.
pub struct UploadProgress {
    /// Files stored so far.
    pub uploaded: u32,
    /// Name of the last file seen.
    pub last_filename: String,
}

/// The name under which an uploaded field is stored: its file name, or
/// `uploaded_file`.
pub open spec fn upload_name(field_name: Option<Seq<char>>) -> Seq<char> {
    match field_name {
        Some(n) => n,
        None => "uploaded_file"@,
    }
}

impl UploadProgress {
    /// No file seen yet.
    pub fn new() -> (p: Self)
        ensures
            p.uploaded == 0,
            p.last_filename@ == "File"@,
    {
        UploadProgress { uploaded: 0, last_filename: "File".to_string() }
    }

    /// A new field arrives: returns the name to store it under and the
    /// message that its upload has started; it becomes the last file seen.
    pub fn start_field(&mut self, field_name: Option<&str>) -> (r: (String, String))
        ensures
            r.0@ == upload_name(opt_view(field_name)),
            r.1@ == upload_start_json(upload_name(opt_view(field_name))),
            final(self).last_filename@ == upload_name(opt_view(field_name)),
            final(self).uploaded == old(self).uploaded,
    {
        let name = match field_name {
            Some(n) => n.to_string(),
            None => "uploaded_file".to_string(),
        };
        self.last_filename = name.clone();
        let message = upload_start_message(name.as_str());
        (name, message)
    }

    /// A field's file was stored.
    pub fn file_saved(&mut self)
        requires
            old(self).uploaded < u32::MAX,
        ensures
            final(self).uploaded == old(self).uploaded + 1,
            final(self).last_filename == old(self).last_filename,
    {
        self.uploaded = self.uploaded + 1;
    }

    /// The message to send when the request is done: that the upload of the
    /// last file completed, when any file was stored.
    pub fn completion_message(&self) -> (m: Option<String>)
        ensures
            self.uploaded > 0 ==> (m matches Some(t) && t@ == upload_complete_json(
                self.last_filename@,
            )),
            self.uploaded == 0 ==> m is None,
    {
        if self.uploaded > 0 {
            Some(upload_complete_message(self.last_filename.as_str()))
        } else {
            None
        }
    }
}

// ─── WebSocket ────────────────────────────────────────────────────────

/// What happened on an open WebSocket connection.
pub enum SocketEvent {
    /// A message to broadcast, or `None` when the broadcast channel failed.
    Broadcast(Option<String>),
    /// The browser sent a message (`true`) or the socket closed or failed.
    Client(bool),
}

/// What the connection does next.
pub enum SocketAction {
    /// Send this text to the browser.
    Send(String),
    /// Nothing: messages from browsers are ignored.
    Ignore,
    /// Close the connection.
    Close,
}

/// One step of a WebSocket connection: broadcasts are forwarded, browser
/// messages ignored, and any failure closes the connection.
pub fn socket_step(event: SocketEvent) -> (a: SocketAction)
    ensures
        match event {
            SocketEvent::Broadcast(Some(text)) => a matches SocketAction::Send(t) && t == text,
            SocketEvent::Broadcast(None) => a is Close,
            SocketEvent::Client(true) => a is Ignore,
            SocketEvent::Client(false) => a is Close,
        },
{
    match event {
        SocketEvent::Broadcast(Some(text)) => SocketAction::Send(text),
        SocketEvent::Broadcast(None) => SocketAction::Close,
        SocketEvent::Client(true) => SocketAction::Ignore,
        SocketEvent::Client(false) => SocketAction::Close,
    }
}

} // verus!
