//! The HTML pages of the web portal that remote browsers see.
use vstd::prelude::*;

use crate::templates::{
    BACK_LINK_CLOSE,
    BACK_LINK_OPEN,
    CRUMB_CLOSE,
    CRUMB_MID,
    CRUMB_OPEN,
    DIR_PAGE_CLOSE,
    DIR_PAGE_OPEN,
    DIR_PAGE_TO_BREADCRUMB,
    DIR_PAGE_TO_FILES,
    DIR_PAGE_TO_FILE_COUNT,
    DIR_PAGE_TO_REQ_PATH,
    LOGIN_ERROR_CLOSE,
    LOGIN_ERROR_OPEN,
    LOGIN_PAGE_CLOSE,
    LOGIN_PAGE_OPEN,
    LOGIN_PAGE_TO_ERROR,
    ROOT_LINK,
};
use crate::text::{
    chars_of,
    decimal,
    hex_digit,
    find_char_from,
    lemma_find_char,
    split_on,
    string_of_range,
    u64_to_decimal,
};

verus! {

/// One entry of a shared directory, as the portal lists it.
#[derive(Debug, PartialEq, Eq)]
pub struct FileItem {
    pub name: String,
    pub is_directory: bool,
    pub size: u64,
}

// ─── JSON text ────────────────────────────────────────────────────────

/// How `serde_json` writes one character inside a JSON string: `"` and `\`
/// and the control characters below U+0020 are escaped, the short forms
/// `\b \t \n \f \r` where they exist and `\u00XX` (lowercase hex) otherwise;
/// every other character stands for itself.
pub open spec fn json_escape_char(c: char) -> Seq<char> {
    let u = c as u32;
    if c == '"' {
        seq!['\\', '"']
    } else if c == '\\' {
        seq!['\\', '\\']
    } else if u == 0x08 {
        seq!['\\', 'b']
    } else if u == 0x09 {
        seq!['\\', 't']
    } else if u == 0x0A {
        seq!['\\', 'n']
    } else if u == 0x0C {
        seq!['\\', 'f']
    } else if u == 0x0D {
        seq!['\\', 'r']
    } else if u < 0x20 {
        seq!['\\', 'u', '0', '0', hex_digit((u / 16) as nat), hex_digit((u % 16) as nat)]
    } else {
        seq![c]
    }
}

/// The characters of `s`, each escaped by [`json_escape_char`].
pub open spec fn json_escape(s: Seq<char>) -> Seq<char>
    decreases s.len(),
{
    if s.len() == 0 {
        seq![]
    } else {
        json_escape(s.drop_last()) + json_escape_char(s.last())
    }
}

/// `s` as a JSON string literal, quotes included.
pub open spec fn json_quoted(s: Seq<char>) -> Seq<char> {
    seq!['"'] + json_escape(s) + seq!['"']
}

/// `serde_json::to_string` on a `&str`. Its contract states the escaping of
/// `serde_json`'s serializer (the `ESCAPE` table and `format_escaped_str`);
/// serializing a string does not fail.
#[verifier::external_body]
pub(crate) fn json_string(s: &str) -> (r: String)
    ensures
        r@ == json_quoted(s@),
{
    match serde_json::to_string(s) {
        Ok(text) => text,
        Err(_) => String::new(),
    }
}

/// One listing entry as a JSON object, its fields in declaration order and
/// named as the browser script reads them.
pub open spec fn file_item_json(item: FileItem) -> Seq<char> {
    "{\"name\":"@ + json_quoted(item.name@) + ",\"isDirectory\":"@ + (if item.is_directory {
        "true"@
    } else {
        "false"@
    }) + ",\"size\":"@ + decimal(item.size as nat) + "}"@
}

/// The JSON objects of `items`, separated by commas.
pub open spec fn file_items_json(items: Seq<FileItem>) -> Seq<char>
    decreases items.len(),
{
    if items.len() == 0 {
        seq![]
    } else if items.len() == 1 {
        file_item_json(items[0])
    } else {
        file_items_json(items.drop_last()) + ","@ + file_item_json(items.last())
    }
}

/// The JSON array of a listing, as `serde_json::to_string` writes a slice of
/// entries.
pub open spec fn files_json(items: Seq<FileItem>) -> Seq<char> {
    "["@ + file_items_json(items) + "]"@
}

/// Appends the JSON object of one entry.
fn push_file_item_json(out: &mut String, item: &FileItem)
    ensures
        final(out)@ == old(out)@ + file_item_json(*item),
{
    let ghost start = out@;
    out.append("{\"name\":");
    let name = json_string(item.name.as_str());
    out.append(name.as_str());
    out.append(",\"isDirectory\":");
    if item.is_directory {
        out.append("true");
    } else {
        out.append("false");
    }
    out.append(",\"size\":");
    let size = u64_to_decimal(item.size);
    out.append(size.as_str());
    out.append("}");
    assert(out@ =~= start + file_item_json(*item));
}

/// The JSON array of a listing.
pub fn file_items_to_json(items: &[FileItem]) -> (r: String)
    ensures
        r@ == files_json(items@),
{
    let mut out = "[".to_string();
    let mut i: usize = 0;
    while i < items.len()
        invariant
            i <= items@.len(),
            out@ == "["@ + file_items_json(items@.take(i as int)),
        decreases items@.len() - i,
    {
        let ghost before = out@;
        if i > 0 {
            out.append(",");
        }
        push_file_item_json(&mut out, &items[i]);
        proof {
            let t = items@.take(i + 1);
            assert(t.drop_last() =~= items@.take(i as int));
            if i == 0 {
                assert(items@.take(0) =~= Seq::<FileItem>::empty());
                assert(file_items_json(items@.take(0)) =~= Seq::<char>::empty());
            }
            assert(out@ =~= "["@ + file_items_json(t));
        }
        i = i + 1;
    }
    assert(items@.take(items@.len() as int) =~= items@);
    out.append("]");
    out
}

// ─── Breadcrumb trail ─────────────────────────────────────────────────

/// `pieces` without its empty pieces.
pub open spec fn drop_empty(pieces: Seq<Seq<char>>) -> Seq<Seq<char>>
    decreases pieces.len(),
{
    if pieces.len() == 0 {
        pieces
    } else if pieces[0].len() == 0 {
        drop_empty(pieces.drop_first())
    } else {
        seq![pieces[0]] + drop_empty(pieces.drop_first())
    }
}

/// The folder names along a request path: its `/`-separated parts that are
/// not empty.
pub open spec fn path_segments(path: Seq<char>) -> Seq<Seq<char>> {
    drop_empty(split_on(path, '/'))
}

/// `/a/b/…` made of the first `k` segments.
pub open spec fn prefix_path(segments: Seq<Seq<char>>, k: int) -> Seq<char>
    decreases k,
{
    if k <= 0 {
        seq![]
    } else {
        prefix_path(segments, k - 1) + "/"@ + segments[k - 1]
    }
}

/// One link per segment, each to the path that ends with it.
pub open spec fn crumb_links(segments: Seq<Seq<char>>, k: int) -> Seq<char>
    decreases k,
{
    if k <= 0 {
        seq![]
    } else {
        crumb_links(segments, k - 1) + CRUMB_OPEN@ + prefix_path(segments, k) + CRUMB_MID@
            + segments[k - 1] + CRUMB_CLOSE@
    }
}

/// Target of the "up one folder" button: all segments but the last, or `/`.
pub open spec fn parent_path(segments: Seq<Seq<char>>) -> Seq<char> {
    if segments.len() > 1 {
        prefix_path(segments, segments.len() - 1)
    } else {
        "/"@
    }
}

/// The breadcrumb trail of a request path: the root link and one link per
/// segment, preceded by the "up one folder" button when the path has a
/// segment.
pub open spec fn breadcrumb_html(req_path: Seq<char>) -> Seq<char> {
    let segments = path_segments(req_path);
    let trail = ROOT_LINK@ + crumb_links(segments, segments.len() as int);
    if segments.len() == 0 {
        trail
    } else {
        BACK_LINK_OPEN@ + parent_path(segments) + BACK_LINK_CLOSE@ + trail
    }
}

/// The "up one folder" button of a page leads to the folder that holds it:
/// for a page `n >= 2` folders deep, its link followed by `/` and the page's
/// last folder name is the link of the page's own (last) crumb; one folder
/// deep, it leads to `/`.
pub proof fn law_up_link_is_parent_folder(req_path: Seq<char>)
    requires
        path_segments(req_path).len() > 0,
    ensures
        ({
            let segments = path_segments(req_path);
            let n = segments.len() as int;
            let up = parent_path(segments);
            &&& breadcrumb_html(req_path) == BACK_LINK_OPEN@ + up + BACK_LINK_CLOSE@ + ROOT_LINK@
                + crumb_links(segments, n)
            &&& n >= 2 ==> up + "/"@ + segments[n - 1] == prefix_path(segments, n)
            &&& n == 1 ==> up == "/"@
        }),
{
}

/// The segments of `path`, as strings.
pub fn request_segments(path: &str) -> (segs: Vec<String>)
    ensures
        segs@.len() == path_segments(path@).len(),
        forall|k: int| 0 <= k < segs@.len() ==> #[trigger] segs@[k]@ == path_segments(path@)[k],
{
    let p = chars_of(path);
    let mut segs: Vec<String> = Vec::new();
    let ghost mut done: Seq<Seq<char>> = seq![];
    let mut i: usize = 0;
    assert(p@.skip(0) =~= p@);
    assert(done + drop_empty(split_on(p@, '/')) =~= drop_empty(split_on(p@, '/')));
    loop
        invariant
            i <= p@.len(),
            p@ == path@,
            segs@.len() == done.len(),
            forall|k: int| 0 <= k < segs@.len() ==> #[trigger] segs@[k]@ == done[k],
            path_segments(path@) == done + drop_empty(split_on(p@.skip(i as int), '/')),
        decreases p@.len() - i,
    {
        let j = find_char_from(&p, i, '/');
        let ghost rest = p@.skip(i as int);
        proof {
            lemma_find_char(rest, '/');
        }
        let piece = string_of_range(&p, i, j);
        assert(piece@ =~= rest.take(j - i));
        if j == p.len() {
            assert(rest.take(j - i) =~= rest);
            assert(split_on(rest, '/') == seq![rest]);
            let ghost tail = seq![rest].drop_first();
            assert(tail =~= Seq::<Seq<char>>::empty());
            assert(drop_empty(tail) == tail);
            assert(seq![rest][0] == rest);
            if j > i {
                segs.push(piece);
                proof {
                    done = done.push(rest);
                    assert(drop_empty(seq![rest]) =~= seq![rest]);
                }
            } else {
                assert(drop_empty(seq![rest]) =~= Seq::<Seq<char>>::empty());
            }
            assert(path_segments(path@) =~= done);
            return segs;
        }
        let ghost next = p@.skip(j + 1);
        proof {
            assert(rest.skip(j - i + 1) =~= next);
            assert(split_on(rest, '/') == seq![rest.take(j - i)] + split_on(next, '/'));
            let pieces = seq![rest.take(j - i)] + split_on(next, '/');
            assert(pieces.drop_first() =~= split_on(next, '/'));
        }
        if j > i {
            segs.push(piece);
            proof {
                let old_done = done;
                done = done.push(rest.take(j - i));
                assert(old_done + (seq![rest.take(j - i)] + drop_empty(split_on(next, '/')))
                    =~= done + drop_empty(split_on(next, '/')));
            }
        }
        i = j + 1;
    }
}

/// Builds the breadcrumb trail of a request path.
pub fn breadcrumb_trail(req_path: &str) -> (r: String)
    ensures
        r@ == breadcrumb_html(req_path@),
{
    let segs = request_segments(req_path);
    let ghost segments = path_segments(req_path@);
    let n = segs.len();
    let mut trail = ROOT_LINK.to_string();
    let mut accumulated = String::new();
    let mut parent = "/".to_string();
    let mut k: usize = 0;
    while k < n
        invariant
            n == segs@.len() == segments.len(),
            k <= n,
            forall|m: int| 0 <= m < segs@.len() ==> #[trigger] segs@[m]@ == segments[m],
            accumulated@ == prefix_path(segments, k as int),
            trail@ == ROOT_LINK@ + crumb_links(segments, k as int),
            k < n ==> parent@ == "/"@,
            k == n ==> parent@ == parent_path(segments),
        decreases n - k,
    {
        if k + 1 == n && k >= 1 {
            parent = accumulated.clone();
        }
        accumulated.append("/");
        accumulated.append(segs[k].as_str());
        trail.append(CRUMB_OPEN);
        trail.append(accumulated.as_str());
        trail.append(CRUMB_MID);
        trail.append(segs[k].as_str());
        trail.append(CRUMB_CLOSE);
        k = k + 1;
    }
    if n == 0 {
        trail
    } else {
        let mut out = BACK_LINK_OPEN.to_string();
        out.append(parent.as_str());
        out.append(BACK_LINK_CLOSE);
        out.append(trail.as_str());
        out
    }
}

// ─── Pages ────────────────────────────────────────────────────────────

/// The directory page, with its five values in place.
pub open spec fn directory_page(
    theme: Seq<char>,
    breadcrumb: Seq<char>,
    file_count: nat,
    req_path_json: Seq<char>,
    files: Seq<char>,
) -> Seq<char> {
    DIR_PAGE_OPEN@ + theme + DIR_PAGE_TO_BREADCRUMB@ + breadcrumb + DIR_PAGE_TO_FILE_COUNT@
        + decimal(file_count) + DIR_PAGE_TO_REQ_PATH@ + req_path_json + DIR_PAGE_TO_FILES@ + files
        + DIR_PAGE_CLOSE@
}

/// Generates the web portal page that remote browsers see for a shared
/// directory: the theme class, the breadcrumb trail of `req_path`, the number
/// of entries, and `req_path` and the entries as JSON for the page's script.
/// The file system path of the directory is not shown.
pub fn generate_directory_html(_dir_path: &str, req_path: &str, files: &[FileItem], theme: &str) -> (html: String)
    ensures
        html@ == directory_page(
            theme@,
            breadcrumb_html(req_path@),
            files@.len(),
            json_quoted(req_path@),
            files_json(files@),
        ),
{
    let breadcrumb = breadcrumb_trail(req_path);
    let files_text = file_items_to_json(files);
    let req_path_text = json_string(req_path);
    let count = u64_to_decimal(files.len() as u64);
    let mut html = DIR_PAGE_OPEN.to_string();
    html.append(theme);
    html.append(DIR_PAGE_TO_BREADCRUMB);
    html.append(breadcrumb.as_str());
    html.append(DIR_PAGE_TO_FILE_COUNT);
    html.append(count.as_str());
    html.append(DIR_PAGE_TO_REQ_PATH);
    html.append(req_path_text.as_str());
    html.append(DIR_PAGE_TO_FILES);
    html.append(files_text.as_str());
    html.append(DIR_PAGE_CLOSE);
    html
}

/// The error banner of the login page: nothing, or the message in a box.
pub open spec fn login_error_html(error: Option<Seq<char>>) -> Seq<char> {
    match error {
        Some(msg) => LOGIN_ERROR_OPEN@ + msg + LOGIN_ERROR_CLOSE@,
        None => seq![],
    }
}

/// The login page, with the theme class and the error banner in place.
pub open spec fn login_page(theme: Seq<char>, error: Option<Seq<char>>) -> Seq<char> {
    LOGIN_PAGE_OPEN@ + theme + LOGIN_PAGE_TO_ERROR@ + login_error_html(error) + LOGIN_PAGE_CLOSE@
}

/// The login page with an error differs from the one without only by the
/// error banner: the banner stands right after the page's opening part (up to
/// where errors go), and cutting it out there gives the page without error.
pub proof fn law_login_pages_differ_by_banner(theme: Seq<char>, message: Seq<char>)
    ensures
        ({
            let at = (LOGIN_PAGE_OPEN@ + theme + LOGIN_PAGE_TO_ERROR@).len();
            let banner = LOGIN_ERROR_OPEN@ + message + LOGIN_ERROR_CLOSE@;
            let page = login_page(theme, Some(message));
            &&& page.subrange(at as int, (at + banner.len()) as int) == banner
            &&& page.take(at as int) + page.skip((at + banner.len()) as int) == login_page(
                theme,
                None,
            )
        }),
{
    let head = LOGIN_PAGE_OPEN@ + theme + LOGIN_PAGE_TO_ERROR@;
    let banner = LOGIN_ERROR_OPEN@ + message + LOGIN_ERROR_CLOSE@;
    let page = login_page(theme, Some(message));
    assert(page =~= head + banner + LOGIN_PAGE_CLOSE@);
    assert(login_page(theme, None) =~= head + LOGIN_PAGE_CLOSE@);
    let at = head.len() as int;
    let end = (head.len() + banner.len()) as int;
    assert(page.subrange(at, end) =~= banner);
    assert(page.take(at) =~= head);
    assert(page.skip(end) =~= LOGIN_PAGE_CLOSE@);
}

/// The view of an optional string slice.
pub open spec fn opt_view(s: Option<&str>) -> Option<Seq<char>> {
    match s {
        Some(t) => Some(t@),
        None => None,
    }
}

/// Generates the login page for password-protected shares, with an error
/// banner when `error` is given.
pub fn generate_login_html(theme: &str, error: Option<&str>) -> (html: String)
    ensures
        html@ == login_page(theme@, opt_view(error)),
{
    let mut html = LOGIN_PAGE_OPEN.to_string();
    html.append(theme);
    html.append(LOGIN_PAGE_TO_ERROR);
    match error {
        Some(msg) => {
            html.append(LOGIN_ERROR_OPEN);
            html.append(msg);
            html.append(LOGIN_ERROR_CLOSE);
        },
        None => {},
    }
    html.append(LOGIN_PAGE_CLOSE);
    html
}

} // verus!
