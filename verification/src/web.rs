//! The compute side of the REST client: building request paths (with
//! percent-encoded query values) and classifying connection-test responses.
//! The HTTP requests themselves are the caller's job.

use vstd::prelude::*;

use vstd::string::StringSliceAdditionalSpecFns;

use crate::text::{push_char, spec_dec, u32_to_string, u64_to_string};

verus! {

/// A byte that percent-encoding passes through unchanged: ASCII
/// alphanumerics and `-`, `.`, `_`, `~`.
pub open spec fn unreserved_byte(b: u8) -> bool {
    (48 <= b <= 57) || (65 <= b <= 90) || (97 <= b <= 122) || b == 45 || b == 46 || b == 95 || b
        == 126
}

/// The uppercase hexadecimal digit for `d`.
pub open spec fn hex_digit_char(d: u8) -> char {
    if d < 10 {
        ((48 + d) as char)
    } else {
        ((55 + d) as char)
    }
}

/// The percent-encoding of a byte sequence: unreserved bytes stand as
/// themselves, every other byte becomes `%` and two uppercase hex digits.
pub open spec fn spec_percent_encode_bytes(bs: Seq<u8>) -> Seq<char>
    decreases bs.len(),
{
    if bs.len() == 0 {
        Seq::<char>::empty()
    } else {
        let b = bs.first();
        let enc: Seq<char> = if unreserved_byte(b) {
            seq![b as char]
        } else {
            seq!['%', hex_digit_char(b / 16), hex_digit_char(b % 16)]
        };
        enc + spec_percent_encode_bytes(bs.drop_first())
    }
}

/// Relies on `urlencoding::encode`: percent-encodes every byte of the
/// string's UTF-8 encoding except alphanumerics and `-`, `.`, `_`, `~`,
/// writing `%` and two uppercase hex digits for the rest.
#[verifier::external_body]
fn url_encode(s: &str) -> (r: String)
    ensures
        r@ == spec_percent_encode_bytes(s.spec_bytes()),
{
    urlencoding::encode(s).into_owned()
}

/// `s` without its trailing `/` characters.
pub open spec fn spec_drop_trailing_slashes(s: Seq<char>) -> Seq<char>
    decreases s.len(),
{
    if s.len() > 0 && s.last() == '/' {
        spec_drop_trailing_slashes(s.drop_last())
    } else {
        s
    }
}

/// Remove every trailing `/` from `s`.
pub fn trim_end_slashes(s: &str) -> (r: String)
    ensures
        r@ == spec_drop_trailing_slashes(s@),
{
    let n = s.unicode_len();
    let mut j: usize = n;
    proof {
        assert(s@.subrange(0, n as int) =~= s@);
    }
    while j > 0 && s.get_char(j - 1) == '/'
        invariant
            0 <= j <= n,
            n == s@.len(),
            spec_drop_trailing_slashes(s@) == spec_drop_trailing_slashes(s@.subrange(0, j as int)),
        decreases j,
    {
        proof {
            let pre = s@.subrange(0, j as int);
            assert(pre.last() == s@[j - 1]);
            assert(pre.drop_last() =~= s@.subrange(0, j - 1));
        }
        j = j - 1;
    }
    proof {
        let pre = s@.subrange(0, j as int);
        if j > 0 {
            assert(pre.last() == s@[j - 1]);
        }
        assert(spec_drop_trailing_slashes(pre) == pre);
    }
    String::from_str(s.substring_char(0, j))
}

/// The base URL of the site's Agent to Bricks API endpoint `path`.
pub open spec fn spec_atb_url(site_url: Seq<char>, path: Seq<char>) -> Seq<char> {
    spec_drop_trailing_slashes(site_url) + "/wp-json/agent-bricks/v1"@ + path
}

/// Build the URL of the Agent to Bricks endpoint `path` on `site_url`.
pub fn atb_url(site_url: &str, path: &str) -> (r: String)
    ensures
        r@ == spec_atb_url(site_url@, path@),
{
    trim_end_slashes(site_url).concat("/wp-json/agent-bricks/v1").concat(path)
}

/// The URL of the WordPress REST root, which names the site.
pub open spec fn spec_wp_root_url(site_url: Seq<char>) -> Seq<char> {
    spec_drop_trailing_slashes(site_url) + "/wp-json/"@
}

/// Build the URL of the WordPress REST root on `site_url`.
pub fn wp_root_url(site_url: &str) -> (r: String)
    ensures
        r@ == spec_wp_root_url(site_url@),
{
    trim_end_slashes(site_url).concat("/wp-json/")
}

/// The page-search request path: the encoded query, and the page size
/// capped at 50.
pub open spec fn spec_search_pages_path(query_enc: Seq<char>, per_page: u32) -> Seq<char> {
    let capped: u32 = if per_page < 50 {
        per_page
    } else {
        50
    };
    "/pages?search="@ + query_enc + "&per_page="@ + spec_dec(capped as nat)
}

/// Build the page-search request path.
pub fn search_pages_path(query: &str, per_page: u32) -> (r: String)
    ensures
        r@ == spec_search_pages_path(spec_percent_encode_bytes(query.spec_bytes()), per_page),
{
    let capped: u32 = if per_page < 50 {
        per_page
    } else {
        50
    };
    String::from_str("/pages?search=").concat(url_encode(query).as_str()).concat(
        "&per_page=",
    ).concat(u32_to_string(capped).as_str())
}

/// The request path for one page's elements.
pub open spec fn spec_page_elements_path(page_id: u64) -> Seq<char> {
    "/pages/"@ + spec_dec(page_id as nat) + "/elements"@
}

/// Build the request path for one page's elements.
pub fn page_elements_path(page_id: u64) -> (r: String)
    ensures
        r@ == spec_page_elements_path(page_id),
{
    String::from_str("/pages/").concat(u64_to_string(page_id).as_str()).concat("/elements")
}

/// The element-search request path: each given filter appears encoded, and
/// the page size defaults to 50 and is capped at 100.
pub open spec fn spec_search_elements_path(
    element_type_enc: Option<Seq<char>>,
    global_class_enc: Option<Seq<char>>,
    per_page: Option<u32>,
) -> Seq<char> {
    let base = "/search/elements?"@;
    let with_type = match element_type_enc {
        Some(t) => base + "element_type="@ + t + "&"@,
        None => base,
    };
    let with_class = match global_class_enc {
        Some(c) => with_type + "global_class="@ + c + "&"@,
        None => with_type,
    };
    let pp: u32 = match per_page {
        Some(p) => if p < 100 {
            p
        } else {
            100
        },
        None => 50,
    };
    with_class + "per_page="@ + spec_dec(pp as nat)
}

/// Build the element-search request path.
pub fn search_elements_path(
    element_type: &Option<String>,
    global_class: &Option<String>,
    per_page: &Option<u32>,
) -> (r: String)
    ensures
        r@ == spec_search_elements_path(
            match element_type.deep_view() {
                Some(t) => Some(spec_percent_encode_bytes(vstd::utf8::encode_utf8(t))),
                None => None,
            },
            match global_class.deep_view() {
                Some(c) => Some(spec_percent_encode_bytes(vstd::utf8::encode_utf8(c))),
                None => None,
            },
            match per_page {
                Some(p) => Some(*p),
                None => None,
            },
        ),
{
    let mut path = String::from_str("/search/elements?");
    match element_type {
        Some(t) => {
            path = path.concat("element_type=").concat(url_encode(t.as_str()).as_str()).concat(
                "&",
            );
        },
        None => {},
    }
    match global_class {
        Some(c) => {
            path = path.concat("global_class=").concat(url_encode(c.as_str()).as_str()).concat(
                "&",
            );
        },
        None => {},
    }
    let pp: u32 = match per_page {
        Some(p) => if *p < 100 {
            *p
        } else {
            100
        },
        None => 50,
    };
    path.concat("per_page=").concat(u32_to_string(pp).as_str())
}

/// The global-classes request path, optionally filtered by framework.
pub open spec fn spec_classes_path(framework_enc: Option<Seq<char>>) -> Seq<char> {
    match framework_enc {
        Some(f) => "/classes?framework="@ + f,
        None => "/classes"@,
    }
}

/// Build the global-classes request path.
pub fn classes_path(framework: &Option<String>) -> (r: String)
    ensures
        r@ == spec_classes_path(
            match framework.deep_view() {
                Some(f) => Some(spec_percent_encode_bytes(vstd::utf8::encode_utf8(f))),
                None => None,
            },
        ),
{
    match framework {
        Some(f) => String::from_str("/classes?framework=").concat(url_encode(f.as_str()).as_str()),
        None => String::from_str("/classes"),
    }
}

/// The media request path, optionally filtered by a search term.
pub open spec fn spec_media_path(search_enc: Option<Seq<char>>) -> Seq<char> {
    match search_enc {
        Some(q) => "/media?search="@ + q,
        None => "/media"@,
    }
}

/// Build the media request path.
pub fn media_path(search: &Option<String>) -> (r: String)
    ensures
        r@ == spec_media_path(
            match search.deep_view() {
                Some(q) => Some(spec_percent_encode_bytes(vstd::utf8::encode_utf8(q))),
                None => None,
            },
        ),
{
    match search {
        Some(q) => String::from_str("/media?search=").concat(url_encode(q.as_str()).as_str()),
        None => String::from_str("/media"),
    }
}

/// The outcome of a connection test against a site's API.
pub struct ConnectionResult {
    pub success: bool,
    pub status: u16,
    pub message: String,
    pub site_name: Option<String>,
}

/// Whether an HTTP status reports success.
pub open spec fn status_is_success(status: u16) -> bool {
    200 <= status < 300
}

/// Classify the HTTP status a connection test received: a success keeps the
/// separately fetched site name; an authentication failure, a missing
/// plugin, and every other status each carry their fixed message and no
/// site name.
pub fn connection_result_for_status(status: u16, site_name: Option<String>) -> (r:
    ConnectionResult)
    ensures
        r.status == status,
        r.success == status_is_success(status),
        status_is_success(status) ==> r.message@ == "Connected successfully"@ && r.site_name
            == site_name,
        (status == 401 || status == 403) ==> r.message@
            == "Invalid API key. Check your key in WordPress under Agent to Bricks."@,
        status == 404 ==> r.message@
            == "Agent to Bricks plugin not found. Make sure it's installed and activated."@,
        !status_is_success(status) ==> r.site_name is None,
        !(status_is_success(status) || status == 401 || status == 403 || status == 404)
            ==> r.message@ == "Server responded with status "@ + spec_dec(status as nat) + "."@,
{
    if 200 <= status && status < 300 {
        ConnectionResult {
            success: true,
            status,
            message: String::from_str("Connected successfully"),
            site_name,
        }
    } else if status == 401 || status == 403 {
        ConnectionResult {
            success: false,
            status,
            message: String::from_str(
                "Invalid API key. Check your key in WordPress under Agent to Bricks.",
            ),
            site_name: None,
        }
    } else if status == 404 {
        ConnectionResult {
            success: false,
            status,
            message: String::from_str(
                "Agent to Bricks plugin not found. Make sure it's installed and activated.",
            ),
            site_name: None,
        }
    } else {
        let mut message = String::from_str("Server responded with status ").concat(
            u64_to_string(status as u64).as_str(),
        );
        push_char(&mut message, '.');
        proof {
            reveal_strlit(".");
            assert(message@ =~= "Server responded with status "@ + spec_dec(status as nat)
                + "."@);
        }
        ConnectionResult { success: false, status, message, site_name: None }
    }
}

} // verus!
