use vstd::prelude::*;

use crate::conditional::{outcome_of, Outcome, StaticFile};
use crate::content_type::{guessed_mime, resolve, resolved_type};
use crate::validator::{etag, etag_header, etag_text, FileMetadata, Timestamp};

verus! {

/// The first second that an HTTP date cannot express (the start of year 10000).
pub const MAX_HTTP_SECS: u64 = 253402300800;

/// The IMF-fixdate text (`Fri, 15 May 2015 15:34:21 GMT`) of a time in whole seconds.
pub uninterp spec fn http_date_text(secs: nat) -> Seq<char>;

/// Relies on `httpdate::fmt_http_date`: the IMF-fixdate text of a time, which depends on
/// the time alone. It panics from the year 10000 on, which `requires` leaves out.
#[verifier::external_body]
fn http_date(secs: u64) -> (r: String)
    requires
        secs < MAX_HTTP_SECS,
    ensures
        r@ == http_date_text(secs as nat),
{
    httpdate::fmt_http_date(std::time::UNIX_EPOCH + std::time::Duration::from_secs(secs))
}

/// What to send: the status, the headers in order, and whether the file content follows.
#[derive(Clone, Debug)]
pub struct ResponsePlan {
    pub status: u16,
    pub headers: Vec<(String, String)>,
    pub has_body: bool,
}

/// The modification time, where it is known and an HTTP date can express it.
pub open spec fn usable_time(md: FileMetadata) -> Option<Timestamp> {
    match md.modified {
        Some(t) => if t.secs < MAX_HTTP_SECS {
            Some(t)
        } else {
            None
        },
        None => None,
    }
}

/// The validator text of the file, where its modification time is usable.
pub open spec fn current_tag(md: FileMetadata) -> Seq<char> {
    etag_text(
        md.identity as nat,
        md.size as nat,
        usable_time(md).unwrap().secs as nat,
        usable_time(md).unwrap().nanos as nat,
    )
}

/// The outcome for a request with conditional headers `h` on a file with metadata `md`.
pub open spec fn response_outcome(h: StaticFile, md: FileMetadata) -> Outcome {
    match usable_time(md) {
        None => Outcome::Full,
        Some(t) => outcome_of(h, false, current_tag(md), Some(t.secs)),
    }
}

pub open spec fn status_of(o: Outcome) -> u16 {
    match o {
        Outcome::Full => 200,
        Outcome::NotModified => 304,
        Outcome::PreconditionFailed => 412,
    }
}

/// The headers of the response, in order: the content type where one was resolved,
/// `cache-control: public` on full content, then `last-modified` and `etag` where the
/// modification time is usable.
pub open spec fn expected_headers(
    path: Seq<char>,
    prefer_utf8: bool,
    md: FileMetadata,
    full: bool,
) -> Seq<(Seq<char>, Seq<char>)> {
    let ct: Seq<(Seq<char>, Seq<char>)> = match guessed_mime(path) {
        Some(m) => seq![("content-type"@, resolved_type(m, prefer_utf8))],
        None => Seq::empty(),
    };
    let cache: Seq<(Seq<char>, Seq<char>)> = if full {
        seq![("cache-control"@, "public"@)]
    } else {
        Seq::empty()
    };
    let validation: Seq<(Seq<char>, Seq<char>)> = match usable_time(md) {
        Some(t) => seq![
            ("last-modified"@, http_date_text(t.secs as nat)),
            ("etag"@, etag_header(false, current_tag(md))),
        ],
        None => Seq::empty(),
    };
    ct + cache + validation
}

pub open spec fn headers_view(h: Seq<(String, String)>) -> Seq<(Seq<char>, Seq<char>)> {
    h.map_values(|p: (String, String)| (p.0@, p.1@))
}

fn push_header(headers: &mut Vec<(String, String)>, name: &str, value: String)
    ensures
        headers_view(final(headers)@) == headers_view(old(headers)@).push((name@, value@)),
{
    headers.push((String::from_str(name), value));
    assert(headers_view(final(headers)@) =~= headers_view(old(headers)@).push((name@, value@)));
}

impl StaticFile {
    /// Decides the response for the file at `path` with metadata `md`: the status from the
    /// conditional headers, the headers to send, and whether the content follows (on full
    /// content only).
    pub fn create_response(&self, path: &str, prefer_utf8: bool, md: &FileMetadata) -> (r:
        ResponsePlan)
        ensures
            r.status == status_of(response_outcome(*self, *md)),
            r.has_body == (response_outcome(*self, *md) == Outcome::Full),
            headers_view(r.headers@) == expected_headers(
                path@,
                prefer_utf8,
                *md,
                response_outcome(*self, *md) == Outcome::Full,
            ),
    {
        let usable = match md.modified {
            Some(t) => if t.secs < MAX_HTTP_SECS {
                Some(t)
            } else {
                None
            },
            None => None,
        };
        let tag = match &usable {
            Some(t) => Some(etag(md.identity, t, md.size)),
            None => None,
        };
        let outcome = match (&usable, &tag) {
            (Some(t), Some(e)) => self.evaluate(e, Some(t.secs)),
            _ => Outcome::Full,
        };
        let full = outcome == Outcome::Full;
        let mut headers: Vec<(String, String)> = Vec::new();
        assert(headers_view(headers@) =~= Seq::empty());
        if let Some(ct) = resolve(path, prefer_utf8) {
            push_header(&mut headers, "content-type", ct);
        }
        if full {
            push_header(&mut headers, "cache-control", String::from_str("public"));
        }
        if let (Some(t), Some(e)) = (&usable, &tag) {
            push_header(&mut headers, "last-modified", http_date(t.secs));
            push_header(&mut headers, "etag", e.header_value());
        }
        proof {
            assert(headers_view(headers@) =~= expected_headers(path@, prefer_utf8, *md, full));
        }
        let status: u16 = match outcome {
            Outcome::Full => 200,
            Outcome::NotModified => 304,
            Outcome::PreconditionFailed => 412,
        };
        ResponsePlan { status, headers, has_body: full }
    }
}

} // verus!
