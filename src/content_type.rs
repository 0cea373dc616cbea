use vstd::prelude::*;

verus! {

/// The first media type that the registry of `mime_guess` gives for the extension of `path`.
pub uninterp spec fn guessed_mime(path: Seq<char>) -> Option<Seq<char>>;

/// Relies on `mime_guess::from_path(path).first_raw()`: the first media type registered for
/// the path's extension, or none; a table lookup that depends on the path alone.
#[verifier::external_body]
fn guess_mime(path: &str) -> (r: Option<String>)
    ensures
        r is Some == guessed_mime(path@) is Some,
        r is Some ==> r.unwrap()@ == guessed_mime(path@).unwrap(),
{
    mime_guess::from_path(path).first_raw().map(String::from)
}

/// The UTF-8 variant of the six text types that get one; any other type unchanged.
pub open spec fn utf8_equiv(ct: Seq<char>) -> Seq<char> {
    if ct == "application/javascript"@ {
        "application/javascript; charset=utf-8"@
    } else if ct == "text/html"@ {
        "text/html; charset=utf-8"@
    } else if ct == "text/css"@ {
        "text/css; charset=utf-8"@
    } else if ct == "text/plain"@ {
        "text/plain; charset=utf-8"@
    } else if ct == "text/csv"@ {
        "text/csv; charset=utf-8"@
    } else if ct == "text/tab-separated-values"@ {
        "text/tab-separated-values; charset=utf-8"@
    } else {
        ct
    }
}

/// The content type sent for a guessed type: its UTF-8 variant where that is preferred.
pub open spec fn resolved_type(guess: Seq<char>, prefer_utf8: bool) -> Seq<char> {
    if prefer_utf8 {
        utf8_equiv(guess)
    } else {
        guess
    }
}

/// Upgrades a text media type to its explicit UTF-8 variant.
pub fn equiv_utf8_text(ct: String) -> (r: String)
    ensures
        r@ == utf8_equiv(ct@),
{
    if ct == String::from_str("application/javascript") {
        return String::from_str("application/javascript; charset=utf-8");
    }
    if ct == String::from_str("text/html") {
        return String::from_str("text/html; charset=utf-8");
    }
    if ct == String::from_str("text/css") {
        return String::from_str("text/css; charset=utf-8");
    }
    if ct == String::from_str("text/plain") {
        return String::from_str("text/plain; charset=utf-8");
    }
    if ct == String::from_str("text/csv") {
        return String::from_str("text/csv; charset=utf-8");
    }
    if ct == String::from_str("text/tab-separated-values") {
        return String::from_str("text/tab-separated-values; charset=utf-8");
    }
    ct
}

/// The content type of the file at `path`, from its extension; none where the
/// extension is unknown.
pub fn resolve(path: &str, prefer_utf8: bool) -> (r: Option<String>)
    ensures
        r is Some == guessed_mime(path@) is Some,
        r is Some ==> r.unwrap()@ == resolved_type(guessed_mime(path@).unwrap(), prefer_utf8),
{
    match guess_mime(path) {
        None => None,
        Some(m) => if prefer_utf8 {
            Some(equiv_utf8_text(m))
        } else {
            Some(m)
        },
    }
}

} // verus!
