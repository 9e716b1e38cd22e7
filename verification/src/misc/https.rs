//! Downloading a file over HTTPS. The connection and the transfer are done by
//! the caller; the name under which the file is saved is found here.
use vstd::prelude::*;

use crate::general::http::{after_last_slash, no_file_name_message};

verus! {

/// The path of `text` parsed as a URI by `hyper::Uri::from_str`, or the text
/// of the parse error.
pub uninterp spec fn uri_path(text: Seq<char>) -> Result<Seq<char>, Seq<char>>;

/// Parses `text` with `hyper::Uri::from_str` and returns the URI's `path()`,
/// or the error's text. The result is named, not stated: the URI grammar is
/// the http crate's.
#[verifier::external_body]
fn parsed_uri_path(text: &str) -> (r: Result<String, String>)
    ensures
        uri_path(text@) == match r {
            Ok(p) => Ok::<Seq<char>, Seq<char>>(p@),
            Err(e) => Err::<Seq<char>, Seq<char>>(e@),
        },
{
    match <hyper::Uri as std::str::FromStr>::from_str(text) {
        Ok(uri) => Ok(uri.path().to_string()),
        Err(error) => Err(error.to_string()),
    }
}

/// The name of the file that a URI whose path is `path` names: the last
/// `/`-separated segment, when it is not empty.
pub open spec fn file_name_of_uri_path(path: Seq<char>) -> Result<Seq<char>, Seq<char>> {
    if after_last_slash(path).len() > 0 {
        Ok(after_last_slash(path))
    } else {
        Err(no_file_name_message())
    }
}

/// Downloads files over HTTPS.
pub struct HTTPS;

impl HTTPS {
    /// A downloader.
    pub fn new() -> (r: Self) {
        HTTPS
    }

    /// The name of the file that a URI whose path is `path` names.
    pub fn file_name_from_path(&self, path: &str) -> (r: Result<String, String>)
        ensures
            match r {
                Ok(n) => file_name_of_uri_path(path@) == Ok::<Seq<char>, Seq<char>>(n@),
                Err(e) => file_name_of_uri_path(path@) == Err::<Seq<char>, Seq<char>>(e@),
            },
    {
        let name: String = last_segment(path);
        if name.as_str().is_empty() {
            Err(String::from_str("Failed to get file name from URL"))
        } else {
            Ok(name)
        }
    }

    /// The name of the file that the URI `url` names: the last segment of its
    /// path, or the parse error, or a message that it names no file.
    pub fn get_file_name(&self, url: &str) -> (r: Result<String, String>)
        ensures
            match uri_path(url@) {
                Ok(p) => match r {
                    Ok(n) => file_name_of_uri_path(p) == Ok::<Seq<char>, Seq<char>>(n@),
                    Err(e) => file_name_of_uri_path(p) == Err::<Seq<char>, Seq<char>>(e@),
                },
                Err(e) => r matches Err(m) && m@ == e,
            },
    {
        match parsed_uri_path(url) {
            Ok(path) => self.file_name_from_path(path.as_str()),
            Err(error) => Err(error),
        }
    }
}

/// What follows the last `/` of `path`; all of it when it has none.
fn last_segment(path: &str) -> (r: String)
    ensures
        r@ == after_last_slash(path@),
{
    let chars: Vec<char> = crate::text::chars_of(path);
    let mut start: usize = chars.len();
    assert(chars@.take(start as int) =~= chars@);
    assert(chars@ + chars@.skip(start as int) =~= chars@);
    assert(after_last_slash(chars@) + chars@.skip(start as int) =~= after_last_slash(chars@));
    while start > 0 && chars[start - 1] != '/'
        invariant
            start <= chars@.len(),
            chars@ == path@,
            after_last_slash(chars@) == after_last_slash(chars@.take(start as int)) + chars@.skip(
                start as int,
            ),
        decreases start,
    {
        let ghost before = chars@.take(start as int);
        assert(before.drop_last() =~= chars@.take(start - 1));
        assert(chars@.skip(start - 1) =~= seq![chars@[start - 1]] + chars@.skip(start as int));
        assert(after_last_slash(before) == after_last_slash(before.drop_last()).push(
            chars@[start - 1],
        ));
        assert(after_last_slash(before.drop_last()).push(chars@[start - 1]) + chars@.skip(
            start as int,
        ) =~= after_last_slash(before.drop_last()) + chars@.skip(start - 1));
        start = start - 1;
    }
    assert(after_last_slash(chars@.take(start as int)) =~= Seq::<char>::empty());
    let mut name: String = String::new();
    let mut i: usize = start;
    while i < chars.len()
        invariant
            start <= i <= chars@.len(),
            name@ == chars@.subrange(start as int, i as int),
        decreases chars@.len() - i,
    {
        crate::text::push_char(&mut name, chars[i]);
        assert(chars@.subrange(start as int, i + 1) =~= chars@.subrange(start as int, i as int).push(
            chars@[i as int],
        ));
        i = i + 1;
    }
    assert(chars@.subrange(start as int, chars@.len() as int) =~= chars@.skip(start as int));
    assert(Seq::<char>::empty() + chars@.skip(start as int) =~= chars@.skip(start as int));
    name
}

} // verus!
