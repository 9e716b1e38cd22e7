//! Downloading a file over HTTP. The download itself is done by the caller;
//! the name under which the file is saved is found here.
use vstd::prelude::*;

verus! {

/// The path of the URL `text` as parsed by `url::Url::parse`, or the text of
/// the parse error.
pub uninterp spec fn url_path(text: Seq<char>) -> Result<Seq<char>, Seq<char>>;

/// Parses `text` with `reqwest::Url::parse` (the `url` crate's `Url`) and
/// returns the parsed URL's `path()`, or the parse error's text. The result
/// is named, not stated: URL parsing follows the WHATWG standard.
#[verifier::external_body]
fn parsed_url_path(text: &str) -> (r: Result<String, String>)
    ensures
        url_path(text@) == match r {
            Ok(p) => Ok::<Seq<char>, Seq<char>>(p@),
            Err(e) => Err::<Seq<char>, Seq<char>>(e@),
        },
{
    match reqwest::Url::parse(text) {
        Ok(url) => Ok(url.path().to_string()),
        Err(error) => Err(error.to_string()),
    }
}

/// What follows the last `/` of `s`; all of `s` when it has none.
pub open spec fn after_last_slash(s: Seq<char>) -> Seq<char>
    decreases s.len(),
{
    if s.len() == 0 {
        s
    } else if s.last() == '/' {
        Seq::empty()
    } else {
        after_last_slash(s.drop_last()).push(s.last())
    }
}

/// The message when a URL names no file.
pub open spec fn no_file_name_message() -> Seq<char> {
    "Failed to get file name from URL"@
}

/// The name of the file that a URL whose path is `path` names: the last
/// segment of the path, when the path starts with `/` and that segment is
/// not empty.
pub open spec fn file_name_of_path(path: Seq<char>) -> Result<Seq<char>, Seq<char>> {
    if path.len() > 0 && path[0] == '/' && after_last_slash(path).len() > 0 {
        Ok(after_last_slash(path))
    } else {
        Err(no_file_name_message())
    }
}

/// Downloads files over HTTP.
pub struct HTTP;

impl HTTP {
    /// A downloader.
    pub fn new() -> (r: Self) {
        HTTP
    }

    /// The name of the file that the URL `path` names, from the URL's path.
    pub fn file_name_from_path(&self, path: &str) -> (r: Result<String, String>)
        ensures
            match r {
                Ok(n) => file_name_of_path(path@) == Ok::<Seq<char>, Seq<char>>(n@),
                Err(e) => file_name_of_path(path@) == Err::<Seq<char>, Seq<char>>(e@),
            },
    {
        let chars: Vec<char> = crate::text::chars_of(path);
        let mut end: usize = chars.len();
        let mut name: Vec<char> = Vec::new();
        assert(chars@.take(end as int) =~= chars@);
        assert(name@.reverse() =~= Seq::<char>::empty());
        while end > 0 && chars[end - 1] != '/'
            invariant
                end <= chars@.len(),
                chars@ == path@,
                after_last_slash(chars@) == after_last_slash(chars@.take(end as int)) + name@.reverse(),
            decreases end,
        {
            let ghost before = chars@.take(end as int);
            assert(before.drop_last() =~= chars@.take(end - 1));
            name.push(chars[end - 1]);
            assert(name@.reverse() =~= seq![chars@[end - 1]] + name@.drop_last().reverse());
            end = end - 1;
        }
        let ghost t = chars@.take(end as int);
        assert(after_last_slash(t) =~= Seq::<char>::empty());
        let mut file_name: String = String::new();
        let mut i: usize = name.len();
        while i > 0
            invariant
                i <= name@.len(),
                file_name@ == name@.reverse().take((name@.len() - i) as int),
            decreases i,
        {
            crate::text::push_char(&mut file_name, name[i - 1]);
            assert(name@.reverse().take((name@.len() - i + 1) as int) =~= name@.reverse().take(
                (name@.len() - i) as int,
            ).push(name@[i - 1]));
            i = i - 1;
        }
        assert(file_name@ =~= name@.reverse());
        if chars.len() > 0 && chars[0] == '/' && name.len() > 0 {
            Ok(file_name)
        } else {
            Err(String::from_str("Failed to get file name from URL"))
        }
    }

    /// The name of the file that the URL `url` names: the last segment of its
    /// path, or the parse error, or a message that it names no file.
    pub fn get_file_name(&self, url: &str) -> (r: Result<String, String>)
        ensures
            match url_path(url@) {
                Ok(p) => match r {
                    Ok(n) => file_name_of_path(p) == Ok::<Seq<char>, Seq<char>>(n@),
                    Err(e) => file_name_of_path(p) == Err::<Seq<char>, Seq<char>>(e@),
                },
                Err(e) => r matches Err(m) && m@ == e,
            },
    {
        match parsed_url_path(url) {
            Ok(path) => self.file_name_from_path(path.as_str()),
            Err(error) => Err(error),
        }
    }
}

} // verus!
