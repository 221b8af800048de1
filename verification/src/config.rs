//! The configuration data the engine is driven by: capture patterns for the
//! metadata text, strptime formats, blacklists, and the filename fallback.
//! Patterns are held as plain strings; compilation happens at the regex call.
use vstd::prelude::*;

use crate::text::{opt_str_view, trim_spec};

verus! {

/// What a regex capture yields for a pattern, a text and a group index: the
/// group's text, or nothing when the pattern is invalid, does not match, or
/// has no such group. The result depends on the three arguments alone.
pub uninterp spec fn capture_of(pattern: Seq<char>, text: Seq<char>, index: int) -> Option<
    Seq<char>,
>;

/// Relies on regex::Regex: compiles the pattern, matches it against the text
/// and hands out the requested capture group.
#[verifier::external_body]
pub fn regex_capture(pattern: &str, text: &str, index: usize) -> (r: Option<String>)
    ensures
        opt_str_view(r) == capture_of(pattern@, text@, index as int),
{
    let re = match regex::Regex::new(pattern) {
        Ok(re) => re,
        Err(_) => return None,
    };
    match re.captures(text) {
        Some(caps) => caps.get(index).map(|c| c.as_str().to_owned()),
        None => None,
    }
}

/// The captured group of the first match, trimmed of whitespace.
pub open spec fn capture_trim_of(pattern: Seq<char>, text: Seq<char>, index: int) -> Option<
    Seq<char>,
> {
    match capture_of(pattern, text, index) {
        Some(c) => Some(trim_spec(c)),
        None => None,
    }
}

/// Captures the requested group from the text and trims it.
pub fn capture_trim(pattern: &str, text: &str, index: usize) -> (r: Option<String>)
    ensures
        opt_str_view(r) == capture_trim_of(pattern@, text@, index as int),
{
    match regex_capture(pattern, text, index) {
        Some(c) => Some(crate::text::str_trim(c.as_str())),
        None => None,
    }
}

/// A strptime format together with a sample that it parses.
#[derive(Debug, Clone)]
pub struct StripTime {
    pub fmt: String,
    pub test: String,
}

/// A capture pattern: the text must contain `check` for the pattern to be
/// tried, `regex` extracts the value, and `index` names the capture group.
#[derive(Debug, Clone)]
pub struct Capture {
    pub check: String,
    pub regex: String,
    pub index: Option<u8>,
}

/// The default capture group.
pub fn capture_index() -> (r: Option<u8>)
    ensures
        r == Some(1u8),
{
    Some(1)
}

impl Capture {
    /// The captured value: the requested group of the first match, trimmed.
    pub open spec fn spec_capture(self, text: Seq<char>) -> Option<Seq<char>> {
        let idx: int = match self.index {
            Some(i) => i as int,
            None => 1,
        };
        capture_trim_of(self.regex@, text, idx)
    }

    /// Captures the configured group from the text, trimmed of whitespace.
    pub fn capture(&self, text: &str) -> (r: Option<String>)
        requires
            self.index is Some,
        ensures
            opt_str_view(r) == self.spec_capture(text@),
    {
        let idx = match self.index {
            Some(i) => i as usize,
            None => 1,
        };
        capture_trim(self.regex.as_str(), text, idx)
    }
}

/// The strptime formats tried on a captured date string.
#[derive(Debug, Clone)]
pub struct DateParse {
    pub ignore: Option<Vec<String>>,
    pub list: Vec<StripTime>,
}

/// The date-capture patterns, with the blacklist of lines to skip.
#[derive(Debug, Clone)]
pub struct DateRegex {
    pub ignore: Option<Vec<String>>,
    pub list: Vec<Capture>,
}

/// The type-capture patterns, with the extensions whose type is kept as is.
#[derive(Debug, Clone)]
pub struct TypeRegex {
    pub ignore: Option<Vec<String>>,
    pub list: Vec<Capture>,
}

/// An additional, configuration-gated candidate source; the one understood
/// here reads the file name.
#[derive(Debug, Clone)]
pub struct Additional {
    pub name: String,
    pub dateparse: Vec<Capture>,
    pub striptimes: Vec<StripTime>,
}

/// The engine configuration.
#[derive(Debug, Clone)]
pub struct Config {
    pub batch: Option<u8>,
    pub java: Option<String>,
    pub database: Option<String>,
    pub dateparse: DateParse,
    pub dateregex: DateRegex,
    pub typeregex: TypeRegex,
    pub additionals: Option<Vec<Additional>>,
}

/// Every capture of the list names its group.
pub open spec fn captures_wf(list: Seq<Capture>) -> bool {
    forall|i: int| 0 <= i < list.len() ==> (#[trigger] list[i].index) is Some
}

impl Config {
    /// Every capture pattern of the configuration names its capture group.
    pub open spec fn wf(self) -> bool {
        &&& captures_wf(self.dateregex.list@)
        &&& captures_wf(self.typeregex.list@)
        &&& match self.additionals {
            Some(adds) => forall|i: int|
                0 <= i < adds@.len() ==> captures_wf(#[trigger] adds@[i].dateparse@),
            None => true,
        }
    }

    /// The built-in default configuration: the capture pattern and formats
    /// for metadata date lines, the type-correction pattern, and a filename
    /// fallback reading a digit-run date.
    pub fn new() -> (c: Config)
        ensures
            c.wf(),
            c.batch == Some(10u8),
            c.dateparse.list@.len() > 0,
            c.dateregex.list@.len() > 0,
            c.dateregex.ignore is Some,
            c.typeregex.list@.len() > 0,
            c.typeregex.ignore is Some,
            c.additionals is Some,
    {
        let mut dateparse_list: Vec<StripTime> = Vec::new();
        dateparse_list.push(StripTime { fmt: "%Y:%m:%d %H:%M:%S".to_owned(), test: "2017:08:16 12:18:36".to_owned() });
        dateparse_list.push(StripTime { fmt: "%Y-%m-%d %H:%M:%S".to_owned(), test: "2017-08-16 12:18:36".to_owned() });
        dateparse_list.push(StripTime { fmt: "%Y/%m/%d %H:%M:%S".to_owned(), test: "2017/08/16 12:18:36".to_owned() });
        dateparse_list.push(StripTime { fmt: "%Y:%m:%d".to_owned(), test: "2010:06:24".to_owned() });
        dateparse_list.push(StripTime { fmt: "%Y-%m-%d".to_owned(), test: "2002-06-20".to_owned() });
        dateparse_list.push(StripTime { fmt: "%Y-%m-%d %H:%M:%S%:z".to_owned(), test: "2017-08-16 12:18:36+02:00".to_owned() });

        let mut dateregex_list: Vec<Capture> = Vec::new();
        dateregex_list.push(Capture {
            check: "Date/Time".to_owned(),
            regex: "= (.*)".to_owned(),
            index: capture_index(),
        });
        dateregex_list.push(Capture {
            check: "Date".to_owned(),
            regex: "= (.*)".to_owned(),
            index: capture_index(),
        });
        let mut dateregex_ignore: Vec<String> = Vec::new();
        dateregex_ignore.push("0000:00:00".to_owned());
        dateregex_ignore.push("File Modified Date".to_owned());

        let mut typeregex_list: Vec<Capture> = Vec::new();
        typeregex_list.push(Capture {
            check: "Expected File Name Extension".to_owned(),
            regex: "Expected File Name Extension = (.*)".to_owned(),
            index: capture_index(),
        });
        let mut typeregex_ignore: Vec<String> = Vec::new();
        typeregex_ignore.push("bin".to_owned());

        let mut filename_dateparse: Vec<Capture> = Vec::new();
        filename_dateparse.push(Capture {
            check: "".to_owned(),
            regex: "(\\d{4}-\\d{2}-\\d{2}-\\d{2}-\\d{2}-\\d{2})".to_owned(),
            index: capture_index(),
        });
        let mut filename_striptimes: Vec<StripTime> = Vec::new();
        filename_striptimes.push(StripTime {
            fmt: "%Y-%m-%d-%H-%M-%S".to_owned(),
            test: "2018-05-02-13-13-39".to_owned(),
        });
        let mut additionals: Vec<Additional> = Vec::new();
        additionals.push(Additional {
            name: "filename".to_owned(),
            dateparse: filename_dateparse,
            striptimes: filename_striptimes,
        });

        Config {
            batch: Some(10),
            java: Some("java".to_owned()),
            database: Some("place.db".to_owned()),
            dateparse: DateParse { ignore: None, list: dateparse_list },
            dateregex: DateRegex { ignore: Some(dateregex_ignore), list: dateregex_list },
            typeregex: TypeRegex { ignore: Some(typeregex_ignore), list: typeregex_list },
            additionals: Some(additionals),
        }
    }
}

} // verus!
