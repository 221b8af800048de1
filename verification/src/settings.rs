//! The parser settings the per-file pickup engine runs under: the stripes
//! that pull date strings out of metadata lines, the line blacklist, the
//! retained suffixes and the collision cap.
use vstd::prelude::*;

verus! {

/// A strptime format together with a sample that it parses.
#[derive(Debug, Clone)]
pub struct Strptime {
    pub fmt: String,
    pub test: String,
}

/// One date source: lines holding `name` are captured with `regex` and the
/// capture is parsed against `strptimes`.
#[derive(Debug, Clone)]
pub struct Stripe {
    pub name: String,
    pub regex: String,
    pub strptimes: Vec<Strptime>,
}

/// The pickup engine settings.
#[derive(Debug, Clone)]
pub struct Parser {
    pub batch_size: u32,
    pub dup_max: u32,
    pub retain_suffix: Vec<String>,
    pub stripes: Vec<Stripe>,
    pub blacklist: Vec<String>,
    pub additionals: Vec<Stripe>,
}

/// The format strings of a strptime list.
pub open spec fn fmts_of_strptimes(strips: Seq<Strptime>) -> Seq<Seq<char>> {
    strips.map_values(|s: Strptime| s.fmt@)
}

impl Parser {
    /// The built-in default settings: one stripe reading the date part of a
    /// metadata line, the placeholder-date blacklist, and a filename
    /// fallback reading a digit-run date.
    pub fn new() -> (c: Parser)
        ensures
            c.batch_size == 10u32,
            c.dup_max == 1000u32,
            c.stripes@.len() > 0,
            c.blacklist@.len() > 0,
            c.additionals@.len() > 0,
    {
        let mut strptimes: Vec<Strptime> = Vec::new();
        strptimes.push(Strptime { fmt: "%Y:%m:%d %H:%M:%S".to_owned(), test: "2017:08:16 12:18:36".to_owned() });
        strptimes.push(Strptime { fmt: "%Y-%m-%d %H:%M:%S".to_owned(), test: "2017-08-16 12:18:36".to_owned() });
        strptimes.push(Strptime { fmt: "%Y/%m/%d %H:%M:%S".to_owned(), test: "2017/08/16 12:18:36".to_owned() });
        strptimes.push(Strptime { fmt: "%Y:%m:%d".to_owned(), test: "2010:06:24".to_owned() });
        strptimes.push(Strptime { fmt: "%Y-%m-%d".to_owned(), test: "2002-06-20".to_owned() });

        let mut stripes: Vec<Stripe> = Vec::new();
        stripes.push(Stripe {
            name: "Date/Time".to_owned(),
            regex: "= (.*)".to_owned(),
            strptimes: strptimes.clone(),
        });
        stripes.push(Stripe {
            name: "Date".to_owned(),
            regex: "= (.*)".to_owned(),
            strptimes,
        });

        let mut blacklist: Vec<String> = Vec::new();
        blacklist.push("0000:00:00".to_owned());
        blacklist.push("File Modified Date".to_owned());

        let mut retain_suffix: Vec<String> = Vec::new();
        retain_suffix.push("png".to_owned());

        let mut filename_strptimes: Vec<Strptime> = Vec::new();
        filename_strptimes.push(Strptime {
            fmt: "%Y-%m-%d-%H-%M-%S".to_owned(),
            test: "2018-05-02-13-13-39".to_owned(),
        });
        let mut additionals: Vec<Stripe> = Vec::new();
        additionals.push(Stripe {
            name: "filename".to_owned(),
            regex: "(\\d{4}-\\d{2}-\\d{2}-\\d{2}-\\d{2}-\\d{2})".to_owned(),
            strptimes: filename_strptimes,
        });

        Parser {
            batch_size: 10,
            dup_max: 1000,
            retain_suffix,
            stripes,
            blacklist,
            additionals,
        }
    }
}

} // verus!
