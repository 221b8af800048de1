//! The metadata-text parsing engine: capture patterns pull a date string out
//! of a metadata line, and an ordered list of strptime formats turns it into
//! a candidate timestamp, with a non-ASCII fallback that substitutes a fixed
//! set of separators before retrying.
use vstd::prelude::*;

use vstd::utf8::encode_utf8;

use crate::config::{captures_wf, Additional, Capture, Config, StripTime};
use crate::datetime::{
    datetime_tz_of, fdt_opt_tuple, naive_date_of, naive_datetime_of, parse_datetime_tz,
    parse_naive_date, parse_naive_datetime, parse_utc_datetime, utc_datetime_of, FdtTuple,
    FileDateTime,
};
use crate::pathname::{base_name, base_name_spec};
use crate::text::{
    all_ascii, contains_str, opt_str_view, replace_non_ascii, replace_non_ascii_spec,
    str_all_ascii, str_contains, str_eq,
};

verus! {

/// The first capture, in configured order, that passes its check gate and
/// matches the value.
pub open spec fn capture_from_string_spec(
    value: Seq<char>,
    parsers: Seq<Capture>,
    check: bool,
) -> Option<Seq<char>>
    decreases parsers.len(),
{
    if parsers.len() == 0 {
        None
    } else if check && !contains_str(value, parsers[0].check@) {
        capture_from_string_spec(value, parsers.drop_first(), check)
    } else {
        match parsers[0].spec_capture(value) {
            Some(t) => Some(t),
            None => capture_from_string_spec(value, parsers.drop_first(), check),
        }
    }
}

/// Tries the capture patterns in order on the value; when `check` is set, a
/// pattern is tried only if its check string occurs in the value.
pub fn capture_from_string(value: &str, parsers: &Vec<Capture>, check: bool) -> (r: Option<
    String,
>)
    requires
        captures_wf(parsers@),
    ensures
        opt_str_view(r) == capture_from_string_spec(value@, parsers@, check),
{
    assert(parsers@.skip(0) =~= parsers@);
    let mut i: usize = 0;
    while i < parsers.len()
        invariant
            i <= parsers@.len(),
            captures_wf(parsers@),
            capture_from_string_spec(value@, parsers@, check) == capture_from_string_spec(
                value@,
                parsers@.skip(i as int),
                check,
            ),
        decreases parsers@.len() - i,
    {
        proof {
            assert(parsers@.skip(i as int)[0] == parsers@[i as int]);
            assert(parsers@.skip(i as int).drop_first() =~= parsers@.skip(i as int + 1));
        }
        let p = &parsers[i];
        let gate = check && !str_contains(value, p.check.as_str());
        if !gate {
            let captured = p.capture(value);
            match captured {
                Some(t) => {
                    return Some(t);
                },
                None => {},
            }
        }
        i = i + 1;
    }
    None
}

/// Extracts a corrected file type from a metadata line.
pub fn capture_type(value: &str, cfg: &Config) -> (r: Option<String>)
    requires
        cfg.wf(),
    ensures
        opt_str_view(r) == capture_from_string_spec(value@, cfg.typeregex.list@, true),
{
    capture_from_string(value, &cfg.typeregex.list, true)
}

/// Extracts an embedded date string from a metadata line.
pub fn capture_date(value: &str, cfg: &Config) -> (r: Option<String>)
    requires
        cfg.wf(),
    ensures
        opt_str_view(r) == capture_from_string_spec(value@, cfg.dateregex.list@, true),
{
    capture_from_string(value, &cfg.dateregex.list, true)
}

/// One format attempt on a date string: a ten-byte value is read as a bare
/// date, a nineteen-byte one as date and time, then as carrying an offset,
/// then as a UTC reading.
pub open spec fn fuzzy_strptime_spec(value: Seq<char>, fmt: Seq<char>) -> Option<FdtTuple> {
    if encode_utf8(value).len() as usize == 10 && naive_date_of(value, fmt) is Some {
        naive_date_of(value, fmt)
    } else if encode_utf8(value).len() as usize == 19 && naive_datetime_of(value, fmt) is Some {
        naive_datetime_of(value, fmt)
    } else if datetime_tz_of(value, fmt) is Some {
        datetime_tz_of(value, fmt)
    } else {
        utc_datetime_of(value, fmt)
    }
}

/// Tries the format on the date string, under each reading in turn.
pub fn fuzzy_strptime(value: &str, fmt: &str) -> (r: Option<FileDateTime>)
    ensures
        fdt_opt_tuple(r) == fuzzy_strptime_spec(value@, fmt@),
{
    if value.len() == 10 {
        let r = parse_naive_date(value, fmt);
        if r.is_some() {
            return r;
        }
    }
    if value.len() == 19 {
        let r = parse_naive_datetime(value, fmt);
        if r.is_some() {
            return r;
        }
    }
    let r = parse_datetime_tz(value, fmt);
    if r.is_some() {
        return r;
    }
    parse_utc_datetime(value, fmt)
}

/// The separators substituted for non-ASCII characters before retrying the
/// format list.
pub open spec fn replacement_strings() -> Seq<Seq<char>> {
    seq![" "@, "-"@, ":"@, "1"@, ""@]
}

/// The first replacement whose substitution makes the format match.
pub open spec fn try_replacements_spec(
    value: Seq<char>,
    fmt: Seq<char>,
    repls: Seq<Seq<char>>,
) -> Option<FdtTuple>
    decreases repls.len(),
{
    if repls.len() == 0 {
        None
    } else if fuzzy_strptime_spec(replace_non_ascii_spec(value, repls[0]), fmt) is Some {
        fuzzy_strptime_spec(replace_non_ascii_spec(value, repls[0]), fmt)
    } else {
        try_replacements_spec(value, fmt, repls.drop_first())
    }
}

/// The first format, in configured order, that parses the date string; a
/// value holding non-ASCII characters is retried under each substitution.
pub open spec fn strptimes_datetime_spec(value: Seq<char>, fmts: Seq<Seq<char>>) -> Option<
    FdtTuple,
>
    decreases fmts.len(),
{
    if fmts.len() == 0 {
        None
    } else {
        let attempt = if !all_ascii(value) {
            try_replacements_spec(value, fmts[0], replacement_strings())
        } else {
            fuzzy_strptime_spec(value, fmts[0])
        };
        if attempt is Some {
            attempt
        } else {
            strptimes_datetime_spec(value, fmts.drop_first())
        }
    }
}

/// The format strings of a configured format list.
pub open spec fn fmts_of_striptimes(strips: Seq<StripTime>) -> Seq<Seq<char>> {
    strips.map_values(|s: StripTime| s.fmt@)
}

/// Parses the captured date string against the configured format list. A
/// string no format parses yields no candidate; it is not an error.
pub fn get_datetime_with_striptimes(value: &str, striptimes: &Vec<StripTime>) -> (r: Option<
    FileDateTime,
>)
    ensures
        fdt_opt_tuple(r) == strptimes_datetime_spec(value@, fmts_of_striptimes(striptimes@)),
{
    let ghost fmts = fmts_of_striptimes(striptimes@);
    let value_is_ascii = str_all_ascii(value);
    let mut repls: Vec<&str> = Vec::new();
    repls.push(" ");
    repls.push("-");
    repls.push(":");
    repls.push("1");
    repls.push("");
    assert(repls@[0]@ == replacement_strings()[0]);
    assert(repls@[1]@ == replacement_strings()[1]);
    assert(repls@[2]@ == replacement_strings()[2]);
    assert(repls@[3]@ == replacement_strings()[3]);
    assert(repls@[4]@ == replacement_strings()[4]);
    assert(fmts.skip(0) =~= fmts);
    let mut i: usize = 0;
    while i < striptimes.len()
        invariant
            i <= striptimes@.len(),
            fmts == fmts_of_striptimes(striptimes@),
            fmts.len() == striptimes@.len(),
            value_is_ascii == all_ascii(value@),
            repls@.len() == 5,
            forall|k: int| 0 <= k < 5 ==> repls@[k]@ == #[trigger] replacement_strings()[k],
            strptimes_datetime_spec(value@, fmts) == strptimes_datetime_spec(
                value@,
                fmts.skip(i as int),
            ),
        decreases striptimes@.len() - i,
    {
        proof {
            assert(fmts.skip(i as int)[0] == fmts[i as int]);
            assert(fmts[i as int] == striptimes@[i as int].fmt@);
            assert(fmts.skip(i as int).drop_first() =~= fmts.skip(i as int + 1));
        }
        let fmt = striptimes[i].fmt.as_str();
        if !value_is_ascii {
            assert(replacement_strings().skip(0) =~= replacement_strings());
            let mut j: usize = 0;
            while j < repls.len()
                invariant
                    j <= 5,
                    repls@.len() == 5,
                    i < striptimes@.len(),
                    fmts == fmts_of_striptimes(striptimes@),
                    fmts.len() == striptimes@.len(),
                    !all_ascii(value@),
                    fmt@ == fmts[i as int],
                    fmts.skip(i as int)[0] == fmts[i as int],
                    strptimes_datetime_spec(value@, fmts) == strptimes_datetime_spec(
                        value@,
                        fmts.skip(i as int),
                    ),
                    forall|k: int| 0 <= k < 5 ==> repls@[k]@ == #[trigger] replacement_strings()[k],
                    try_replacements_spec(value@, fmt@, replacement_strings())
                        == try_replacements_spec(
                        value@,
                        fmt@,
                        replacement_strings().skip(j as int),
                    ),
                decreases 5 - j,
            {
                proof {
                    assert(replacement_strings().skip(j as int)[0] == replacement_strings()[
                        j as int
                    ]);
                    assert(replacement_strings().skip(j as int).drop_first()
                        =~= replacement_strings().skip(j as int + 1));
                }
                let replaced = replace_non_ascii(value, repls[j]);
                let r = fuzzy_strptime(replaced.as_str(), fmt);
                if r.is_some() {
                    return r;
                }
                j = j + 1;
            }
        } else {
            let r = fuzzy_strptime(value, fmt);
            if r.is_some() {
                return r;
            }
        }
        i = i + 1;
    }
    None
}

/// The candidate a single metadata line yields: the captured date string,
/// parsed against the format list.
pub open spec fn datetime_from_string_spec(value: Seq<char>, cfg: Config) -> Option<FdtTuple> {
    match capture_from_string_spec(value, cfg.dateregex.list@, true) {
        Some(ds) => strptimes_datetime_spec(ds, fmts_of_striptimes(cfg.dateparse.list@)),
        None => None,
    }
}

/// Extracts a candidate timestamp from one metadata line.
pub fn get_datetime_from_string(value: &str, cfg: &Config) -> (r: Option<FileDateTime>)
    requires
        cfg.wf(),
    ensures
        fdt_opt_tuple(r) == datetime_from_string_spec(value@, *cfg),
{
    let date_str = capture_date(value, cfg);
    match date_str {
        None => None,
        Some(ds) => get_datetime_with_striptimes(ds.as_str(), &cfg.dateparse.list),
    }
}

/// The candidate the file's base name yields under the given patterns.
pub open spec fn datetime_from_filename_spec(
    file: Seq<char>,
    dateparse: Seq<Capture>,
    striptimes: Seq<StripTime>,
) -> Option<FdtTuple> {
    match capture_from_string_spec(base_name_spec(file), dateparse, false) {
        Some(v) => strptimes_datetime_spec(v, fmts_of_striptimes(striptimes)),
        None => None,
    }
}

/// Extracts a candidate timestamp from the file's base name.
pub fn get_datetime_from_filename(
    file: &str,
    dateparse: &Vec<Capture>,
    striptimes: &Vec<StripTime>,
) -> (r: Option<FileDateTime>)
    requires
        captures_wf(dateparse@),
    ensures
        fdt_opt_tuple(r) == datetime_from_filename_spec(file@, dateparse@, striptimes@),
{
    let name = base_name(file);
    let captured = capture_from_string(name.as_str(), dateparse, false);
    match captured {
        Some(v) => get_datetime_with_striptimes(v.as_str(), striptimes),
        None => None,
    }
}

/// The candidate of the first additional source named "filename".
pub open spec fn datetime_from_additional_spec(file: Seq<char>, adds: Seq<Additional>) -> Option<
    FdtTuple,
>
    decreases adds.len(),
{
    if adds.len() == 0 {
        None
    } else if adds[0].name@ == "filename"@ {
        datetime_from_filename_spec(file, adds[0].dateparse@, adds[0].striptimes@)
    } else {
        datetime_from_additional_spec(file, adds.drop_first())
    }
}

/// Extracts a candidate timestamp from the configured additional sources;
/// the one understood reads the file name.
pub fn get_datetime_from_additional(file: &str, cfg: &Config) -> (r: Option<FileDateTime>)
    requires
        cfg.wf(),
    ensures
        fdt_opt_tuple(r) == if cfg.additionals is Some {
            datetime_from_additional_spec(file@, (cfg.additionals->0)@)
        } else {
            None::<FdtTuple>
        },
{
    match cfg.additionals.as_ref() {
        None => None,
        Some(adds) => {
            assert((cfg.additionals->0)@ == adds@);
            assert(adds@.skip(0) =~= adds@);
            let mut i: usize = 0;
            while i < adds.len()
                invariant
                    i <= adds@.len(),
                    cfg.additionals is Some,
                    (cfg.additionals->0)@ == adds@,
                    forall|k: int|
                        0 <= k < adds@.len() ==> captures_wf(#[trigger] adds@[k].dateparse@),
                    datetime_from_additional_spec(file@, adds@) == datetime_from_additional_spec(
                        file@,
                        adds@.skip(i as int),
                    ),
                decreases adds@.len() - i,
            {
                proof {
                    assert(adds@.skip(i as int)[0] == adds@[i as int]);
                    assert(adds@.skip(i as int).drop_first() =~= adds@.skip(i as int + 1));
                }
                let add = &adds[i];
                if str_eq(add.name.as_str(), "filename") {
                    proof {
                        assert(adds@.skip(i as int)[0].name@ == "filename"@);
                        assert(datetime_from_additional_spec(file@, adds@.skip(i as int))
                            == datetime_from_filename_spec(
                            file@,
                            adds@[i as int].dateparse@,
                            adds@[i as int].striptimes@,
                        ));
                    }
                    assert(*add == adds@[i as int]);
                    let r = get_datetime_from_filename(file, &add.dateparse, &add.striptimes);
                    assert(fdt_opt_tuple(r) == datetime_from_additional_spec(file@, adds@));
                    return r;
                }
                i = i + 1;
            }
            None
        },
    }
}

} // verus!
